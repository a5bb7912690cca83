//! Text that goes into an address or a body: decimal numbers, lists with commas and
//! form-encoded query strings.

use vstd::prelude::*;
use vstd::string::*;

verus! {

/// The character that stands for the decimal digit `d`.
pub open spec fn digit(d: nat) -> char {
    if d == 0 {
        '0'
    } else if d == 1 {
        '1'
    } else if d == 2 {
        '2'
    } else if d == 3 {
        '3'
    } else if d == 4 {
        '4'
    } else if d == 5 {
        '5'
    } else if d == 6 {
        '6'
    } else if d == 7 {
        '7'
    } else if d == 8 {
        '8'
    } else {
        '9'
    }
}

/// The decimal numeral of `n`: no sign, no leading zero, `"0"` for zero.
pub open spec fn decimal(n: nat) -> Seq<char>
    decreases n,
{
    if n < 10 {
        seq![digit(n)]
    } else {
        decimal(n / 10).push(digit(n % 10))
    }
}

fn digit_str(d: u64) -> (s: &'static str)
    requires
        d < 10,
    ensures
        s@ == seq![digit(d as nat)],
{
    proof {
        reveal_strlit("0");
        reveal_strlit("1");
        reveal_strlit("2");
        reveal_strlit("3");
        reveal_strlit("4");
        reveal_strlit("5");
        reveal_strlit("6");
        reveal_strlit("7");
        reveal_strlit("8");
        reveal_strlit("9");
    }
    let s = if d == 0 {
        "0"
    } else if d == 1 {
        "1"
    } else if d == 2 {
        "2"
    } else if d == 3 {
        "3"
    } else if d == 4 {
        "4"
    } else if d == 5 {
        "5"
    } else if d == 6 {
        "6"
    } else if d == 7 {
        "7"
    } else if d == 8 {
        "8"
    } else {
        "9"
    };
    assert(s@ =~= seq![digit(d as nat)]);
    s
}

/// Writes `n` as a decimal numeral.
pub fn decimal_string(n: u64) -> (s: String)
    ensures
        s@ == decimal(n as nat),
    decreases n,
{
    if n < 10 {
        String::from_str(digit_str(n))
    } else {
        let mut s = decimal_string(n / 10);
        s.append(digit_str(n % 10));
        assert(s@ =~= decimal(n as nat));
        s
    }
}

/// The number that a digit stands for.
pub open spec fn digit_value(c: char) -> nat {
    if c == '1' {
        1
    } else if c == '2' {
        2
    } else if c == '3' {
        3
    } else if c == '4' {
        4
    } else if c == '5' {
        5
    } else if c == '6' {
        6
    } else if c == '7' {
        7
    } else if c == '8' {
        8
    } else if c == '9' {
        9
    } else {
        0
    }
}

/// The number that a numeral stands for.
pub open spec fn numeral_value(numeral: Seq<char>) -> nat
    decreases numeral.len(),
{
    if numeral.len() == 0 {
        0
    } else {
        numeral_value(numeral.drop_last()) * 10 + digit_value(numeral.last())
    }
}

/// Reading the numeral of a number gives the number back, so no two numbers share a
/// numeral.
pub proof fn lemma_decimal_reads_back(n: nat)
    ensures
        numeral_value(decimal(n)) == n,
    decreases n,
{
    if n < 10 {
        assert(decimal(n).drop_last() =~= Seq::<char>::empty());
        assert(numeral_value(decimal(n).drop_last()) == 0);
    } else {
        lemma_decimal_reads_back(n / 10);
        assert(decimal(n).drop_last() =~= decimal(n / 10));
        assert(decimal(n).last() == digit(n % 10));
    }
}

/// The texts of a list of strings.
pub open spec fn texts(parts: Seq<String>) -> Seq<Seq<char>> {
    parts.map_values(|part: String| part@)
}

/// The parts in their order, with a comma between them.
pub open spec fn comma_joined(parts: Seq<Seq<char>>) -> Seq<char>
    decreases parts.len(),
{
    if parts.len() == 0 {
        Seq::empty()
    } else if parts.len() == 1 {
        parts[0]
    } else {
        comma_joined(parts.drop_last()).push(',') + parts.last()
    }
}

/// Writes the parts in their order, with a comma between them.
pub fn join_with_commas(parts: &Vec<String>) -> (text: String)
    ensures
        text@ == comma_joined(texts(parts@)),
{
    let mut text = String::new();
    let mut i: usize = 0;
    while i < parts.len()
        invariant
            i <= parts.len(),
            text@ == comma_joined(texts(parts@).take(i as int)),
        decreases parts.len() - i,
    {
        let ghost before = texts(parts@).take(i as int);
        let ghost after = texts(parts@).take(i + 1);
        proof {
            reveal_strlit(",");
            assert(after.drop_last() =~= before);
            assert(after.last() == parts@[i as int]@);
        }
        if i > 0 {
            text.append(",");
            assert(text@ =~= comma_joined(before).push(','));
        }
        text.append(parts[i].as_str());
        proof {
            if i == 0 {
                assert(text@ =~= after[0]);
            } else {
                assert(text@ =~= comma_joined(before).push(',') + after.last());
            }
        }
        i = i + 1;
    }
    assert(texts(parts@).take(parts.len() as int) =~= texts(parts@));
    text
}

/// A character that form encoding leaves as it is: an ASCII letter or digit, or one of
/// `*`, `-`, `.` and `_`.
pub open spec fn form_plain_char(c: char) -> bool {
    ||| 0x30 <= c as u32 <= 0x39
    ||| 0x41 <= c as u32 <= 0x5a
    ||| 0x61 <= c as u32 <= 0x7a
    ||| c == '*'
    ||| c == '-'
    ||| c == '.'
    ||| c == '_'
}

/// A text that form encoding leaves as it is.
pub open spec fn form_plain(text: Seq<char>) -> bool {
    forall|i: int| 0 <= i < text.len() ==> form_plain_char(#[trigger] text[i])
}

/// What `form_urlencoded` makes of a name or a value that holds a character which it
/// does not leave as it is: the encoding of the text's UTF-8 bytes that the crate's
/// `byte_serialize` yields.
pub uninterp spec fn form_encoded(text: Seq<char>) -> Seq<char>;

/// A name or a value as it stands in a query.
pub open spec fn form_text(text: Seq<char>) -> Seq<char> {
    if form_plain(text) {
        text
    } else {
        form_encoded(text)
    }
}

/// One pair of a query: the name, `=`, the value.
pub open spec fn form_pair(name: Seq<char>, value: Seq<char>) -> Seq<char> {
    form_text(name).push('=') + form_text(value)
}

/// A query with one more pair at its end: `&` parts the pair from what stands before it.
pub open spec fn form_append(query: Seq<char>, name: Seq<char>, value: Seq<char>) -> Seq<char> {
    if query.len() == 0 {
        form_pair(name, value)
    } else {
        query.push('&') + form_pair(name, value)
    }
}

/// The query string of a list of pairs: the pairs in their order, with `&` between them.
pub open spec fn form_query(pairs: Seq<(Seq<char>, Seq<char>)>) -> Seq<char>
    decreases pairs.len(),
{
    if pairs.len() == 0 {
        Seq::empty()
    } else {
        form_append(form_query(pairs.drop_last()), pairs.last().0, pairs.last().1)
    }
}

/// Calls `form_urlencoded::Serializer::append_pair` on a serializer over `query`, and
/// takes the finished string.
///
/// Not proved: that the serializer leaves `query` as it is, adds `&` where `query` is not
/// empty, and then the name, `=` and the value; and that it writes a name or a value
/// unchanged where that holds only ASCII letters, digits, `*`, `-`, `.` and `_`.
#[verifier::external_body]
pub(crate) fn form_append_pair(query: String, name: &str, value: &str) -> (extended: String)
    ensures
        extended@ == (if query@.len() == 0 {
            Seq::<char>::empty()
        } else {
            query@.push('&')
        }) + ((if form_plain(name@) {
            name@
        } else {
            form_encoded(name@)
        }).push('=') + (if form_plain(value@) {
            value@
        } else {
            form_encoded(value@)
        })),
{
    url::form_urlencoded::Serializer::new(query).append_pair(name, value).finish()
}

/// Adds a pair to the end of a query.
pub fn form_extend(query: String, name: &str, value: &str) -> (extended: String)
    ensures
        extended@ == form_append(query@, name@, value@),
{
    let extended = form_append_pair(query, name, value);
    assert(extended@ =~= form_append(query@, name@, value@));
    extended
}

} // verus!
