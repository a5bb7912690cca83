//! Options for listing and searching: named parameters that go into the query of an
//! address, in the order in which they were first set.

use crate::text::{decimal, decimal_string, form_extend, form_query, comma_joined, join_with_commas, texts};
use vstd::prelude::*;
use vstd::string::*;

verus! {

/// The parameters of a query as the contracts speak of them: names and values.
pub type Params = Seq<(Seq<char>, Seq<char>)>;

/// The texts of a list of owned pairs.
pub open spec fn params_view(params: Seq<(String, String)>) -> Params {
    params.map_values(|p: (String, String)| (p.0@, p.1@))
}

/// Some parameter has this name.
pub open spec fn has_param(params: Params, name: Seq<char>) -> bool {
    exists|i: int| 0 <= i < params.len() && #[trigger] params[i].0 == name
}

/// `i` is the place of the first parameter with this name.
pub open spec fn is_first(params: Params, name: Seq<char>, i: int) -> bool {
    &&& 0 <= i < params.len()
    &&& params[i].0 == name
    &&& forall|j: int| 0 <= j < i ==> #[trigger] params[j].0 != name
}

/// The place of the first parameter with this name, where there is one.
pub open spec fn first_param(params: Params, name: Seq<char>) -> int {
    choose|i: int| is_first(params, name, i)
}

/// The parameters after `name` was set to `value`: a parameter of that name keeps its
/// place and takes the value, a new name goes to the end.
pub open spec fn with_param(params: Params, name: Seq<char>, value: Seq<char>) -> Params {
    if has_param(params, name) {
        params.update(first_param(params, name), (name, value))
    } else {
        params.push((name, value))
    }
}

/// No name occurs twice.
pub open spec fn distinct_names(params: Params) -> bool {
    forall|i: int, j: int|
        0 <= i < j < params.len() ==> (#[trigger] params[i]).0 != (#[trigger] params[j]).0
}

/// The text `true` or `false`.
pub open spec fn bool_text(flag: bool) -> Seq<char> {
    if flag {
        "true"@
    } else {
        "false"@
    }
}

/// Where parameters hold `name`, `first_param` is a place that holds it, and the first.
pub proof fn lemma_first_param(params: Params, name: Seq<char>)
    requires
        has_param(params, name),
    ensures
        is_first(params, name, first_param(params, name)),
    decreases params.len(),
{
    let k = choose|k: int| 0 <= k < params.len() && #[trigger] params[k].0 == name;
    if exists|j: int| 0 <= j < k && #[trigger] params[j].0 == name {
        let shorter = params.take(k);
        let j = choose|j: int| 0 <= j < k && #[trigger] params[j].0 == name;
        assert(shorter[j].0 == name);
        lemma_first_param(shorter, name);
        let f = first_param(shorter, name);
        assert(is_first(params, name, f)) by {
            assert(params[f] == shorter[f]);
            assert forall|j: int| 0 <= j < f implies #[trigger] params[j].0 != name by {
                assert(params[j] == shorter[j]);
            }
        }
    } else {
        assert(is_first(params, name, k));
    }
}

/// Setting a parameter keeps the names distinct.
pub proof fn lemma_with_param_distinct(params: Params, name: Seq<char>, value: Seq<char>)
    requires
        distinct_names(params),
    ensures
        distinct_names(with_param(params, name, value)),
{
    let after = with_param(params, name, value);
    if has_param(params, name) {
        lemma_first_param(params, name);
        let f = first_param(params, name);
        assert forall|i: int, j: int| 0 <= i < j < after.len() implies (#[trigger] after[i]).0 != (
        #[trigger] after[j]).0 by {
            assert(after[i].0 == params[i].0);
            assert(after[j].0 == params[j].0);
        }
    } else {
        assert forall|i: int, j: int| 0 <= i < j < after.len() implies (#[trigger] after[i]).0 != (
        #[trigger] after[j]).0 by {
            if j == params.len() {
                assert(after[i] == params[i]);
                assert(params[i].0 != name);
            } else {
                assert(after[i] == params[i]);
                assert(after[j] == params[j]);
            }
        }
    }
}

/// A parameter that was set is there, with the value it was set to, and setting it
/// again to the same value changes nothing.
pub proof fn lemma_with_param_holds(params: Params, name: Seq<char>, value: Seq<char>)
    ensures
        has_param(with_param(params, name, value), name),
        with_param(params, name, value)[first_param(with_param(params, name, value), name)] == (
            name,
            value,
        ),
        with_param(with_param(params, name, value), name, value) == with_param(params, name, value),
{
    let after = with_param(params, name, value);
    if has_param(params, name) {
        lemma_first_param(params, name);
        let f = first_param(params, name);
        assert(after[f].0 == name);
        lemma_first_param(after, name);
        let g = first_param(after, name);
        if g < f {
            assert(after[g] == params[g]);
        } else if g > f {
            assert(after[f].0 == name);
        }
        assert(after.update(g, (name, value)) =~= after);
    } else {
        let f = params.len() as int;
        assert(after[f].0 == name);
        lemma_first_param(after, name);
        let g = first_param(after, name);
        if g < f {
            assert(after[g] == params[g]);
        }
        assert(after.update(g, (name, value)) =~= after);
    }
}

fn set_param(params: &mut Vec<(String, String)>, name: &str, value: String)
    ensures
        params_view(final(params)@) == with_param(params_view(old(params)@), name@, value@),
{
    let wanted = String::from_str(name);
    let ghost before = params_view(params@);
    let mut i: usize = 0;
    while i < params.len()
        invariant
            i <= params.len(),
            wanted@ == name@,
            before == params_view(params@),
            before == params_view(old(params)@),
            forall|j: int| 0 <= j < i ==> #[trigger] before[j].0 != name@,
        decreases params.len() - i,
    {
        if params[i].0 == wanted {
            proof {
                assert(before[i as int].0 == name@);
                lemma_first_param(before, name@);
                let f = first_param(before, name@);
                if f < i {
                    assert(before[f].0 != name@);
                } else if f > i {
                    assert(before[i as int].0 == name@);
                }
            }
            params.set(i, (wanted, value));
            assert(params_view(params@) =~= before.update(i as int, (name@, value@)));
            return ;
        }
        i = i + 1;
    }
    proof {
        if has_param(before, name@) {
            let k = choose|k: int| 0 <= k < before.len() && #[trigger] before[k].0 == name@;
            assert(before[k].0 != name@);
        }
    }
    params.push((wanted, value));
    assert(params_view(params@) =~= before.push((name@, value@)));
}

fn copy_params(params: &Vec<(String, String)>) -> (copy: Vec<(String, String)>)
    ensures
        params_view(copy@) == params_view(params@),
{
    let mut copy: Vec<(String, String)> = Vec::new();
    let mut i: usize = 0;
    while i < params.len()
        invariant
            i <= params.len(),
            params_view(copy@) == params_view(params@).take(i as int),
        decreases params.len() - i,
    {
        let ghost before = params_view(copy@);
        copy.push((params[i].0.clone(), params[i].1.clone()));
        proof {
            assert(params_view(copy@) =~= before.push(params_view(params@)[i as int]));
            assert(params_view(params@).take(i + 1) =~= before.push(params_view(params@)[i as int]));
        }
        i = i + 1;
    }
    assert(params_view(params@).take(params.len() as int) =~= params_view(params@));
    copy
}

/// Options of a listing or a search.
#[derive(Debug)]
pub struct SearchOptions {
    params: Vec<(String, String)>,
}

impl View for SearchOptions {
    type V = Params;

    closed spec fn view(&self) -> Params {
        params_view(self.params@)
    }
}

impl Default for SearchOptions {
    fn default() -> (options: SearchOptions)
        ensures
            options@ == Params::empty(),
            distinct_names(options@),
    {
        let params: Vec<(String, String)> = Vec::new();
        assert(params_view(params@) =~= Params::empty());
        SearchOptions { params }
    }
}

impl Clone for SearchOptions {
    fn clone(&self) -> (copy: SearchOptions)
        ensures
            copy@ == self@,
            distinct_names(copy@),
    {
        proof {
            use_type_invariant(self);
        }
        SearchOptions { params: copy_params(&self.params) }
    }
}

impl SearchOptions {
    /// No name occurs twice among the parameters.
    #[verifier::type_invariant]
    spec fn names_are_distinct(self) -> bool {
        distinct_names(params_view(self.params@))
    }

    /// A builder with no parameter set.
    pub fn builder() -> (builder: SearchOptionsBuilder)
        ensures
            builder@ == Params::empty(),
            distinct_names(builder@),
    {
        SearchOptionsBuilder::new()
    }

    /// The parameters as a query string; `None` where there is none.
    pub fn serialize(&self) -> (query: Option<String>)
        ensures
            self@.len() == 0 <==> query is None,
            query matches Some(text) ==> text@ == form_query(self@),
    {
        if self.params.len() == 0 {
            return None;
        }
        let mut text = String::new();
        let mut i: usize = 0;
        while i < self.params.len()
            invariant
                i <= self.params.len(),
                text@ == form_query(params_view(self.params@).take(i as int)),
            decreases self.params.len() - i,
        {
            let ghost pairs = params_view(self.params@);
            proof {
                assert(pairs.take(i + 1).drop_last() =~= pairs.take(i as int));
                assert(pairs.take(i + 1).last() == pairs[i as int]);
            }
            text = form_extend(text, self.params[i].0.as_str(), self.params[i].1.as_str());
            i = i + 1;
        }
        assert(params_view(self.params@).take(self.params.len() as int) =~= params_view(self.params@));
        Some(text)
    }

    /// A builder that starts from these options.
    pub fn as_builder(&self) -> (builder: SearchOptionsBuilder)
        ensures
            builder@ == self@,
            distinct_names(builder@),
    {
        proof {
            use_type_invariant(self);
        }
        SearchOptionsBuilder { params: copy_params(&self.params) }
    }
}

/// Builds `SearchOptions` one parameter at a time.
#[derive(Debug)]
pub struct SearchOptionsBuilder {
    params: Vec<(String, String)>,
}

impl View for SearchOptionsBuilder {
    type V = Params;

    closed spec fn view(&self) -> Params {
        params_view(self.params@)
    }
}

impl SearchOptionsBuilder {
    /// No name occurs twice among the parameters.
    #[verifier::type_invariant]
    spec fn names_are_distinct(self) -> bool {
        distinct_names(params_view(self.params@))
    }

    /// A builder with no parameter set.
    pub fn new() -> (builder: SearchOptionsBuilder)
        ensures
            builder@ == Params::empty(),
            distinct_names(builder@),
    {
        let params: Vec<(String, String)> = Vec::new();
        assert(params_view(params@) =~= Params::empty());
        SearchOptionsBuilder { params }
    }

    /// `fields`: the fields to return, with commas between them.
    pub fn fields(self, fields: Vec<String>) -> (builder: SearchOptionsBuilder)
        ensures
            builder@ == with_param(self@, "fields"@, comma_joined(texts(fields@))),
            distinct_names(builder@),
    {
        proof {
            use_type_invariant(&self);
            lemma_with_param_distinct(self@, "fields"@, comma_joined(texts(fields@)));
        }
        let mut params = self.params;
        set_param(&mut params, "fields", join_with_commas(&fields));
        SearchOptionsBuilder { params }
    }

    /// `validateQuery`: whether the server checks the query.
    pub fn validate(self, v: bool) -> (builder: SearchOptionsBuilder)
        ensures
            builder@ == with_param(self@, "validateQuery"@, bool_text(v)),
            distinct_names(builder@),
    {
        proof {
            use_type_invariant(&self);
            lemma_with_param_distinct(self@, "validateQuery"@, bool_text(v));
        }
        let mut params = self.params;
        let text = if v {
            String::from_str("true")
        } else {
            String::from_str("false")
        };
        set_param(&mut params, "validateQuery", text);
        SearchOptionsBuilder { params }
    }

    /// `maxResults`: the size of a page.
    pub fn max_results(self, m: u64) -> (builder: SearchOptionsBuilder)
        ensures
            builder@ == with_param(self@, "maxResults"@, decimal(m as nat)),
            distinct_names(builder@),
    {
        proof {
            use_type_invariant(&self);
            lemma_with_param_distinct(self@, "maxResults"@, decimal(m as nat));
        }
        let mut params = self.params;
        set_param(&mut params, "maxResults", decimal_string(m));
        SearchOptionsBuilder { params }
    }

    /// `startAt`: the place of the first result of the page.
    pub fn start_at(self, s: u64) -> (builder: SearchOptionsBuilder)
        ensures
            builder@ == with_param(self@, "startAt"@, decimal(s as nat)),
            distinct_names(builder@),
    {
        proof {
            use_type_invariant(&self);
            lemma_with_param_distinct(self@, "startAt"@, decimal(s as nat));
        }
        let mut params = self.params;
        set_param(&mut params, "startAt", decimal_string(s));
        SearchOptionsBuilder { params }
    }

    /// `expand`: what to expand in the results, with commas between the items.
    pub fn expand(self, ex: Vec<String>) -> (builder: SearchOptionsBuilder)
        ensures
            builder@ == with_param(self@, "expand"@, comma_joined(texts(ex@))),
            distinct_names(builder@),
    {
        proof {
            use_type_invariant(&self);
            lemma_with_param_distinct(self@, "expand"@, comma_joined(texts(ex@)));
        }
        let mut params = self.params;
        set_param(&mut params, "expand", join_with_commas(&ex));
        SearchOptionsBuilder { params }
    }

    /// `jql`: the search query.
    pub fn jql(self, query: &str) -> (builder: SearchOptionsBuilder)
        ensures
            builder@ == with_param(self@, "jql"@, query@),
            distinct_names(builder@),
    {
        proof {
            use_type_invariant(&self);
            lemma_with_param_distinct(self@, "jql"@, query@);
        }
        let mut params = self.params;
        set_param(&mut params, "jql", String::from_str(query));
        SearchOptionsBuilder { params }
    }

    /// The options that were built.
    pub fn build(&self) -> (options: SearchOptions)
        ensures
            options@ == self@,
            distinct_names(options@),
    {
        proof {
            use_type_invariant(self);
        }
        SearchOptions { params: copy_params(&self.params) }
    }
}

} // verus!
