use goji::{Credentials, Error, Errors, Jira, Method, Reply, Request};
use std::collections::BTreeMap;

fn client() -> Jira {
    Jira::new("https://h", Credentials::Basic("u".to_string(), "p".to_string())).unwrap()
}

fn problems() -> Errors {
    let mut errors = BTreeMap::new();
    errors.insert("summary".to_string(), "is required".to_string());
    Errors { errors, error_messages: vec!["no good".to_string()] }
}

fn reply<D>(status: u16, errors: Result<Errors, String>, body: Result<D, String>) -> Result<Reply<D>, String> {
    Ok(Reply { status, errors, body })
}

fn basic_of(request: &Request) -> (String, String) {
    match &request.credentials {
        Credentials::Basic(user, pass) => (user.clone(), pass.clone()),
    }
}

#[test]
fn execute_builds_the_address_from_host_namespace_and_endpoint() {
    let request = client().execute(Method::Put, "agile", "/board/3", None);
    assert_eq!(request.method, Method::Put);
    assert_eq!(request.url, "https://h/rest/agile/latest/board/3");
    assert_eq!(basic_of(&request), ("u".to_string(), "p".to_string()));
    assert_eq!(request.content_type, None);
    assert_eq!(request.body, None);
}

#[test]
fn execute_announces_json_exactly_when_there_is_a_body() {
    let with_body = client().execute(Method::Post, "api", "/issue", Some(vec![123, 125]));
    assert_eq!(with_body.content_type, Some("application/json".to_string()));
    assert_eq!(with_body.body, Some(vec![123, 125]));
    let without = client().execute(Method::Post, "api", "/issue", None);
    assert_eq!(without.content_type, None);
}

#[test]
fn get_has_no_body_and_post_and_put_carry_the_text_as_bytes() {
    let get = client().get("api", "/issue/X-1");
    assert_eq!(get.method, Method::Get);
    assert_eq!(get.body, None);
    let post = client().post("api", "/issue", "{\"a\":\"é\"}");
    assert_eq!(post.method, Method::Post);
    assert_eq!(post.body, Some("{\"a\":\"é\"}".as_bytes().to_vec()));
    assert_eq!(post.url, "https://h/rest/api/latest/issue");
    let put = client().put("api", "/issue/X-1", "{}");
    assert_eq!(put.method, Method::Put);
    assert_eq!(put.body, Some(vec![b'{', b'}']));
    assert_eq!(put.content_type, Some("application/json".to_string()));
}

#[test]
fn request_maps_401_404_405_whatever_the_body_holds() {
    for (errors, body) in [
        (Ok(problems()), Ok(1u8)),
        (Err("bad".to_string()), Err("bad".to_string())),
        (Ok(problems()), Err("bad".to_string())),
    ] {
        let e = errors;
        let b = body;
        let again = |s: u16| match (&e, &b) {
            (Ok(_), Ok(v)) => reply(s, Ok(problems()), Ok(*v)),
            (Err(m), Err(n)) => reply(s, Err(m.clone()), Err(n.clone())),
            (Ok(_), Err(n)) => reply(s, Ok(problems()), Err(n.clone())),
            (Err(m), Ok(v)) => reply(s, Err(m.clone()), Ok(*v)),
        };
        assert!(matches!(Jira::request(again(401)), Err(Error::Unauthorized)));
        assert!(matches!(Jira::request(again(404)), Err(Error::NotFound)));
        assert!(matches!(Jira::request(again(405)), Err(Error::MethodNotAllowed)));
    }
}

#[test]
fn request_returns_a_fault_with_the_status_and_the_listed_problems() {
    for status in [400u16, 402, 403, 406, 409, 422, 499] {
        match Jira::request::<u8>(reply(status, Ok(problems()), Ok(1))) {
            Err(Error::Fault { code, errors }) => {
                assert_eq!(code, status);
                assert_eq!(errors.error_messages, vec!["no good".to_string()]);
                assert_eq!(errors.errors.get("summary"), Some(&"is required".to_string()));
            }
            other => panic!("{:?}", other),
        }
    }
}

#[test]
fn request_fails_where_the_problems_of_a_fault_cannot_be_read() {
    match Jira::request::<u8>(reply(400, Err("expected value".to_string()), Ok(1))) {
        Err(Error::Serde(message)) => assert_eq!(message, "expected value"),
        other => panic!("{:?}", other),
    }
}

#[test]
fn request_hands_out_the_value_for_2xx_and_3xx() {
    for status in [200u16, 201, 204, 299, 300, 302, 399] {
        match Jira::request(reply(status, Err("not a list".to_string()), Ok(status + 1))) {
            Ok(value) => assert_eq!(value, status + 1),
            other => panic!("{:?}", other),
        }
    }
}

#[test]
fn request_reports_a_body_that_cannot_be_read() {
    for status in [200u16, 301] {
        match Jira::request::<u8>(reply(status, Ok(problems()), Err("EOF while parsing".to_string()))) {
            Err(Error::Serde(message)) => assert_eq!(message, "EOF while parsing"),
            other => panic!("{:?}", other),
        }
    }
}

#[test]
fn request_reads_the_body_outside_the_4xx_class() {
    for status in [100u16, 399, 500, 503] {
        assert!(matches!(Jira::request(reply(status, Ok(problems()), Ok(5u8))), Ok(5)));
    }
}

#[test]
fn request_reports_a_request_that_was_not_answered() {
    match Jira::request::<u8>(Err("connection refused".to_string())) {
        Err(Error::Http(reason)) => assert_eq!(reason, "connection refused"),
        other => panic!("{:?}", other),
    }
}

#[test]
fn get_issue_goes_out_with_the_credentials_and_no_body() {
    let request = client().issues().get("ABC-1");
    assert_eq!(request.method, Method::Get);
    assert_eq!(request.url, "https://h/rest/api/latest/issue/ABC-1");
    assert_eq!(basic_of(&request), ("u".to_string(), "p".to_string()));
    assert_eq!(request.body, None);
    assert_eq!(request.content_type, None);
}

#[test]
fn sub_clients_send_through_the_client_they_were_made_from() {
    let jira = client();
    let copy = jira.clone();
    assert_eq!(copy.get("api", "/x").url, jira.get("api", "/x").url);
    assert_eq!(jira.transitions("K-2").list().url,
        "https://h/rest/api/latest/issue/K-2/transitions?expand=transitions.fields");
    assert_eq!(basic_of(&jira.search().list("a", &Default::default())), ("u".to_string(), "p".to_string()));
    let _ = jira.boards();
    let _ = jira.sprints();
}
