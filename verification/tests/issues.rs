use goji::issues::board_issues_endpoint;
use goji::{
    Assignee, Board, Component, CreateIssue, Credentials, DoTransitionRequest, Error, Errors,
    Fields, IssueType, Issues, Jira, Method, Priority, Project, Reply, SearchOptions,
    TransitionRequest, TransitionTriggerOptions, UpdateIssue,
};
use serde_json::Value;
use std::collections::BTreeMap;

fn issues() -> Issues {
    let jira = Jira::new("https://jira.example", Credentials::Basic("me".to_string(), "secret".to_string())).unwrap();
    Issues::new(&jira)
}

fn fields() -> Fields {
    Fields {
        assignee: Assignee { name: "ann".to_string() },
        components: vec![Component { name: "core".to_string() }, Component { name: "ui".to_string() }],
        description: "two\nlines".to_string(),
        environment: "".to_string(),
        issuetype: IssueType { id: "3".to_string() },
        priority: Priority { id: "1".to_string() },
        project: Project { key: "ABC".to_string() },
        reporter: Assignee { name: "bob \"the\" builder".to_string() },
        summary: "a\\b".to_string(),
    }
}

const FIELDS_JSON: &str = "{\"assignee\":{\"name\":\"ann\"},\"components\":[{\"name\":\"core\"},{\"name\":\"ui\"}],\"description\":\"two\\nlines\",\"environment\":\"\",\"issuetype\":{\"id\":\"3\"},\"priority\":{\"id\":\"1\"},\"project\":{\"key\":\"ABC\"},\"reporter\":{\"name\":\"bob \\\"the\\\" builder\"},\"summary\":\"a\\\\b\"}";

fn problems() -> Errors {
    Errors { errors: BTreeMap::new(), error_messages: vec!["Transition is not valid".to_string()] }
}

fn answer(status: u16, errors: Result<Errors, String>) -> Result<Reply<()>, String> {
    let body = match &errors {
        Ok(_) => Err("invalid type: map, expected unit".to_string()),
        Err(e) => Err(e.clone()),
    };
    Ok(Reply { status, errors, body })
}

fn object(members: Vec<(&str, Value)>) -> Value {
    let mut map = serde_json::Map::new();
    for (name, value) in members {
        map.insert(name.to_string(), value);
    }
    Value::Object(map)
}

fn text(value: &str) -> Value {
    Value::String(value.to_string())
}

fn fields_value() -> Value {
    let f = fields();
    object(vec![
        ("assignee", object(vec![("name", text(&f.assignee.name))])),
        (
            "components",
            Value::Array(f.components.iter().map(|c| object(vec![("name", text(&c.name))])).collect()),
        ),
        ("description", text(&f.description)),
        ("environment", text(&f.environment)),
        ("issuetype", object(vec![("id", text(&f.issuetype.id))])),
        ("priority", object(vec![("id", text(&f.priority.id))])),
        ("project", object(vec![("key", text(&f.project.key))])),
        ("reporter", object(vec![("name", text(&f.reporter.name))])),
        ("summary", text(&f.summary)),
    ])
}

fn read_back(body: Option<Vec<u8>>) -> Value {
    serde_json::from_slice(&body.unwrap()).unwrap()
}

fn board(id: u64) -> Board {
    Board { self_link: "https://jira.example/rest/agile/1.0/board/7".to_string(), id, name: "b".to_string(), kind: "scrum".to_string() }
}

#[test]
fn small_objects_are_written_under_their_wire_names() {
    assert_eq!(Assignee { name: "ann".to_string() }.to_json(), "{\"name\":\"ann\"}");
    assert_eq!(IssueType { id: "3".to_string() }.to_json(), "{\"id\":\"3\"}");
    assert_eq!(Priority { id: "1".to_string() }.to_json(), "{\"id\":\"1\"}");
    assert_eq!(Project { key: "ABC".to_string() }.to_json(), "{\"key\":\"ABC\"}");
    assert_eq!(Component { name: "core".to_string() }.to_json(), "{\"name\":\"core\"}");
    assert_eq!(TransitionRequest { id: "31".to_string() }.to_json(), "{\"id\":\"31\"}");
    assert_eq!(
        DoTransitionRequest { transition: TransitionRequest { id: "31".to_string() } }.to_json(),
        "{\"transition\":{\"id\":\"31\"}}"
    );
}

#[test]
fn strings_are_escaped_as_json_asks() {
    assert_eq!(Assignee { name: "a\"b".to_string() }.to_json(), "{\"name\":\"a\\\"b\"}");
    assert_eq!(Assignee { name: "tab\there".to_string() }.to_json(), "{\"name\":\"tab\\there\"}");
    assert_eq!(Assignee { name: "\u{1}".to_string() }.to_json(), "{\"name\":\"\\u0001\"}");
    assert_eq!(Assignee { name: "é".to_string() }.to_json(), "{\"name\":\"é\"}");
}

#[test]
fn fields_are_written_in_their_order() {
    assert_eq!(fields().to_json(), FIELDS_JSON);
    assert_eq!(CreateIssue { fields: fields() }.to_json(), format!("{{\"fields\":{}}}", FIELDS_JSON));
    assert_eq!(UpdateIssue { fields: fields() }.to_json(), format!("{{\"fields\":{}}}", FIELDS_JSON));
}

#[test]
fn fields_without_components_hold_an_empty_array() {
    let mut f = fields();
    f.components = Vec::new();
    assert!(f.to_json().contains("\"components\":[],"));
}

#[test]
fn written_fields_are_read_back_with_the_same_values() {
    let text = CreateIssue { fields: fields() }.to_json();
    let value: serde_json::Value = serde_json::from_str(&text).unwrap();
    let read = &value["fields"];
    let expected = fields();
    assert_eq!(read["assignee"]["name"].as_str(), Some(expected.assignee.name.as_str()));
    assert_eq!(read["components"].as_array().map(|a| a.len()), Some(2));
    assert_eq!(read["components"][0]["name"].as_str(), Some("core"));
    assert_eq!(read["components"][1]["name"].as_str(), Some("ui"));
    assert_eq!(read["description"].as_str(), Some(expected.description.as_str()));
    assert_eq!(read["environment"].as_str(), Some(""));
    assert_eq!(read["issuetype"]["id"].as_str(), Some("3"));
    assert_eq!(read["priority"]["id"].as_str(), Some("1"));
    assert_eq!(read["project"]["key"].as_str(), Some("ABC"));
    assert_eq!(read["reporter"]["name"].as_str(), Some(expected.reporter.name.as_str()));
    assert_eq!(read["summary"].as_str(), Some(expected.summary.as_str()));
    assert_eq!(read.as_object().map(|o| o.len()), Some(9));
}

#[test]
fn get_transitions_and_geteditmeta_read_under_the_issue() {
    let a = issues().get_transitions("ABC-1");
    assert_eq!(a.method, Method::Get);
    assert_eq!(a.url, "https://jira.example/rest/api/latest/issue/ABC-1/transitions");
    assert_eq!(a.body, None);
    let b = issues().geteditmeta("ABC-1");
    assert_eq!(b.method, Method::Get);
    assert_eq!(b.url, "https://jira.example/rest/api/latest/issue/ABC-1/editmeta");
    assert_eq!(b.body, None);
}

#[test]
fn do_transition_posts_the_id_of_the_transition() {
    let request = issues().do_transition("ABC-1", Some("done".to_string()), "31");
    assert_eq!(request.method, Method::Post);
    assert_eq!(request.url, "https://jira.example/rest/api/latest/issue/ABC-1/transitions");
    assert_eq!(request.body, Some("{\"transition\":{\"id\":\"31\"}}".as_bytes().to_vec()));
    assert_eq!(request.content_type, Some("application/json".to_string()));
}

#[test]
fn do_transition_reply_answers_the_4xx_class_as_every_call_does() {
    assert!(matches!(Issues::do_transition_reply(answer(401, Ok(problems()))), Err(Error::Unauthorized)));
    assert!(matches!(Issues::do_transition_reply(answer(405, Ok(problems()))), Err(Error::MethodNotAllowed)));
    assert!(matches!(Issues::do_transition_reply(answer(404, Err("EOF".to_string()))), Err(Error::NotFound)));
    for status in [400u16, 403, 409, 499] {
        match Issues::do_transition_reply(answer(status, Ok(problems()))) {
            Err(Error::Fault { code, errors }) => {
                assert_eq!(code, status);
                assert_eq!(errors.error_messages, vec!["Transition is not valid".to_string()]);
            }
            other => panic!("{:?}", other),
        }
    }
    match Issues::do_transition_reply(answer(400, Err("EOF while parsing".to_string()))) {
        Err(Error::Serde(message)) => assert_eq!(message, "EOF while parsing"),
        other => panic!("{:?}", other),
    }
}

#[test]
fn do_transition_reply_is_success_outside_the_4xx_class_whatever_the_body() {
    for status in [200u16, 204, 302, 399, 500] {
        assert!(matches!(Issues::do_transition_reply(answer(status, Err("EOF".to_string()))), Ok(())));
        assert!(matches!(Issues::do_transition_reply(answer(status, Ok(problems()))), Ok(())));
    }
}

#[test]
fn do_transition_reply_reports_a_request_that_was_not_answered() {
    match Issues::do_transition_reply(Err("timed out".to_string())) {
        Err(Error::Http(reason)) => assert_eq!(reason, "timed out"),
        other => panic!("{:?}", other),
    }
}

#[test]
fn update_puts_and_create_posts_the_fields() {
    let update = issues().update("ABC-1", &UpdateIssue { fields: fields() });
    assert_eq!(update.method, Method::Put);
    assert_eq!(update.url, "https://jira.example/rest/api/latest/issue/ABC-1");
    assert_eq!(update.body, Some(format!("{{\"fields\":{}}}", FIELDS_JSON).into_bytes()));
    let create = issues().create(&CreateIssue { fields: fields() });
    assert_eq!(create.method, Method::Post);
    assert_eq!(create.url, "https://jira.example/rest/api/latest/issue");
    assert_eq!(create.body, Some(format!("{{\"fields\":{}}}", FIELDS_JSON).into_bytes()));
    assert_eq!(create.content_type, Some("application/json".to_string()));
}

#[test]
fn list_board_issues_puts_the_options_into_the_query() {
    let options = SearchOptions::builder().start_at(0).max_results(50).build();
    let request = issues().list(&board(7), &options);
    assert_eq!(request.method, Method::Get);
    assert_eq!(request.url, "https://jira.example/rest/agile/latest/board/7/issue?startAt=0&maxResults=50");
    assert_eq!(request.body, None);
}

#[test]
fn list_board_issues_without_options_keeps_the_question_mark() {
    let request = issues().list(&board(18446744073709551615), &SearchOptions::default());
    assert_eq!(request.url, "https://jira.example/rest/agile/latest/board/18446744073709551615/issue?");
}

#[test]
fn posted_bodies_read_back_as_the_values_that_were_sent() {
    let created = issues().create(&CreateIssue { fields: fields() });
    assert_eq!(read_back(created.body), object(vec![("fields", fields_value())]));
    let updated = issues().update("ABC-1", &UpdateIssue { fields: fields() });
    assert_eq!(read_back(updated.body), object(vec![("fields", fields_value())]));
    let moved = issues().do_transition("ABC-1", None, "3\"1");
    assert_eq!(
        read_back(moved.body),
        object(vec![("transition", object(vec![("id", text("3\"1"))]))])
    );
    let jira = Jira::new("https://h", Credentials::Basic("u".to_string(), "p".to_string())).unwrap();
    let plain = jira.transitions("K-1").trigger(&TransitionTriggerOptions::new("5"));
    assert_eq!(
        read_back(plain.body),
        object(vec![("transition", object(vec![("id", text("5"))])), ("fields", object(vec![]))])
    );
    let resolved = jira.transitions("K-1").trigger(&TransitionTriggerOptions::new("5").resolution("Won't\tfix"));
    assert_eq!(
        read_back(resolved.body),
        object(vec![
            ("transition", object(vec![("id", text("5"))])),
            ("fields", object(vec![("resolution", object(vec![("name", text("Won't\tfix"))]))])),
        ])
    );
}

#[test]
fn board_issues_endpoint_puts_the_query_behind_the_path() {
    assert_eq!(board_issues_endpoint(7, "startAt=0&maxResults=50"), "/board/7/issue?startAt=0&maxResults=50");
    assert_eq!(board_issues_endpoint(0, ""), "/board/0/issue?");
    assert_eq!(board_issues_endpoint(1200, "a=b"), "/board/1200/issue?a=b");
}
