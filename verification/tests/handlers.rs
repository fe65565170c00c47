use hello_server::api::{
    get_hello_name, get_hello_query, post_hello, query_message, respond, HelloQuery,
};
use hello_server::greeting::greeting;
use hello_server::response::{ContentType, Response, STATUS_ACCEPTED, STATUS_OK};
use hello_server::router::{Handler, Matched};

fn named(name: &str) -> HelloQuery {
    HelloQuery { name: Some(String::from(name)) }
}

fn message_of(response: &Response) -> String {
    let document: serde_json::Value = serde_json::from_str(&response.body).unwrap();
    let members = document.as_object().unwrap();
    assert_eq!(members.len(), 1);
    String::from(members.get("message").unwrap().as_str().unwrap())
}

#[test]
fn greeting_puts_the_name_between_hello_and_bang() {
    assert_eq!(greeting("Alice"), "Hello, Alice!");
    assert_eq!(greeting("World"), "Hello, World!");
}

#[test]
fn greeting_of_the_empty_name() {
    assert_eq!(greeting(""), "Hello, !");
}

#[test]
fn greeting_keeps_every_character() {
    assert_eq!(greeting("a b/c?d=e&f%20\"g\"\\\n"), "Hello, a b/c?d=e&f%20\"g\"\\\n!");
    assert_eq!(greeting("Zoë 好"), "Hello, Zoë 好!");
}

#[test]
fn status_codes() {
    assert_eq!(STATUS_OK, 200);
    assert_eq!(STATUS_ACCEPTED, 202);
}

#[test]
fn response_builders_keep_status_and_body() {
    let text = Response::text(404, String::from("gone"));
    assert_eq!(
        text,
        Response { status: 404, content_type: ContentType::Text, body: String::from("gone") }
    );
    let json = Response::json(200, String::from("{}"));
    assert_eq!(
        json,
        Response { status: 200, content_type: ContentType::Json, body: String::from("{}") }
    );
}

#[test]
fn post_hello_is_accepted_with_the_fixed_greeting() {
    let response = post_hello();
    assert_eq!(response.status, 202);
    assert_eq!(response.content_type, ContentType::Text);
    assert_eq!(response.body, "Hello, World!");
}

#[test]
fn get_hello_name_greets_the_segment() {
    let response = get_hello_name(String::from("Alice"));
    assert_eq!(response.status, 200);
    assert_eq!(response.content_type, ContentType::Text);
    assert_eq!(response.body, "Hello, Alice!");
}

#[test]
fn get_hello_name_with_an_empty_name() {
    let response = get_hello_name(String::new());
    assert_eq!(response.status, 200);
    assert_eq!(response.body, "Hello, !");
}

#[test]
fn get_hello_name_uses_the_name_as_it_stands() {
    let name = "<b>R&D</b> \"50%\" a/b\\c\t é";
    let response = get_hello_name(String::from(name));
    assert_eq!(response.status, 200);
    assert_eq!(response.body, format!("Hello, {}!", name));
}

#[test]
fn query_message_for_a_given_name() {
    assert_eq!(query_message(&named("Alice")), "Hello, Alice!");
}

#[test]
fn query_message_defaults_to_world() {
    assert_eq!(query_message(&HelloQuery { name: None }), "Hello, World!");
    assert_eq!(query_message(&named("")), "Hello, World!");
    assert_eq!(query_message(&HelloQuery::default()), "Hello, World!");
}

#[test]
fn get_hello_query_answers_with_a_json_object() {
    let response = get_hello_query(named("Alice"));
    assert_eq!(response.status, 200);
    assert_eq!(response.content_type, ContentType::Json);
    assert_eq!(response.body, "{\"message\":\"Hello, Alice!\"}");
}

#[test]
fn get_hello_query_without_a_name_greets_world() {
    let response = get_hello_query(HelloQuery { name: None });
    assert_eq!(response.status, 200);
    assert_eq!(response.content_type, ContentType::Json);
    assert_eq!(response.body, "{\"message\":\"Hello, World!\"}");
}

#[test]
fn get_hello_query_with_an_empty_name_greets_world() {
    let response = get_hello_query(named(""));
    assert_eq!(response.status, 200);
    assert_eq!(response.body, "{\"message\":\"Hello, World!\"}");
}

#[test]
fn get_hello_query_escapes_what_json_asks_for() {
    let response = get_hello_query(named("a\"b\\c\nd\u{1}"));
    assert_eq!(response.body, "{\"message\":\"Hello, a\\\"b\\\\c\\nd\\u0001!\"}");
    assert_eq!(message_of(&response), "Hello, a\"b\\c\nd\u{1}!");
}

#[test]
fn get_hello_query_body_reads_back_as_the_greeting() {
    for name in ["Alice", "Zoë 好", "{\"message\":1}", "a/b?c=d&e", " "] {
        let response = get_hello_query(named(name));
        assert_eq!(response.status, 200);
        assert_eq!(message_of(&response), format!("Hello, {}!", name));
    }
}

#[test]
fn get_hello_query_body_is_no_bare_greeting() {
    let response = get_hello_query(named("Alice"));
    assert_ne!(response.body, "Hello, Alice!");
    assert_ne!(response.body, "message");
}

#[test]
fn respond_calls_the_fixed_handler() {
    let matched = Matched { handler: Handler::PostHello, segment: None };
    assert_eq!(respond(matched, named("ignored")), post_hello());
}

#[test]
fn respond_calls_the_query_handler() {
    let matched = Matched { handler: Handler::GetHelloQuery, segment: None };
    assert_eq!(respond(matched, named("Alice")), get_hello_query(named("Alice")));
    let matched = Matched { handler: Handler::GetHelloQuery, segment: None };
    assert_eq!(respond(matched, HelloQuery { name: None }).body, "{\"message\":\"Hello, World!\"}");
}

#[test]
fn respond_calls_the_path_handler() {
    let matched = Matched { handler: Handler::GetHelloName, segment: Some(String::from("Bob")) };
    let response = respond(matched, named("ignored"));
    assert_eq!(response.status, 200);
    assert_eq!(response.content_type, ContentType::Text);
    assert_eq!(response.body, "Hello, Bob!");
}

#[test]
fn respond_without_a_segment_greets_the_empty_name() {
    let matched = Matched { handler: Handler::GetHelloName, segment: None };
    assert_eq!(respond(matched, HelloQuery { name: None }).body, "Hello, !");
}

#[test]
fn handlers_answer_the_same_each_time() {
    assert_eq!(post_hello(), post_hello());
    assert_eq!(get_hello_name(String::from("Ann")), get_hello_name(String::from("Ann")));
    assert_eq!(get_hello_query(named("Ann")), get_hello_query(named("Ann")));
    let first = get_hello_query(HelloQuery { name: None });
    for _ in 0..5 {
        assert_eq!(get_hello_query(HelloQuery { name: None }), first);
    }
}

#[test]
fn a_query_that_was_read_is_kept() {
    assert_eq!(HelloQuery::read_or_absent(Some(named("Alice"))), named("Alice"));
    assert_eq!(
        HelloQuery::read_or_absent(Some(HelloQuery { name: None })),
        HelloQuery { name: None }
    );
}

#[test]
fn a_query_that_could_not_be_read_has_no_name() {
    let query = HelloQuery::read_or_absent(None);
    assert_eq!(query, HelloQuery { name: None });
    assert_eq!(get_hello_query(query).body, "{\"message\":\"Hello, World!\"}");
}
