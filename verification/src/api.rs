//! The API: its three handlers and the table that routes requests to them.

use crate::greeting::{greeting, greeting_text};
use crate::json::{is_plain, json_member_text, plain_member_text, write_member};
use crate::method::Method;
use crate::response::{ContentType, Response, ResponseView, STATUS_ACCEPTED, STATUS_OK};
use crate::router::{
    ApiRouter, Handler, Matched, MatchedView, Pattern, PatternView, RouteView,
};
use crate::views::option_view;
use vstd::prelude::*;
use vstd::string::*;

verus! {

/// The query of a request: its parameter `name`, if the request has one.
#[derive(Clone, Debug, Default, PartialEq, Eq)]
pub struct HelloQuery {
    pub name: Option<String>,
}

impl View for HelloQuery {
    type V = Option<Seq<char>>;

    open spec fn view(&self) -> Option<Seq<char>> {
        option_view(self.name)
    }
}

impl HelloQuery {
    /// The query of a request, from what reading its query string gave:
    /// `read` is `None` where the query string could not be read, and the
    /// query then counts as one without a name.
    pub fn read_or_absent(read: Option<HelloQuery>) -> (query: HelloQuery)
        ensures
            query@ == match read {
                Some(given) => given@,
                None => None,
            },
    {
        match read {
            Some(given) => given,
            None => HelloQuery { name: None },
        }
    }
}

/// The name that a query asks to greet: the one it gives, and `World` where
/// it gives none or an empty one.
pub open spec fn query_name(name: Option<Seq<char>>) -> Seq<char> {
    match name {
        Some(given) => if given.len() > 0 {
            given
        } else {
            "World"@
        },
        None => "World"@,
    }
}

/// The answer to `POST /hello`.
pub open spec fn fixed_reply() -> ResponseView {
    ResponseView {
        status: STATUS_ACCEPTED,
        content_type: ContentType::Text,
        body: "Hello, World!"@,
    }
}

/// The answer to `GET /hello/` with the query parameter `name`: a JSON object
/// whose member `message` is the greeting.
pub open spec fn query_reply(name: Option<Seq<char>>) -> ResponseView {
    ResponseView {
        status: STATUS_OK,
        content_type: ContentType::Json,
        body: json_member_text("message"@, greeting_text(query_name(name))),
    }
}

/// The answer to `GET /hello/{name}`.
pub open spec fn path_reply(name: Seq<char>) -> ResponseView {
    ResponseView { status: STATUS_OK, content_type: ContentType::Text, body: greeting_text(name) }
}

/// The routes of the API, first to last.
pub open spec fn api_routes() -> Seq<RouteView> {
    seq![
        RouteView {
            method: Method::Post,
            pattern: PatternView::Exact("/hello"@),
            handler: Handler::PostHello,
        },
        RouteView {
            method: Method::Get,
            pattern: PatternView::Exact("/hello/"@),
            handler: Handler::GetHelloQuery,
        },
        RouteView {
            method: Method::Get,
            pattern: PatternView::Segment("/hello/"@),
            handler: Handler::GetHelloName,
        },
    ]
}

/// What the handler of a routed request answers. A path handler without a
/// captured segment greets the empty name.
pub open spec fn reply_of(matched: MatchedView, query: Option<Seq<char>>) -> ResponseView {
    match matched.handler {
        Handler::PostHello => fixed_reply(),
        Handler::GetHelloQuery => query_reply(query),
        Handler::GetHelloName => path_reply(
            match matched.segment {
                Some(name) => name,
                None => Seq::empty(),
            },
        ),
    }
}

/// Builds the router of the API.
pub fn build_api_router() -> (router: ApiRouter)
    ensures
        router@ == api_routes(),
{
    ApiRouter::new().route(
        Method::Post,
        Pattern::Exact(String::from_str("/hello")),
        Handler::PostHello,
    ).route(
        Method::Get,
        Pattern::Exact(String::from_str("/hello/")),
        Handler::GetHelloQuery,
    ).route(Method::Get, Pattern::Segment(String::from_str("/hello/")), Handler::GetHelloName)
}

/// Answers `POST /hello`: always the same greeting, with status 202.
pub fn post_hello() -> (response: Response)
    ensures
        response@ == fixed_reply(),
{
    Response::text(STATUS_ACCEPTED, String::from_str("Hello, World!"))
}

/// The greeting that answers a query: for its name, or for `World` where the
/// name is missing or empty.
pub fn query_message(query: &HelloQuery) -> (message: String)
    ensures
        message@ == greeting_text(query_name(query@)),
{
    match &query.name {
        Some(given) => {
            if given.as_str().is_empty() {
                greeting("World")
            } else {
                greeting(given.as_str())
            }
        },
        None => greeting("World"),
    }
}

/// A greeting holds no character that JSON escapes, unless the name does.
pub proof fn lemma_greeting_is_plain(name: Seq<char>)
    requires
        is_plain(name),
    ensures
        is_plain(greeting_text(name)),
{
    reveal_strlit("Hello, ");
    reveal_strlit("!");
}

/// Answers `GET /hello/`: the greeting as the member `message` of a JSON
/// object, with status 200. Where the name holds no character that JSON
/// escapes, the body is `{"message":"Hello, ` and the name and `!"}`.
pub fn get_hello_query(query: HelloQuery) -> (response: Response)
    ensures
        response@ == query_reply(query@),
        is_plain(query_name(query@)) ==> response@.body == plain_member_text(
            "message"@,
            greeting_text(query_name(query@)),
        ),
{
    let message = query_message(&query);
    let document = write_member("message", message.as_str());
    proof {
        reveal_strlit("message");
        if is_plain(query_name(query@)) {
            lemma_greeting_is_plain(query_name(query@));
        }
    }
    Response::json(STATUS_OK, document)
}

/// Answers `GET /hello/{name}`: the greeting for `name` as it stands, with
/// status 200.
pub fn get_hello_name(name: String) -> (response: Response)
    ensures
        response@ == path_reply(name@),
{
    Response::text(STATUS_OK, greeting(name.as_str()))
}

/// Calls the handler that a request was routed to.
pub fn respond(matched: Matched, query: HelloQuery) -> (response: Response)
    ensures
        response@ == reply_of(matched@, query@),
{
    match matched.handler {
        Handler::PostHello => post_hello(),
        Handler::GetHelloQuery => get_hello_query(query),
        Handler::GetHelloName => {
            match matched.segment {
                Some(name) => get_hello_name(name),
                None => get_hello_name(String::new()),
            }
        },
    }
}

} // verus!
