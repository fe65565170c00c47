//! What holds of the server as a whole: which requests the API answers, with
//! what, and that it answers the same request the same way each time.

use crate::api::{api_routes, query_reply, reply_of};
use crate::greeting::greeting_text;
use crate::json::json_member_text;
use crate::method::Method;
use crate::response::{ContentType, ResponseView};
use crate::router::{lemma_first_match_wins, lemma_no_match, Handler, MatchedView, RouteView};
use crate::server::{api_mount, dispatch_of};
use vstd::prelude::*;

verus! {

/// The requests that the API answers, by method and whole path: `POST` on
/// `/api/hello`, `GET` on `/api/hello/`, and `GET` on `/api/hello/` followed
/// by one segment. The rows are tried in this order.
pub open spec fn surface(method: Method, path: Seq<char>) -> Option<MatchedView> {
    if method == Method::Post && path == "/api/hello"@ {
        Some(MatchedView { handler: Handler::PostHello, segment: None })
    } else if method == Method::Get && path == "/api/hello/"@ {
        Some(MatchedView { handler: Handler::GetHelloQuery, segment: None })
    } else if method == Method::Get && "/api/hello/"@.is_prefix_of(path) && !path.skip(
        "/api/hello/"@.len() as int,
    ).contains('/') {
        Some(
            MatchedView {
                handler: Handler::GetHelloName,
                segment: Some(path.skip("/api/hello/"@.len() as int)),
            },
        )
    } else {
        None
    }
}

/// How a text that begins with `head + tail` splits: it begins with `head`,
/// and what follows `head` in it begins with `tail`.
proof fn lemma_prefix_of_concat(head: Seq<char>, tail: Seq<char>, whole: Seq<char>)
    ensures
        (head + tail).is_prefix_of(whole) <==> head.is_prefix_of(whole) && tail.is_prefix_of(
            whole.skip(head.len() as int),
        ),
        (head + tail).is_prefix_of(whole) ==> whole.skip((head + tail).len() as int) == whole.skip(
            head.len() as int,
        ).skip(tail.len() as int),
        head + tail == whole <==> head.is_prefix_of(whole) && whole.skip(head.len() as int) == tail,
{
    let both = head + tail;
    let h = head.len() as int;
    let t = tail.len() as int;
    if both.is_prefix_of(whole) {
        assert(head =~= whole.subrange(0, h)) by {
            assert forall|i: int| 0 <= i < h implies head[i] == whole.subrange(0, h)[i] by {
                assert(both[i] == whole.subrange(0, h + t)[i]);
            }
        }
        assert(tail =~= whole.skip(h).subrange(0, t)) by {
            assert forall|i: int| 0 <= i < t implies tail[i] == whole.skip(h).subrange(0, t)[i] by {
                assert(both[h + i] == whole.subrange(0, h + t)[h + i]);
            }
        }
        assert(whole.skip(h + t) =~= whole.skip(h).skip(t));
    }
    if head.is_prefix_of(whole) && tail.is_prefix_of(whole.skip(h)) {
        assert(both =~= whole.subrange(0, h + t)) by {
            assert forall|i: int| 0 <= i < h + t implies both[i] == whole.subrange(0, h + t)[i] by {
                if i < h {
                    assert(head[i] == whole.subrange(0, h)[i]);
                } else {
                    assert(tail[i - h] == whole.skip(h).subrange(0, t)[i - h]);
                }
            }
        }
    }
    if both == whole {
        assert(head =~= whole.subrange(0, h));
        assert(whole.skip(h) =~= tail);
    }
    if head.is_prefix_of(whole) && whole.skip(h) == tail {
        assert(both =~= whole) by {
            assert forall|i: int| 0 <= i < whole.len() implies both[i] == whole[i] by {
                if i < h {
                    assert(head[i] == whole.subrange(0, h)[i]);
                } else {
                    assert(tail[i - h] == whole.skip(h)[i - h]);
                }
            }
        }
    }
}

/// The router of the API, mounted under `/api`, sends a request exactly
/// where the table of method and whole path says; every other request goes
/// to the static file service.
pub proof fn law_dispatch_surface(method: Method, path: Seq<char>)
    ensures
        dispatch_of(api_routes(), method, path) == surface(method, path),
{
    reveal_strlit("/api");
    reveal_strlit("/hello");
    reveal_strlit("/hello/");
    reveal_strlit("/api/hello");
    reveal_strlit("/api/hello/");
    let routes = api_routes();
    let rest = path.skip(api_mount().len() as int);
    assert("/api/hello"@ =~= "/api"@ + "/hello"@);
    assert("/api/hello/"@ =~= "/api"@ + "/hello/"@);
    lemma_prefix_of_concat("/api"@, "/hello"@, path);
    lemma_prefix_of_concat("/api"@, "/hello/"@, path);
    if api_mount().is_prefix_of(path) {
        if routes[0].accept(method, rest) is Some {
            lemma_first_match_wins(routes, method, rest, 0);
        } else if routes[1].accept(method, rest) is Some {
            lemma_first_match_wins(routes, method, rest, 1);
        } else if routes[2].accept(method, rest) is Some {
            lemma_first_match_wins(routes, method, rest, 2);
        } else {
            lemma_no_match(routes, method, rest);
        }
    }
}

/// `POST /api/hello` goes to the fixed handler, which answers with status
/// 202 and the text `Hello, World!`, whatever else the request holds.
pub proof fn law_post_hello(query: Option<Seq<char>>)
    ensures
        dispatch_of(api_routes(), Method::Post, "/api/hello"@) == Some(
            MatchedView { handler: Handler::PostHello, segment: None },
        ),
        reply_of(MatchedView { handler: Handler::PostHello, segment: None }, query) == (
            ResponseView {
                status: 202,
                content_type: ContentType::Text,
                body: "Hello, World!"@,
            }),
{
    law_dispatch_surface(Method::Post, "/api/hello"@);
}

/// `GET /api/hello/` goes to the query handler. For every non-empty `name`
/// in the query it answers with status 200 and the JSON object whose
/// member `message` is `Hello, {name}!`.
pub proof fn law_get_hello_query(name: Seq<char>)
    requires
        name.len() > 0,
    ensures
        dispatch_of(api_routes(), Method::Get, "/api/hello/"@) == Some(
            MatchedView { handler: Handler::GetHelloQuery, segment: None },
        ),
        reply_of(MatchedView { handler: Handler::GetHelloQuery, segment: None }, Some(name)) == (
            ResponseView {
                status: 200,
                content_type: ContentType::Json,
                body: json_member_text("message"@, "Hello, "@ + name + "!"@),
            }),
{
    law_dispatch_surface(Method::Get, "/api/hello/"@);
}

/// Without a name in the query, and with an empty one, the query handler
/// greets `World`: it answers with status 200 and the JSON object whose
/// member `message` is `Hello, World!`.
pub proof fn law_get_hello_query_default()
    ensures
        query_reply(None) == (ResponseView {
            status: 200,
            content_type: ContentType::Json,
            body: json_member_text("message"@, "Hello, World!"@),
        }),
        query_reply(Some(Seq::empty())) == query_reply(None),
{
    reveal_strlit("Hello, ");
    reveal_strlit("World");
    reveal_strlit("!");
    reveal_strlit("Hello, World!");
    assert(greeting_text("World"@) =~= "Hello, World!"@);
}

/// `GET /api/hello/{name}` goes to the path handler with `name` captured,
/// for every `name` that is one non-empty path segment.
pub proof fn law_get_hello_name_routed(name: Seq<char>)
    requires
        name.len() > 0,
        !name.contains('/'),
    ensures
        dispatch_of(api_routes(), Method::Get, "/api/hello/"@ + name) == Some(
            MatchedView { handler: Handler::GetHelloName, segment: Some(name) },
        ),
{
    let path = "/api/hello/"@ + name;
    law_dispatch_surface(Method::Get, path);
    assert("/api/hello/"@.is_prefix_of(path)) by {
        assert(path.subrange(0, "/api/hello/"@.len() as int) =~= "/api/hello/"@);
    }
    assert(path.skip("/api/hello/"@.len() as int) =~= name);
    assert(path != "/api/hello/"@) by {
        assert(path.len() == "/api/hello/"@.len() + name.len());
    }
}

/// The path handler answers with status 200 and the text `Hello, {name}!`,
/// for every `name`, the empty one and one with any characters included.
pub proof fn law_get_hello_name_answer(name: Seq<char>, query: Option<Seq<char>>)
    ensures
        reply_of(MatchedView { handler: Handler::GetHelloName, segment: Some(name) }, query) == (
            ResponseView {
                status: 200,
                content_type: ContentType::Text,
                body: "Hello, "@ + name + "!"@,
            }),
{
}

/// What a request is answered with: the reply of the handler that it is
/// routed to, or nothing where it goes to the static file service.
pub open spec fn answer_of(
    routes: Seq<RouteView>,
    method: Method,
    path: Seq<char>,
    query: Option<Seq<char>>,
) -> Option<ResponseView> {
    match dispatch_of(routes, method, path) {
        Some(matched) => Some(reply_of(matched, query)),
        None => None,
    }
}

/// Repeating a request repeats its answer: however often a request is
/// routed and handled, every round makes the same of it.
pub proof fn law_same_request_same_answer(
    routes: Seq<RouteView>,
    method: Method,
    path: Seq<char>,
    query: Option<Seq<char>>,
    answers: Seq<Option<ResponseView>>,
)
    requires
        forall|round: int|
            0 <= round < answers.len() ==> answers[round] == answer_of(
                routes,
                method,
                path,
                query,
            ),
    ensures
        forall|first: int, second: int|
            0 <= first < answers.len() && 0 <= second < answers.len() ==> answers[first]
                == answers[second],
{
}

} // verus!
