//! The router: an ordered table of routes, of which the first that accepts a
//! request decides which handler answers it.

use crate::method::Method;
use crate::text::{contains_char, str_eq, strip_prefix};
use crate::views::option_view;
use vstd::prelude::*;
use vstd::string::*;

verus! {

/// The handlers that a route can lead to.
#[derive(Clone, Copy, Debug, PartialEq, Eq, Structural)]
pub enum Handler {
    /// Answers with the fixed greeting.
    PostHello,
    /// Greets the name given in the query.
    GetHelloQuery,
    /// Greets the name given as a path segment.
    GetHelloName,
}

/// What a route asks of a request path.
#[derive(Debug, PartialEq, Eq)]
pub enum Pattern {
    /// The path is this text.
    Exact(String),
    /// The path is this text and then one segment: characters other than
    /// `/`, possibly none. The segment is captured.
    Segment(String),
}

/// A pattern over sequences of characters.
pub enum PatternView {
    Exact(Seq<char>),
    Segment(Seq<char>),
}

impl View for Pattern {
    type V = PatternView;

    open spec fn view(&self) -> PatternView {
        match self {
            Pattern::Exact(text) => PatternView::Exact(text@),
            Pattern::Segment(prefix) => PatternView::Segment(prefix@),
        }
    }
}

impl PatternView {
    /// Whether `path` is of the shape that the pattern asks for.
    pub open spec fn matches(self, path: Seq<char>) -> bool {
        match self {
            PatternView::Exact(text) => path == text,
            PatternView::Segment(prefix) => prefix.is_prefix_of(path) && !path.skip(
                prefix.len() as int,
            ).contains('/'),
        }
    }

    /// The segment that the pattern captures from a `path` that it matches.
    pub open spec fn captured(self, path: Seq<char>) -> Option<Seq<char>> {
        match self {
            PatternView::Exact(_) => None,
            PatternView::Segment(prefix) => Some(path.skip(prefix.len() as int)),
        }
    }
}

/// The handler that a request was routed to, with the segment captured from
/// its path, if the pattern captures one.
#[derive(Clone, Debug, PartialEq, Eq)]
pub struct Matched {
    pub handler: Handler,
    pub segment: Option<String>,
}

/// A routing result over sequences of characters.
pub struct MatchedView {
    pub handler: Handler,
    pub segment: Option<Seq<char>>,
}

impl View for Matched {
    type V = MatchedView;

    open spec fn view(&self) -> MatchedView {
        MatchedView { handler: self.handler, segment: option_view(self.segment) }
    }
}

/// One row of the table: requests with this method and a path of this
/// pattern go to this handler.
#[derive(Debug, PartialEq, Eq)]
pub struct Route {
    pub method: Method,
    pub pattern: Pattern,
    pub handler: Handler,
}

/// A row of the table over sequences of characters.
pub struct RouteView {
    pub method: Method,
    pub pattern: PatternView,
    pub handler: Handler,
}

impl View for Route {
    type V = RouteView;

    open spec fn view(&self) -> RouteView {
        RouteView { method: self.method, pattern: self.pattern@, handler: self.handler }
    }
}

impl RouteView {
    /// What this row alone makes of a request: its handler and the captured
    /// segment when method and path fit, nothing otherwise.
    pub open spec fn accept(self, method: Method, path: Seq<char>) -> Option<MatchedView> {
        if self.method == method && self.pattern.matches(path) {
            Some(MatchedView { handler: self.handler, segment: self.pattern.captured(path) })
        } else {
            None
        }
    }
}

/// What a table makes of a request: the answer of its first row that accepts
/// the request, nothing when no row does.
pub open spec fn first_match(routes: Seq<RouteView>, method: Method, path: Seq<char>) -> Option<
    MatchedView,
>
    decreases routes.len(),
{
    if routes.len() == 0 {
        None
    } else if routes[0].accept(method, path) is Some {
        routes[0].accept(method, path)
    } else {
        first_match(routes.drop_first(), method, path)
    }
}

/// First match wins: a row that accepts a request decides it, when no row
/// before it accepts the request.
pub proof fn lemma_first_match_wins(
    routes: Seq<RouteView>,
    method: Method,
    path: Seq<char>,
    index: int,
)
    requires
        0 <= index < routes.len(),
        routes[index].accept(method, path) is Some,
        forall|earlier: int| 0 <= earlier < index ==> routes[earlier].accept(method, path) is None,
    ensures
        first_match(routes, method, path) == routes[index].accept(method, path),
    decreases index,
{
    if index > 0 {
        let later = routes.drop_first();
        assert forall|earlier: int| 0 <= earlier < index - 1 implies later[earlier].accept(
            method,
            path,
        ) is None by {
            assert(later[earlier] == routes[earlier + 1]);
        }
        lemma_first_match_wins(later, method, path, index - 1);
    }
}

/// A request that no row accepts is routed nowhere.
pub proof fn lemma_no_match(routes: Seq<RouteView>, method: Method, path: Seq<char>)
    requires
        forall|index: int| 0 <= index < routes.len() ==> routes[index].accept(method, path) is None,
    ensures
        first_match(routes, method, path) is None,
    decreases routes.len(),
{
    if routes.len() > 0 {
        let later = routes.drop_first();
        assert forall|index: int| 0 <= index < later.len() implies later[index].accept(
            method,
            path,
        ) is None by {
            assert(later[index] == routes[index + 1]);
        }
        lemma_no_match(later, method, path);
    }
}

impl Route {
    /// Holds a request against this row.
    pub fn accept(&self, method: Method, path: &str) -> (hit: Option<Matched>)
        ensures
            option_view(hit) == self@.accept(method, path@),
    {
        if self.method != method {
            return None;
        }
        match &self.pattern {
            Pattern::Exact(text) => {
                if str_eq(path, text.as_str()) {
                    Some(Matched { handler: self.handler, segment: None })
                } else {
                    None
                }
            },
            Pattern::Segment(prefix) => {
                match strip_prefix(path, prefix.as_str()) {
                    Some(tail) => {
                        assert(path@.skip(prefix@.len() as int) == tail@);
                        if contains_char(tail, '/') {
                            None
                        } else {
                            Some(
                                Matched {
                                    handler: self.handler,
                                    segment: Some(String::from_str(tail)),
                                },
                            )
                        }
                    },
                    None => None,
                }
            },
        }
    }
}

/// The routes of the API in the order in which they are tried.
pub struct ApiRouter {
    routes: Vec<Route>,
}

impl View for ApiRouter {
    type V = Seq<RouteView>;

    closed spec fn view(&self) -> Seq<RouteView> {
        Seq::new(self.routes@.len(), |i: int| self.routes@[i]@)
    }
}

impl ApiRouter {
    /// A router without routes.
    pub fn new() -> (router: ApiRouter)
        ensures
            router@ == Seq::<RouteView>::empty(),
    {
        ApiRouter { routes: Vec::new() }
    }

    /// Adds a route behind those that the router has.
    pub fn route(self, method: Method, pattern: Pattern, handler: Handler) -> (router: ApiRouter)
        ensures
            router@ == self@.push(RouteView { method, pattern: pattern@, handler }),
    {
        let mut routes = self.routes;
        routes.push(Route { method, pattern, handler });
        ApiRouter { routes }
    }

    /// Routes a request: the first route that accepts it wins.
    pub fn resolve(&self, method: Method, path: &str) -> (hit: Option<Matched>)
        ensures
            option_view(hit) == first_match(self@, method, path@),
    {
        let mut index: usize = 0;
        assert(self@.skip(0) == self@);
        while index < self.routes.len()
            invariant
                index <= self.routes@.len(),
                first_match(self@, method, path@) == first_match(
                    self@.skip(index as int),
                    method,
                    path@,
                ),
            decreases self.routes@.len() - index,
        {
            let hit = self.routes[index].accept(method, path);
            if hit.is_some() {
                return hit;
            }
            assert(self@.skip(index as int).drop_first() == self@.skip(index + 1));
            index = index + 1;
        }
        None
    }
}

} // verus!
