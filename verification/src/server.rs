//! The front of the server: requests under the mount point of the API go to
//! its router, every other request to the static file service.

use crate::method::Method;
use crate::router::{first_match, ApiRouter, Matched, MatchedView, RouteView};
use crate::text::strip_prefix;
use crate::views::option_view;
use vstd::prelude::*;

verus! {

/// The path prefix under which the API is mounted.
pub open spec fn api_mount() -> Seq<char> {
    "/api"@
}

/// Where a request goes. Under the mount point the routes decide, on what is
/// left of the path behind the mount point. `None` stands for the static file
/// service: it gets every request that is not under the mount point or that
/// no route accepts.
pub open spec fn dispatch_of(routes: Seq<RouteView>, method: Method, path: Seq<char>) -> Option<
    MatchedView,
> {
    if api_mount().is_prefix_of(path) {
        first_match(routes, method, path.skip(api_mount().len() as int))
    } else {
        None
    }
}

/// Decides where a request goes: to the handler of the API that is returned,
/// or, on `None`, to the static file service, which is to get the request as
/// it came in.
pub fn dispatch(api: &ApiRouter, method: Method, path: &str) -> (hit: Option<Matched>)
    ensures
        option_view(hit) == dispatch_of(api@, method, path@),
{
    match strip_prefix(path, "/api") {
        Some(tail) => {
            assert(path@.skip(api_mount().len() as int) == tail@);
            api.resolve(method, tail)
        },
        None => None,
    }
}

} // verus!
