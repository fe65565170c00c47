//! The request methods that routing tells apart.

use vstd::prelude::*;

verus! {

/// The method of an incoming request. Routing knows `GET` and `POST`; all
/// other methods are one case to it.
#[derive(Clone, Copy, Debug, PartialEq, Eq, Structural)]
pub enum Method {
    Get,
    Post,
    Other,
}

} // verus!
