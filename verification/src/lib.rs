//! The logic of a small HTTP server: a router that sends `POST /api/hello`,
//! `GET /api/hello/` and `GET /api/hello/{name}` to three handlers that
//! greet, and every other request to a static file service.
//!
//! The library decides and answers; it does no I/O. A transport hands it the
//! method, the path and the query of a request, and turns the `Response` that
//! comes back into bytes, or serves a file where `server::dispatch` returns
//! `None`.
//!
//! - `router`: the ordered table of routes, in which the first match wins
//! - `api`: the handlers and the table that leads to them
//! - `server`: the mount point of the API in front of the static files
//! - `config`: the startup configuration and what follows from it
//! - `laws`: what holds of routing and handlers together

pub mod api;
pub mod config;
pub mod greeting;
pub mod json;
pub mod laws;
pub mod method;
pub mod response;
pub mod router;
pub mod server;
pub mod text;
pub mod views;
