//! A small HTTP "hello" service, modelled and verified as a library.
//!
//! The library maps an incoming request (method, path, optional `name`
//! query parameter, and the outcome of parsing a JSON body) to the
//! response the service owes for it: two HTML greeting routes, a fixed
//! JSON document, a JSON POST acknowledgement, and a fall-through for
//! every unmatched request, which a surrounding program serves from
//! static files.

pub mod laws;
pub mod model;
pub mod handlers;
pub mod router;
pub mod server;
pub mod text;
