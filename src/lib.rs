//! A small post service: request routing, input validation, post identifiers,
//! JSON framing of replies and decoding of stored rows, with the HTTP server
//! and the database left to the caller.

pub mod ids;
pub mod json;
pub mod post;
pub mod service;
