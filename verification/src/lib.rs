//! Parsing and dispatch core of a minimal HTTP/1.x server.
//!
//! A raw byte buffer is turned into a structured [`request::HttpRequest`];
//! the structured request is then offered, in registration order, to a list
//! of pluggable response candidates (`response`), the first of which to
//! match produces the response text.  MIME lookup (`mime`) is a pure table
//! used by the response layer.

pub mod mime;
pub mod request;
pub mod response;
pub mod text;
