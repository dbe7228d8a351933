//! A small HTTP file-upload server's request handling: header framing,
//! routing, multipart extraction and response framing over raw bytes.
//! Socket and filesystem work is done by the caller, which feeds the
//! results back into the functions here.

pub mod bytes;
pub mod words;
pub mod request;
pub mod multipart;
pub mod response;
pub mod pages;
pub mod handler;
