//! A small JSON table server: request framing, routing and whole-document tables.

pub mod text;
pub mod framer;
pub mod store;
pub mod http_header;
pub mod http_response;
pub mod router;
pub mod logging;
pub mod listener;
