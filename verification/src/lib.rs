//! The logic of a web search service: the requests that it sends to a Grok backend, the
//! protocol that it speaks over its standard streams, and the operator log that it keeps.

pub mod adapters;
pub mod config;
pub mod error;
pub mod json;
pub mod json_laws;
pub mod json_text;
pub mod logging;
pub mod logging_laws;
pub mod mcp;
pub mod model;
pub mod providers;
pub mod record_laws;
pub mod text;
pub mod text_laws;
