pub mod grok;
pub mod laws;
