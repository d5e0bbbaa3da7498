pub mod grok_responses_request;
pub mod laws;
