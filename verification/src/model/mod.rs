pub mod laws;
pub mod search;
pub mod source;
pub mod tool;
