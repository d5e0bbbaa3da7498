use vstd::prelude::*;

verus! {

/// What can go wrong while a request is served.
#[derive(Debug, Clone, PartialEq, Eq)]
pub enum GrokSearchError {
    /// The caller's parameters are missing or malformed.
    InvalidParams(String),
    /// The caller asked for something that does not exist.
    NotFound(String),
    /// A document could not be read or written.
    Parse(String),
    /// A backend failed.
    Provider(String),
    /// A backend did not answer in time.
    Timeout(String),
}

pub type Result<T> = std::result::Result<T, GrokSearchError>;

/// What an error is, its message as a sequence of characters.
pub enum ErrorView {
    InvalidParams(Seq<char>),
    NotFound(Seq<char>),
    Parse(Seq<char>),
    Provider(Seq<char>),
    Timeout(Seq<char>),
}

impl View for GrokSearchError {
    type V = ErrorView;

    open spec fn view(&self) -> ErrorView {
        match self {
            GrokSearchError::InvalidParams(m) => ErrorView::InvalidParams(m@),
            GrokSearchError::NotFound(m) => ErrorView::NotFound(m@),
            GrokSearchError::Parse(m) => ErrorView::Parse(m@),
            GrokSearchError::Provider(m) => ErrorView::Provider(m@),
            GrokSearchError::Timeout(m) => ErrorView::Timeout(m@),
        }
    }
}

} // verus!
