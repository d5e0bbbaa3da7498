use vstd::prelude::*;

verus! {

/// A page that a search or a map of a site turned up.
#[derive(Debug, Clone, PartialEq, Eq)]
pub struct Source {
    pub url: String,
    pub provider: String,
    pub title: Option<String>,
    pub description: Option<String>,
    pub published_date: Option<String>,
}

} // verus!
