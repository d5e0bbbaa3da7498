use crate::json::opt_text_view;
use vstd::prelude::*;

verus! {

/// What a call of a search tool asks for.
#[derive(Debug, Clone, PartialEq, Eq)]
pub struct WebSearchInput {
    pub query: String,
    pub platform: Option<String>,
    pub model: Option<String>,
    pub extra_sources: Option<usize>,
    pub recency_days: Option<u32>,
    pub include_domains: Vec<String>,
    pub exclude_domains: Vec<String>,
    pub include_content: Option<bool>,
    pub response_format: Option<String>,
    pub reasoning_effort: Option<String>,
    pub fast: bool,
}

/// What a `WebSearchInput` holds, its texts as sequences of characters.
pub struct WebSearchInputView {
    pub query: Seq<char>,
    pub platform: Option<Seq<char>>,
    pub model: Option<Seq<char>>,
    pub extra_sources: Option<usize>,
    pub recency_days: Option<u32>,
    pub include_domains: Seq<Seq<char>>,
    pub exclude_domains: Seq<Seq<char>>,
    pub include_content: Option<bool>,
    pub response_format: Option<Seq<char>>,
    pub reasoning_effort: Option<Seq<char>>,
    pub fast: bool,
}

/// The characters of each text of a run.
pub open spec fn text_views(texts: Seq<String>) -> Seq<Seq<char>> {
    texts.map_values(|s: String| s@)
}

impl View for WebSearchInput {
    type V = WebSearchInputView;

    open spec fn view(&self) -> WebSearchInputView {
        WebSearchInputView {
            query: self.query@,
            platform: opt_text_view(self.platform),
            model: opt_text_view(self.model),
            extra_sources: self.extra_sources,
            recency_days: self.recency_days,
            include_domains: text_views(self.include_domains@),
            exclude_domains: text_views(self.exclude_domains@),
            include_content: self.include_content,
            response_format: opt_text_view(self.response_format),
            reasoning_effort: opt_text_view(self.reasoning_effort),
            fast: self.fast,
        }
    }
}

} // verus!
