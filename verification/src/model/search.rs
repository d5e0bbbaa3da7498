use crate::json::{opt_text_view, Json, JsonMap, JsonView};
use crate::model::source::Source;
use vstd::prelude::*;

verus! {

/// The model of the fast web channel. It searches the web natively, so a request in fast
/// mode sends neither `x_search` nor `reasoning.effort`.
pub const FAST_MODEL: &'static str = "grok-chat-fast";

/// A search to be put to a Grok backend.
#[derive(Debug, Clone, PartialEq, Eq)]
pub struct SearchRequest {
    pub model: String,
    pub system: Option<String>,
    pub messages: Vec<SearchMessage>,
    pub tools: Vec<SearchTool>,
    /// How hard the backend is to reason: `low`, `medium`, `high` or `xhigh`.
    pub reasoning_effort: Option<String>,
    /// Fast mode: the request goes to [`FAST_MODEL`], without `reasoning` and `x_search`.
    pub fast: bool,
}

/// One turn of the conversation that a request carries.
#[derive(Debug, Clone, PartialEq, Eq)]
pub struct SearchMessage {
    pub role: String,
    pub content: Vec<ContentBlock>,
}

/// One block of a message.
#[derive(Debug, Clone, PartialEq, Eq)]
pub enum ContentBlock {
    Text { text: String },
}

/// A tool that a request may use.
#[derive(Debug, Clone, PartialEq, Eq)]
pub struct SearchTool {
    pub name: String,
    pub input_schema: Json,
}

/// What a backend answered.
#[derive(Debug, Clone, PartialEq, Eq)]
pub struct SearchResponse {
    pub content: String,
    pub sources: Vec<Source>,
}

/// Retrieval filters that the source providers share.
#[derive(Debug, Clone, PartialEq, Eq)]
pub struct SearchFilters {
    pub recency_days: Option<u32>,
    pub include_domains: Vec<String>,
    pub exclude_domains: Vec<String>,
}

/// What a `SearchRequest` holds, its texts as sequences of characters.
pub struct SearchRequestView {
    pub model: Seq<char>,
    pub system: Option<Seq<char>>,
    pub messages: Seq<SearchMessageView>,
    pub tools: Seq<SearchToolView>,
    pub reasoning_effort: Option<Seq<char>>,
    pub fast: bool,
}

/// What a `SearchMessage` holds: its role and the text of each of its blocks.
pub struct SearchMessageView {
    pub role: Seq<char>,
    pub content: Seq<Seq<char>>,
}

/// What a `SearchTool` holds.
pub struct SearchToolView {
    pub name: Seq<char>,
    pub input_schema: JsonView,
}

impl View for ContentBlock {
    type V = Seq<char>;

    open spec fn view(&self) -> Seq<char> {
        match self {
            ContentBlock::Text { text } => text@,
        }
    }
}

impl View for SearchMessage {
    type V = SearchMessageView;

    open spec fn view(&self) -> SearchMessageView {
        SearchMessageView {
            role: self.role@,
            content: self.content@.map_values(|block: ContentBlock| block@),
        }
    }
}

impl View for SearchTool {
    type V = SearchToolView;

    open spec fn view(&self) -> SearchToolView {
        SearchToolView { name: self.name@, input_schema: self.input_schema@ }
    }
}

impl View for SearchRequest {
    type V = SearchRequestView;

    open spec fn view(&self) -> SearchRequestView {
        SearchRequestView {
            model: self.model@,
            system: opt_text_view(self.system),
            messages: self.messages@.map_values(|message: SearchMessage| message@),
            tools: self.tools@.map_values(|tool: SearchTool| tool@),
            reasoning_effort: opt_text_view(self.reasoning_effort),
            fast: self.fast,
        }
    }
}

/// A request pinned to fast mode.
pub open spec fn in_fast_mode(req: SearchRequestView) -> SearchRequestView {
    SearchRequestView { model: FAST_MODEL@, reasoning_effort: None, fast: true, ..req }
}

/// The schema of a tool without parameters.
pub open spec fn empty_schema() -> JsonView {
    JsonView::Object(
        Map::empty().insert("type"@, JsonView::Text("object"@)).insert(
            "properties"@,
            JsonView::Object(Map::empty()),
        ),
    )
}

impl SearchRequest {
    /// Pin this request to fast mode: the one way to set the three fields together.
    pub fn apply_fast_mode(&mut self)
        ensures
            final(self)@ == in_fast_mode(old(self)@),
            final(self).messages == old(self).messages,
            final(self).tools == old(self).tools,
            final(self).system == old(self).system,
    {
        self.model = FAST_MODEL.to_string();
        self.reasoning_effort = None;
        self.fast = true;
    }
}

impl ContentBlock {
    pub fn text(text: &str) -> (r: ContentBlock)
        ensures
            r@ == text@,
    {
        ContentBlock::Text { text: text.to_string() }
    }

    pub fn as_text(&self) -> (r: &str)
        ensures
            r@ == self@,
    {
        match self {
            ContentBlock::Text { text } => text.as_str(),
        }
    }
}

impl SearchTool {
    /// The intent to search the web.
    pub fn web_search() -> (r: SearchTool)
        ensures
            r.name@ == "web_search"@,
            r.input_schema@ == empty_schema(),
    {
        SearchTool {
            name: "web_search".to_string(),
            input_schema: Json::object(
                JsonMap::new().with("type", Json::text("object")).with(
                    "properties",
                    Json::object(JsonMap::new()),
                ),
            ),
        }
    }
}

impl Default for SearchFilters {
    fn default() -> (r: SearchFilters)
        ensures
            r.recency_days is None,
            r.include_domains@.len() == 0,
            r.exclude_domains@.len() == 0,
    {
        SearchFilters {
            recency_days: None,
            include_domains: Vec::new(),
            exclude_domains: Vec::new(),
        }
    }
}

impl SearchFilters {
    /// Whether the filters let everything through.
    pub fn is_empty(&self) -> (r: bool)
        ensures
            r == (self.recency_days is None && self.include_domains@.len() == 0
                && self.exclude_domains@.len() == 0),
    {
        self.recency_days.is_none() && self.include_domains.is_empty()
            && self.exclude_domains.is_empty()
    }
}

} // verus!
