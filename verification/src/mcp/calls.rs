use crate::config::{effort_level, parse_reasoning_effort};
use crate::error::{ErrorView, GrokSearchError, Result};
use crate::json::{
    bool_of, integer_view, items_of, member, opt_text_view, opt_view, text_member, text_of,
    unsigned_member, views, Json, JsonMap, JsonView,
};
use crate::model::source::Source;
use crate::model::tool::{text_views, WebSearchInput, WebSearchInputView};
use crate::text::{same, trim, trimmed};
use vstd::prelude::*;

verus! {

/// A call that a client makes of a tool.
#[derive(Debug, Clone, PartialEq, Eq)]
pub enum ToolCall {
    /// Probe the configuration and the backends.
    Doctor,
    /// Search the web.
    WebSearch(WebSearchInput),
    /// Page through the sources of an earlier search.
    GetSources { session_id: String, offset: usize, limit: Option<usize> },
    /// Read one page.
    WebFetch { url: String, max_chars: Option<usize> },
    /// List the pages of a site.
    WebMap { url: String, max_results: usize },
}

/// What a `ToolCall` holds, its texts as sequences of characters.
pub enum ToolCallView {
    Doctor,
    WebSearch(WebSearchInputView),
    GetSources { session_id: Seq<char>, offset: usize, limit: Option<usize> },
    WebFetch { url: Seq<char>, max_chars: Option<usize> },
    WebMap { url: Seq<char>, max_results: usize },
}

impl View for ToolCall {
    type V = ToolCallView;

    open spec fn view(&self) -> ToolCallView {
        match self {
            ToolCall::Doctor => ToolCallView::Doctor,
            ToolCall::WebSearch(input) => ToolCallView::WebSearch(input@),
            ToolCall::GetSources { session_id, offset, limit } => ToolCallView::GetSources {
                session_id: session_id@,
                offset: *offset,
                limit: *limit,
            },
            ToolCall::WebFetch { url, max_chars } => ToolCallView::WebFetch {
                url: url@,
                max_chars: *max_chars,
            },
            ToolCall::WebMap { url, max_results } => ToolCallView::WebMap {
                url: url@,
                max_results: *max_results,
            },
        }
    }
}

/// The items of a list that are texts, trimmed, without those that are blank.
pub open spec fn trimmed_texts(items: Seq<JsonView>) -> Seq<Seq<char>>
    decreases items.len(),
{
    if items.len() == 0 {
        Seq::empty()
    } else {
        let front = trimmed_texts(items.drop_last());
        match text_of(items.last()) {
            Some(s) => if trimmed(s).len() > 0 {
                front.push(trimmed(s))
            } else {
                front
            },
            None => front,
        }
    }
}

/// The texts that an argument lists; none where it is no list.
pub open spec fn string_array(value: Option<JsonView>) -> Seq<Seq<char>> {
    match value {
        Some(v) => match items_of(v) {
            Some(items) => trimmed_texts(items),
            None => Seq::empty(),
        },
        None => Seq::empty(),
    }
}

/// A count argument.
pub open spec fn count_member(args: JsonView, key: Seq<char>) -> Option<usize> {
    match unsigned_member(args, key) {
        Some(n) => Some(n as usize),
        None => None,
    }
}

/// A count argument, with zero taken as none.
pub open spec fn positive_count_member(args: JsonView, key: Seq<char>) -> Option<usize> {
    match count_member(args, key) {
        Some(n) => if n > 0 {
            Some(n)
        } else {
            None
        },
        None => None,
    }
}

/// The number of days an argument asks for, with zero taken as none.
pub open spec fn days_member(args: JsonView, key: Seq<char>) -> Option<u32> {
    match unsigned_member(args, key) {
        Some(n) => if n as u32 > 0 {
            Some(n as u32)
        } else {
            None
        },
        None => None,
    }
}

/// What a call of a search tool with `args` asks for, but for the channel. The model and the
/// platform are not the caller's to choose.
pub open spec fn search_input(args: JsonView, query: Seq<char>) -> WebSearchInputView {
    WebSearchInputView {
        query,
        platform: None,
        model: None,
        extra_sources: count_member(args, "extra_sources"@),
        recency_days: days_member(args, "recency_days"@),
        include_domains: string_array(member(args, "include_domains"@)),
        exclude_domains: string_array(member(args, "exclude_domains"@)),
        include_content: match member(args, "include_content"@) {
            Some(v) => bool_of(v),
            None => None,
        },
        response_format: text_member(args, "response_format"@),
        reasoning_effort: match text_member(args, "reasoning_effort"@) {
            Some(effort) => effort_level(effort),
            None => None,
        },
        fast: false,
    }
}

/// What a call of a search tool asks for, or why it cannot be told.
pub open spec fn parsed_search_input(args: JsonView) -> std::result::Result<
    WebSearchInputView,
    ErrorView,
> {
    match text_member(args, "query"@) {
        Some(query) => Ok(search_input(args, query)),
        None => Err(ErrorView::InvalidParams("web_search.query is required"@)),
    }
}

/// The call that `name` and `args` make, or why they make none.
pub open spec fn tool_call(name: Seq<char>, args: JsonView) -> std::result::Result<
    ToolCallView,
    ErrorView,
> {
    if name == "doctor"@ {
        Ok(ToolCallView::Doctor)
    } else if name == "web_search"@ || name == "web_search_standard"@ {
        match parsed_search_input(args) {
            Ok(input) => Ok(
                ToolCallView::WebSearch(
                    WebSearchInputView { fast: name == "web_search"@, ..input },
                ),
            ),
            Err(err) => Err(err),
        }
    } else if name == "get_sources"@ {
        match text_member(args, "session_id"@) {
            Some(session_id) => Ok(
                ToolCallView::GetSources {
                    session_id,
                    offset: match count_member(args, "offset"@) {
                        Some(n) => n,
                        None => 0,
                    },
                    limit: positive_count_member(args, "limit"@),
                },
            ),
            None => Err(ErrorView::InvalidParams("get_sources.session_id is required"@)),
        }
    } else if name == "web_fetch"@ {
        match text_member(args, "url"@) {
            Some(url) => Ok(
                ToolCallView::WebFetch { url, max_chars: positive_count_member(args, "max_chars"@) },
            ),
            None => Err(ErrorView::InvalidParams("web_fetch.url is required"@)),
        }
    } else if name == "web_map"@ {
        match text_member(args, "url"@) {
            Some(url) => Ok(
                ToolCallView::WebMap {
                    url,
                    max_results: match count_member(args, "max_results"@) {
                        Some(n) => n,
                        None => 10,
                    },
                },
            ),
            None => Err(ErrorView::InvalidParams("web_map.url is required"@)),
        }
    } else {
        Err(ErrorView::NotFound("unknown tool: "@ + name))
    }
}

/// A result stands for the expected one.
pub open spec fn same_result<T: View>(
    r: Result<T>,
    expected: std::result::Result<T::V, ErrorView>,
) -> bool {
    match r {
        Ok(value) => expected == Ok::<T::V, ErrorView>(value@),
        Err(err) => expected == Err::<T::V, ErrorView>(err@),
    }
}

/// The texts that an argument lists, trimmed, without those that are blank.
pub fn parse_string_array(value: Option<&Json>) -> (r: Vec<String>)
    ensures
        text_views(r@) == string_array(opt_view(value)),
{
    let mut out: Vec<String> = Vec::new();
    assert(text_views(out@) =~= Seq::empty());
    if let Some(v) = value {
        if let Some(items) = v.as_array() {
            let ghost all = views(items@);
            let n: usize = items.len();
            assert(all.take(0) =~= Seq::empty());
            for i in 0..n
                invariant
                    n == items@.len(),
                    all == views(items@),
                    text_views(out@) == trimmed_texts(all.take(i as int)),
            {
                assert(all.take(i + 1).drop_last() =~= all.take(i as int));
                assert(all.take(i + 1).last() == items@[i as int]@);
                if let Some(s) = items[i].as_str() {
                    let s = trim(s);
                    if !s.as_str().is_empty() {
                        let ghost before = out@;
                        out.push(s);
                        assert(text_views(out@) =~= text_views(before).push(s@));
                    }
                }
            }
            assert(all.take(n as int) =~= all);
        }
    }
    out
}

/// A count argument.
fn get_count(args: &Json, key: &str) -> (r: Option<usize>)
    ensures
        r == count_member(args@, key@),
{
    match args.get_u64(key) {
        Some(n) => Some(n as usize),
        None => None,
    }
}

/// A count argument, with zero taken as none.
fn get_positive_count(args: &Json, key: &str) -> (r: Option<usize>)
    ensures
        r == positive_count_member(args@, key@),
{
    match get_count(args, key) {
        Some(n) => if n > 0 {
            Some(n)
        } else {
            None
        },
        None => None,
    }
}

/// A text argument of its own.
fn get_text(args: &Json, key: &str) -> (r: Option<String>)
    ensures
        opt_text_view(r) == text_member(args@, key@),
{
    match args.get_str(key) {
        Some(s) => Some(s.to_string()),
        None => None,
    }
}

/// What a call of a search tool asks for. The model and the platform are not read: a client
/// would make names up that override the operator's choice. Neither is the channel, which
/// goes by the tool's name.
pub fn parse_web_search_input(args: &Json) -> (r: Result<WebSearchInput>)
    ensures
        same_result(r, parsed_search_input(args@)),
{
    let query = match args.get_str("query") {
        Some(query) => query.to_string(),
        None => {
            return Err(GrokSearchError::InvalidParams("web_search.query is required".to_string()));
        },
    };
    let recency_days = match args.get_u64("recency_days") {
        Some(n) => if n as u32 > 0 {
            Some(n as u32)
        } else {
            None
        },
        None => None,
    };
    let include_content = match args.get("include_content") {
        Some(v) => v.as_bool(),
        None => None,
    };
    let reasoning_effort = match args.get_str("reasoning_effort") {
        Some(effort) => parse_reasoning_effort(effort),
        None => None,
    };
    Ok(
        WebSearchInput {
            query,
            platform: None,
            model: None,
            extra_sources: get_count(args, "extra_sources"),
            recency_days,
            include_domains: parse_string_array(args.get("include_domains")),
            exclude_domains: parse_string_array(args.get("exclude_domains")),
            include_content,
            response_format: get_text(args, "response_format"),
            reasoning_effort,
            fast: false,
        },
    )
}

/// The call that `name` and `args` make. The tool's name selects the search channel:
/// `web_search` is the fast one, `web_search_standard` the operator's model.
pub fn call_tool(name: &str, args: &Json) -> (r: Result<ToolCall>)
    ensures
        same_result(r, tool_call(name@, args@)),
{
    if same(name, "doctor") {
        return Ok(ToolCall::Doctor);
    }
    if same(name, "web_search") || same(name, "web_search_standard") {
        return match parse_web_search_input(args) {
            Ok(parsed) => {
                let mut input = parsed;
                input.fast = same(name, "web_search");
                Ok(ToolCall::WebSearch(input))
            },
            Err(err) => Err(err),
        };
    }
    if same(name, "get_sources") {
        let session_id = match get_text(args, "session_id") {
            Some(session_id) => session_id,
            None => {
                return Err(
                    GrokSearchError::InvalidParams(
                        "get_sources.session_id is required".to_string(),
                    ),
                );
            },
        };
        let offset = match get_count(args, "offset") {
            Some(n) => n,
            None => 0,
        };
        return Ok(
            ToolCall::GetSources { session_id, offset, limit: get_positive_count(args, "limit") },
        );
    }
    if same(name, "web_fetch") {
        return match get_text(args, "url") {
            Some(url) => Ok(
                ToolCall::WebFetch { url, max_chars: get_positive_count(args, "max_chars") },
            ),
            None => Err(GrokSearchError::InvalidParams("web_fetch.url is required".to_string())),
        };
    }
    if same(name, "web_map") {
        return match get_text(args, "url") {
            Some(url) => {
                let max_results = match get_count(args, "max_results") {
                    Some(n) => n,
                    None => 10,
                };
                Ok(ToolCall::WebMap { url, max_results })
            },
            None => Err(GrokSearchError::InvalidParams("web_map.url is required".to_string())),
        };
    }
    let mut message = "unknown tool: ".to_string();
    message.append(name);
    Err(GrokSearchError::NotFound(message))
}

/// A page as `web_map` reports it.
pub open spec fn mapped_source(url: Seq<char>, provider: Seq<char>) -> JsonView {
    JsonView::Object(
        Map::empty().insert("url"@, JsonView::Text(url)).insert(
            "provider"@,
            JsonView::Text(provider),
        ),
    )
}

/// The pages of a site as `web_map` reports them.
pub open spec fn mapped_sources(sources: Seq<Source>) -> Seq<JsonView> {
    sources.map_values(|source: Source| mapped_source(source.url@, source.provider@))
}

/// What `web_map` answers.
pub open spec fn web_map_answer(url: Seq<char>, sources: Seq<Source>) -> JsonView {
    JsonView::Object(
        Map::empty().insert("url"@, JsonView::Text(url)).insert(
            "sources_count"@,
            integer_view(sources.len() as int),
        ).insert("sources"@, JsonView::Array(mapped_sources(sources))),
    )
}

/// What `web_map` answers: the address of each page and who found it, and no more.
pub fn web_map_result(url: &str, sources: &Vec<Source>) -> (r: Json)
    ensures
        r@ == web_map_answer(url@, sources@),
{
    let mut mapped: Vec<Json> = Vec::new();
    let n: usize = sources.len();
    for i in 0..n
        invariant
            n == sources@.len(),
            views(mapped@) == mapped_sources(sources@.take(i as int)),
    {
        let ghost before = mapped@;
        let item = Json::object(
            JsonMap::new().with("url", Json::text(sources[i].url.as_str())).with(
                "provider",
                Json::text(sources[i].provider.as_str()),
            ),
        );
        mapped.push(item);
        assert(views(mapped@) =~= views(before).push(item@));
        assert(mapped_sources(sources@.take(i + 1)) =~= mapped_sources(
            sources@.take(i as int),
        ).push(item@));
    }
    assert(sources@.take(n as int) =~= sources@);
    Json::object(
        JsonMap::new().with("url", Json::text(url)).with(
            "sources_count",
            Json::unsigned(n as u64),
        ).with("sources", Json::array(mapped)),
    )
}

/// What a tool's output is called in an error, where it is the backend's own output that is
/// answered.
pub open spec fn output_name(call: ToolCallView) -> Option<Seq<char>> {
    match call {
        ToolCallView::WebSearch(_) => Some("output"@),
        ToolCallView::GetSources { .. } => Some("sources"@),
        ToolCallView::WebFetch { .. } => Some("fetch"@),
        _ => None,
    }
}

/// The error that a call comes to whose output could not be serialized, for the reason given.
pub fn serialize_failure(call: &ToolCall, reason: &str) -> (r: GrokSearchError)
    requires
        output_name(call@) is Some,
    ensures
        r@ == ErrorView::Parse("serialize "@ + output_name(call@)->0 + ": "@ + reason@),
{
    let what = match call {
        ToolCall::WebSearch(_) => "output",
        ToolCall::GetSources { .. } => "sources",
        _ => "fetch",
    };
    let mut message = "serialize ".to_string();
    message.append(what);
    message.append(": ");
    message.append(reason);
    GrokSearchError::Parse(message)
}

/// The tool's name alone selects the search channel, and neither tool takes a model or a
/// platform from its caller.
pub proof fn law_channel_goes_by_tool_name(args: JsonView)
    ensures
        tool_call("web_search"@, args) matches Ok(ToolCallView::WebSearch(input)) ==> input.fast
            && input.model is None && input.platform is None,
        tool_call("web_search_standard"@, args) matches Ok(ToolCallView::WebSearch(input))
            ==> !input.fast && input.model is None && input.platform is None,
        tool_call("web_search"@, args) is Ok <==> text_member(args, "query"@) is Some,
        tool_call("web_search_standard"@, args) is Ok <==> text_member(args, "query"@) is Some,
{
    lemma_search_names();
}

/// The names of the search tools are their own.
proof fn lemma_search_names()
    ensures
        "web_search"@ != "doctor"@,
        "web_search_standard"@ != "doctor"@,
        "web_search_standard"@ != "web_search"@,
{
    reveal_strlit("web_search");
    reveal_strlit("web_search_standard");
    reveal_strlit("doctor");
    assert("web_search"@.len() == 10);
    assert("web_search_standard"@.len() == 19);
    assert("doctor"@.len() == 6);
}

/// A key that a search call does not read.
pub open spec fn not_the_callers_choice(key: Seq<char>) -> bool {
    key == "model"@ || key == "platform"@ || key == "fast"@
}

/// Two search calls that differ in nothing but a model, a platform or a channel of the
/// caller's ask for the same.
pub proof fn law_callers_model_and_platform_are_ignored(a: JsonView, b: JsonView)
    requires
        forall|key: Seq<char>|
            !not_the_callers_choice(key) ==> #[trigger] member(a, key) == member(b, key),
    ensures
        parsed_search_input(a) == parsed_search_input(b),
        tool_call("web_search"@, a) == tool_call("web_search"@, b),
        tool_call("web_search_standard"@, a) == tool_call("web_search_standard"@, b),
{
    reveal_strlit("model");
    reveal_strlit("platform");
    reveal_strlit("fast");
    reveal_strlit("query");
    reveal_strlit("extra_sources");
    reveal_strlit("recency_days");
    reveal_strlit("include_domains");
    reveal_strlit("exclude_domains");
    reveal_strlit("include_content");
    reveal_strlit("response_format");
    reveal_strlit("reasoning_effort");
    assert("model"@.len() == 5 && "platform"@.len() == 8 && "fast"@.len() == 4);
    assert("query"@.len() == 5 && "query"@[0] == 'q' && "model"@[0] == 'm');
    assert("extra_sources"@.len() == 13 && "recency_days"@.len() == 12);
    assert("include_domains"@.len() == 15 && "exclude_domains"@.len() == 15);
    assert("include_content"@.len() == 15 && "response_format"@.len() == 15);
    assert("reasoning_effort"@.len() == 16);
    assert(member(a, "query"@) == member(b, "query"@));
    assert(member(a, "extra_sources"@) == member(b, "extra_sources"@));
    assert(member(a, "recency_days"@) == member(b, "recency_days"@));
    assert(member(a, "include_domains"@) == member(b, "include_domains"@));
    assert(member(a, "exclude_domains"@) == member(b, "exclude_domains"@));
    assert(member(a, "include_content"@) == member(b, "include_content"@));
    assert(member(a, "response_format"@) == member(b, "response_format"@));
    assert(member(a, "reasoning_effort"@) == member(b, "reasoning_effort"@));
    lemma_search_names();
}

/// What a search call passes on is fit to use: its effort is one of the levels, its days are
/// more than none, and its domains are trimmed and not blank.
pub proof fn law_search_input_is_clean(args: JsonView)
    ensures
        parsed_search_input(args) matches Ok(input) ==> {
            &&& input.reasoning_effort is Some ==> crate::config::effort_levels().contains(
                input.reasoning_effort->0,
            )
            &&& input.recency_days is Some ==> input.recency_days->0 > 0
            &&& forall|i: int|
                0 <= i < input.include_domains.len() ==> (#[trigger] input.include_domains[i]).len()
                    > 0 && trimmed(input.include_domains[i]) == input.include_domains[i]
            &&& forall|i: int|
                0 <= i < input.exclude_domains.len() ==> (#[trigger] input.exclude_domains[i]).len()
                    > 0 && trimmed(input.exclude_domains[i]) == input.exclude_domains[i]
        },
{
    if let Some(v) = member(args, "include_domains"@) {
        if let Some(items) = items_of(v) {
            lemma_trimmed_texts(items);
        }
    }
    if let Some(v) = member(args, "exclude_domains"@) {
        if let Some(items) = items_of(v) {
            lemma_trimmed_texts(items);
        }
    }
}

/// Listed texts are trimmed and not blank.
proof fn lemma_trimmed_texts(items: Seq<JsonView>)
    ensures
        forall|i: int|
            0 <= i < trimmed_texts(items).len() ==> (#[trigger] trimmed_texts(items)[i]).len() > 0
                && trimmed(trimmed_texts(items)[i]) == trimmed_texts(items)[i],
    decreases items.len(),
{
    if items.len() > 0 {
        lemma_trimmed_texts(items.drop_last());
        if let Some(s) = text_of(items.last()) {
            crate::text::lemma_trimmed_twice(s);
        }
        let front = trimmed_texts(items.drop_last());
        let all = trimmed_texts(items);
        assert forall|i: int| 0 <= i < all.len() implies (#[trigger] all[i]).len() > 0 && trimmed(
            all[i],
        ) == all[i] by {
            if i < front.len() {
                assert(all[i] == front[i]);
            }
        }
    }
}

/// A page that `web_map` reports has an address and a provider, and nothing else.
pub proof fn law_mapped_source_has_no_metadata(
    url: Seq<char>,
    provider: Seq<char>,
    key: Seq<char>,
)
    ensures
        member(mapped_source(url, provider), "url"@) == Some(JsonView::Text(url)),
        member(mapped_source(url, provider), "provider"@) == Some(JsonView::Text(provider)),
        key != "url"@ && key != "provider"@ ==> member(mapped_source(url, provider), key) is None,
{
    reveal_strlit("url");
    reveal_strlit("provider");
    assert("url"@.len() == 3 && "provider"@.len() == 8);
}

} // verus!
