use crate::json::{integer_view, views, Json, JsonMap, JsonView};
use vstd::prelude::*;

verus! {

pub const EXTRA_SOURCES_DESCRIPTION: &'static str = "Optional supplemental source count, served by the configured source chain (default order: Tavily, then Exa, TinyFish, Firecrawl — first provider with results wins; GROK_SEARCH_SOURCE_PROVIDERS overrides). If omitted, GROK_SEARCH_EXTRA_SOURCES is used.";

pub const RECENCY_DAYS_DESCRIPTION: &'static str = "Restrict supplemental results to sources published within the last N days. Honored natively by Tavily (days+topic=news), Exa (startPublishedDate), and TinyFish (recency window); providers that cannot honor filters (Firecrawl) are skipped for filtered requests. Also hinted to Grok prompt.";

pub const INCLUDE_DOMAINS_DESCRIPTION: &'static str = "Only return supplemental results from these domains. Tavily/Exa/TinyFish honor strictly via native domain parameters; filter-blind providers are skipped. Grok receives as soft preference.";

pub const EXCLUDE_DOMAINS_DESCRIPTION: &'static str = "Suppress supplemental results from these domains. Tavily/Exa/TinyFish honor strictly via native domain parameters; filter-blind providers are skipped. Grok receives as soft instruction.";

pub const INCLUDE_CONTENT_DESCRIPTION: &'static str = "Inline source content via the resolve_content pipeline. Default true. Pass false to get summary + source-list only (legacy behavior, no content field in sources). Superseded by response_format when both are set.";

pub const RESPONSE_FORMAT_DESCRIPTION: &'static str = "concise = synthesized answer + source metadata only (smallest payload); detailed = inline source content, subject to the response budget. Takes precedence over include_content.";

pub const REASONING_EFFORT_DESCRIPTION: &'static str = "Per-call reasoning intensity for the Grok / OpenAI-compatible upstream. This tool is a powerful multi-agent deep search; higher effort scales agent count and latency, not answer length. low — simple fact lookup and known-part / official-page checks (enough for most lookups). medium — ordinary multi-source retrieval. high — comparisons, conflicting specs, multi-step research. xhigh — maximum multi-agent scale (e.g. grok-4.20-multi-agent). When omitted, uses the server default (GROK_SEARCH_REASONING_EFFORT / X-Grok-Reasoning-Effort).";

pub const WEB_SEARCH_DESCRIPTION: &'static str = "DEFAULT search. Fast Web channel (grok-chat-fast). Prefer this over web_search_standard for ordinary lookups, current facts, news, and discovery when you don't have a specific URL. Returns an AI-synthesised answer plus a source list. By default the first few sources carry inline content (max_inline_sources, default 5); the rest are metadata-only — drill into any of them with web_fetch(url). The whole response is capped by a character budget; when truncated=true, trimmed sources carry a note telling you how to recover the full text via web_fetch or get_sources. Pass response_format=\"concise\" for answer + source metadata only. If you already know the exact page URL, use web_fetch instead. Does not take reasoning_effort (Web fast ignores it) and does not send x_search (Web already searches natively).";

pub const WEB_SEARCH_STANDARD_DESCRIPTION: &'static str = "Standard/deep Console multi-agent search. Prefer web_search for ordinary lookups. Use this only when fast is not enough: comparisons, contradictions, multi-step research, or when you need X/Twitter search. Use for discovery when you don't have a specific URL. Returns an AI-synthesised answer plus a source list. By default the first few sources carry inline content (max_inline_sources, default 5); the rest are metadata-only — drill into any of them with web_fetch(url). The whole response is capped by a character budget; when truncated=true, trimmed sources carry a note telling you how to recover the full text via web_fetch or get_sources. Pass response_format=\"concise\" for answer + source metadata only. If you already know the exact page URL, use web_fetch instead. Set reasoning_effort: simple fact lookup → low (enough); comparisons / contradictions / multi-source research → high or xhigh. Omit to use the server default.";

pub const GET_SOURCES_DESCRIPTION: &'static str = "Return cached sources from a previous web_search call by session_id. Use to re-examine sources already retrieved without issuing a new search — it reuses the prior session and runs no new search or fetch. Paginate with offset/limit: the response reports total_sources and, when more pages remain, next_offset to pass as the next offset.";

pub const OFFSET_DESCRIPTION: &'static str = "Index of the first source to return. Use next_offset from the previous page to continue.";

pub const LIMIT_DESCRIPTION: &'static str = "Max sources in this page. Omit to return all remaining sources (still subject to the response budget).";

pub const WEB_FETCH_DESCRIPTION: &'static str = "Use when you already have a specific URL and want to read a single page in depth. GitHub issue/PR, StackOverflow (StackExchange), arXiv, and Wikipedia URLs are automatically parsed into structured, de-noised Markdown ready to feed an LLM; all other pages fall back to generic extraction. Hard 60s timeout for the whole call (independent of GROK_SEARCH_TIMEOUT_SECONDS). Returns {url, content, original_length, truncated, source_type, fallback_reason?}. If you don't have a URL yet and need to discover sources, use web_search instead.";

pub const MAX_CHARS_DESCRIPTION: &'static str = "Optional character cap on returned content. Falls back to GROK_SEARCH_FETCH_MAX_CHARS, otherwise unlimited.";

pub const WEB_MAP_DESCRIPTION: &'static str = "Map/discover URLs through Tavily Map.";

pub const DOCTOR_DESCRIPTION: &'static str = "Diagnostic probe: live connectivity check for the Grok backend and every configured source provider (Tavily / Exa / TinyFish / Firecrawl), plus the effective source chain and masked configuration. Use to verify the server is wired up and reachable.";

/// The texts of a run as JSON.
pub open spec fn text_items(texts: Seq<Seq<char>>) -> Seq<JsonView> {
    texts.map_values(|s: Seq<char>| JsonView::Text(s))
}

/// The schema of a value of a kind, without more.
pub open spec fn kind_schema(kind: Seq<char>) -> Map<Seq<char>, JsonView> {
    Map::empty().insert("type"@, JsonView::Text(kind))
}

/// The schema of an integer from `minimum` up.
pub open spec fn integer_schema(minimum: u64) -> Map<Seq<char>, JsonView> {
    kind_schema("integer"@).insert("minimum"@, integer_view(minimum as int))
}

/// A schema with a description.
pub open spec fn described(schema: Map<Seq<char>, JsonView>, description: Seq<char>) -> JsonView {
    JsonView::Object(schema.insert("description"@, JsonView::Text(description)))
}

/// The schema of a list of texts.
pub open spec fn text_list_schema() -> Map<Seq<char>, JsonView> {
    kind_schema("array"@).insert("items"@, JsonView::Object(kind_schema("string"@)))
}

/// The schema of one text out of a few.
pub open spec fn choice_schema(choices: Seq<Seq<char>>) -> Map<Seq<char>, JsonView> {
    kind_schema("string"@).insert("enum"@, JsonView::Array(text_items(choices)))
}

/// The schema of an object with a required property.
pub open spec fn object_schema(
    required: Seq<char>,
    properties: Map<Seq<char>, JsonView>,
) -> JsonView {
    JsonView::Object(
        kind_schema("object"@).insert("required"@, JsonView::Array(text_items(seq![required]))).insert(
            "properties"@,
            JsonView::Object(properties),
        ),
    )
}

/// The properties that the search tools take: those of the standard tool have a reasoning
/// effort among them.
pub open spec fn search_properties(with_reasoning_effort: bool) -> Map<Seq<char>, JsonView> {
    let shared = Map::empty().insert("query"@, JsonView::Object(kind_schema("string"@))).insert(
        "extra_sources"@,
        described(integer_schema(0), EXTRA_SOURCES_DESCRIPTION@),
    ).insert("recency_days"@, described(integer_schema(1), RECENCY_DAYS_DESCRIPTION@)).insert(
        "include_domains"@,
        described(text_list_schema(), INCLUDE_DOMAINS_DESCRIPTION@),
    ).insert("exclude_domains"@, described(text_list_schema(), EXCLUDE_DOMAINS_DESCRIPTION@)).insert(
        "include_content"@,
        described(
            kind_schema("boolean"@).insert("default"@, JsonView::Bool(true)),
            INCLUDE_CONTENT_DESCRIPTION@,
        ),
    ).insert(
        "response_format"@,
        described(choice_schema(seq!["concise"@, "detailed"@]), RESPONSE_FORMAT_DESCRIPTION@),
    );
    if with_reasoning_effort {
        shared.insert(
            "reasoning_effort"@,
            described(
                choice_schema(crate::config::effort_levels()),
                REASONING_EFFORT_DESCRIPTION@,
            ),
        )
    } else {
        shared
    }
}

/// The properties that `get_sources` takes.
pub open spec fn get_sources_properties() -> Map<Seq<char>, JsonView> {
    Map::empty().insert("session_id"@, JsonView::Object(kind_schema("string"@))).insert(
        "offset"@,
        described(
            integer_schema(0).insert("default"@, integer_view(0)),
            OFFSET_DESCRIPTION@,
        ),
    ).insert("limit"@, described(integer_schema(1), LIMIT_DESCRIPTION@))
}

/// The properties that `web_fetch` takes.
pub open spec fn web_fetch_properties() -> Map<Seq<char>, JsonView> {
    Map::empty().insert("url"@, JsonView::Object(kind_schema("string"@))).insert(
        "max_chars"@,
        described(integer_schema(1), MAX_CHARS_DESCRIPTION@),
    )
}

/// The properties that `web_map` takes.
pub open spec fn web_map_properties() -> Map<Seq<char>, JsonView> {
    Map::empty().insert("url"@, JsonView::Object(kind_schema("string"@))).insert(
        "max_results"@,
        JsonView::Object(integer_schema(1)),
    )
}

/// A tool as the list shows it.
pub open spec fn tool_entry(
    name: Seq<char>,
    description: Seq<char>,
    input_schema: JsonView,
) -> JsonView {
    JsonView::Object(
        Map::empty().insert("name"@, JsonView::Text(name)).insert(
            "description"@,
            JsonView::Text(description),
        ).insert("inputSchema"@, input_schema),
    )
}

/// The tools, the default search first.
pub open spec fn tool_entries() -> Seq<JsonView> {
    seq![
        tool_entry(
            "web_search"@,
            WEB_SEARCH_DESCRIPTION@,
            object_schema("query"@, search_properties(false)),
        ),
        tool_entry(
            "web_search_standard"@,
            WEB_SEARCH_STANDARD_DESCRIPTION@,
            object_schema("query"@, search_properties(true)),
        ),
        tool_entry(
            "get_sources"@,
            GET_SOURCES_DESCRIPTION@,
            object_schema("session_id"@, get_sources_properties()),
        ),
        tool_entry(
            "web_fetch"@,
            WEB_FETCH_DESCRIPTION@,
            object_schema("url"@, web_fetch_properties()),
        ),
        tool_entry("web_map"@, WEB_MAP_DESCRIPTION@, object_schema("url"@, web_map_properties())),
        tool_entry(
            "doctor"@,
            DOCTOR_DESCRIPTION@,
            JsonView::Object(
                kind_schema("object"@).insert("properties"@, JsonView::Object(Map::empty())),
            ),
        ),
    ]
}

/// What a client that asks for the tools is told.
pub open spec fn tools_answer() -> JsonView {
    JsonView::Object(Map::empty().insert("tools"@, JsonView::Array(tool_entries())))
}

/// A list of texts.
fn text_array(texts: Vec<&str>) -> (r: Json)
    ensures
        r@ == JsonView::Array(text_items(texts@.map_values(|s: &str| s@))),
{
    let ghost all = texts@.map_values(|s: &str| s@);
    let mut items: Vec<Json> = Vec::new();
    let n: usize = texts.len();
    for i in 0..n
        invariant
            n == texts@.len(),
            all == texts@.map_values(|s: &str| s@),
            views(items@) == text_items(all.take(i as int)),
    {
        let ghost before = items@;
        items.push(Json::text(texts[i]));
        assert(views(items@) =~= views(before).push(JsonView::Text(all[i as int])));
        assert(text_items(all.take(i + 1)) =~= text_items(all.take(i as int)).push(
            JsonView::Text(all[i as int]),
        ));
    }
    assert(all.take(n as int) =~= all);
    Json::array(items)
}

/// The schema of a value of a kind, without more.
fn of_kind(kind: &str) -> (r: JsonMap)
    ensures
        r@ == kind_schema(kind@),
{
    JsonMap::new().with("type", Json::text(kind))
}

/// The schema of an integer from `minimum` up.
fn integer_from(minimum: u64) -> (r: JsonMap)
    ensures
        r@ == integer_schema(minimum),
{
    of_kind("integer").with("minimum", Json::unsigned(minimum))
}

/// A schema with a description.
fn describe(schema: JsonMap, description: &str) -> (r: Json)
    ensures
        r@ == described(schema@, description@),
{
    Json::object(schema.with("description", Json::text(description)))
}

/// The schema of a list of texts.
fn text_list() -> (r: JsonMap)
    ensures
        r@ == text_list_schema(),
{
    of_kind("array").with("items", Json::object(of_kind("string")))
}

/// The schema of an object with a required property.
fn object_with(required: &str, properties: JsonMap) -> (r: Json)
    ensures
        r@ == object_schema(required@, properties@),
{
    let list = vec![required];
    assert(list@.map_values(|s: &str| s@) =~= seq![required@]);
    Json::object(
        of_kind("object").with("required", text_array(list)).with(
            "properties",
            Json::object(properties),
        ),
    )
}

/// A tool as the list shows it.
fn entry(name: &str, description: &str, input_schema: Json) -> (r: Json)
    ensures
        r@ == tool_entry(name@, description@, input_schema@),
{
    Json::object(
        JsonMap::new().with("name", Json::text(name)).with(
            "description",
            Json::text(description),
        ).with("inputSchema", input_schema),
    )
}

/// What the search tools take.
pub fn search_input_schema(include_reasoning_effort: bool) -> (r: Json)
    ensures
        r@ == object_schema("query"@, search_properties(include_reasoning_effort)),
{
    let formats = vec!["concise", "detailed"];
    assert(formats@.map_values(|s: &str| s@) =~= seq!["concise"@, "detailed"@]);
    let mut properties = JsonMap::new().with("query", Json::object(of_kind("string"))).with(
        "extra_sources",
        describe(integer_from(0), EXTRA_SOURCES_DESCRIPTION),
    ).with("recency_days", describe(integer_from(1), RECENCY_DAYS_DESCRIPTION)).with(
        "include_domains",
        describe(text_list(), INCLUDE_DOMAINS_DESCRIPTION),
    ).with("exclude_domains", describe(text_list(), EXCLUDE_DOMAINS_DESCRIPTION)).with(
        "include_content",
        describe(
            of_kind("boolean").with("default", Json::Bool(true)),
            INCLUDE_CONTENT_DESCRIPTION,
        ),
    ).with(
        "response_format",
        describe(
            of_kind("string").with("enum", text_array(formats)),
            RESPONSE_FORMAT_DESCRIPTION,
        ),
    );
    if include_reasoning_effort {
        let levels = vec!["low", "medium", "high", "xhigh"];
        assert(levels@.map_values(|s: &str| s@) =~= crate::config::effort_levels());
        properties =
        properties.with(
            "reasoning_effort",
            describe(
                of_kind("string").with("enum", text_array(levels)),
                REASONING_EFFORT_DESCRIPTION,
            ),
        );
    }
    object_with("query", properties)
}

/// What a client that asks for the tools is told.
pub fn tools_list() -> (r: Json)
    ensures
        r@ == tools_answer(),
{
    let mut tools: Vec<Json> = Vec::new();
    tools.push(entry("web_search", WEB_SEARCH_DESCRIPTION, search_input_schema(false)));
    tools.push(
        entry("web_search_standard", WEB_SEARCH_STANDARD_DESCRIPTION, search_input_schema(true)),
    );
    let get_sources = JsonMap::new().with("session_id", Json::object(of_kind("string"))).with(
        "offset",
        describe(
            integer_from(0).with("default", Json::unsigned(0)),
            OFFSET_DESCRIPTION,
        ),
    ).with("limit", describe(integer_from(1), LIMIT_DESCRIPTION));
    tools.push(
        entry("get_sources", GET_SOURCES_DESCRIPTION, object_with("session_id", get_sources)),
    );
    let web_fetch = JsonMap::new().with("url", Json::object(of_kind("string"))).with(
        "max_chars",
        describe(integer_from(1), MAX_CHARS_DESCRIPTION),
    );
    tools.push(entry("web_fetch", WEB_FETCH_DESCRIPTION, object_with("url", web_fetch)));
    let web_map = JsonMap::new().with("url", Json::object(of_kind("string"))).with(
        "max_results",
        Json::object(integer_from(1)),
    );
    tools.push(entry("web_map", WEB_MAP_DESCRIPTION, object_with("url", web_map)));
    let doctor = of_kind("object").with("properties", Json::object(JsonMap::new()));
    tools.push(entry("doctor", DOCTOR_DESCRIPTION, Json::object(doctor)));
    assert(views(tools@) =~= tool_entries());
    Json::object(JsonMap::new().with("tools", Json::array(tools)))
}

/// Neither search tool offers a model, a platform or a channel; both offer a query and a
/// response format; only the standard one offers a reasoning effort.
pub proof fn law_search_schema_hides_the_operators_choice(with_reasoning_effort: bool)
    ensures
        !search_properties(with_reasoning_effort).contains_key("model"@),
        !search_properties(with_reasoning_effort).contains_key("platform"@),
        !search_properties(with_reasoning_effort).contains_key("fast"@),
        search_properties(with_reasoning_effort).contains_key("query"@),
        search_properties(with_reasoning_effort).contains_key("response_format"@),
        search_properties(with_reasoning_effort).contains_key("reasoning_effort"@)
            == with_reasoning_effort,
{
    reveal_strlit("model");
    reveal_strlit("platform");
    reveal_strlit("fast");
    reveal_strlit("query");
    reveal_strlit("extra_sources");
    reveal_strlit("recency_days");
    reveal_strlit("include_domains");
    reveal_strlit("exclude_domains");
    reveal_strlit("include_content");
    reveal_strlit("response_format");
    reveal_strlit("reasoning_effort");
    assert("model"@.len() == 5 && "platform"@.len() == 8 && "fast"@.len() == 4);
    assert("query"@.len() == 5 && "query"@[0] == 'q' && "model"@[0] == 'm');
    assert("extra_sources"@.len() == 13 && "recency_days"@.len() == 12);
    assert("include_domains"@.len() == 15 && "exclude_domains"@.len() == 15);
    assert("include_content"@.len() == 15 && "response_format"@.len() == 15);
    assert("reasoning_effort"@.len() == 16);
}

} // verus!
