use crate::json::{member, Json, JsonView, NumberView};
use crate::mcp::tools::{
    search_input_schema, text_items, tools_list,
    DOCTOR_DESCRIPTION, EXCLUDE_DOMAINS_DESCRIPTION, EXTRA_SOURCES_DESCRIPTION,
    GET_SOURCES_DESCRIPTION, INCLUDE_CONTENT_DESCRIPTION, INCLUDE_DOMAINS_DESCRIPTION,
    LIMIT_DESCRIPTION, MAX_CHARS_DESCRIPTION, OFFSET_DESCRIPTION, REASONING_EFFORT_DESCRIPTION,
    RECENCY_DAYS_DESCRIPTION, RESPONSE_FORMAT_DESCRIPTION, WEB_FETCH_DESCRIPTION,
    WEB_MAP_DESCRIPTION, WEB_SEARCH_DESCRIPTION, WEB_SEARCH_STANDARD_DESCRIPTION,
};
use vstd::prelude::*;

verus! {

/// The member of a value is this text.
pub open spec fn says(value: JsonView, key: Seq<char>, text: Seq<char>) -> bool {
    member(value, key) == Some(JsonView::Text(text))
}

/// The member of a value is this integer.
pub open spec fn counts(value: JsonView, key: Seq<char>, n: int) -> bool {
    member(value, key) == Some(JsonView::Number(NumberView::Integer(n)))
}

/// The schema of any value of a kind, and no more.
pub open spec fn is_bare(schema: JsonView, kind: Seq<char>) -> bool {
    &&& says(schema, "type"@, kind)
    &&& forall|k: Seq<char>| #[trigger] member(schema, k) is Some ==> k == "type"@
}

/// The schema of an integer from `minimum` up, with a description.
pub open spec fn is_count(schema: JsonView, minimum: int, description: Seq<char>) -> bool {
    &&& says(schema, "type"@, "integer"@)
    &&& counts(schema, "minimum"@, minimum)
    &&& says(schema, "description"@, description)
    &&& forall|k: Seq<char>| #[trigger]
        member(schema, k) is Some ==> k == "type"@ || k == "minimum"@ || k == "description"@
}

/// The schema of a list of texts, with a description.
pub open spec fn is_text_list(schema: JsonView, description: Seq<char>) -> bool {
    &&& says(schema, "type"@, "array"@)
    &&& member(schema, "items"@) matches Some(items)
    &&& is_bare(items, "string"@)
    &&& says(schema, "description"@, description)
    &&& forall|k: Seq<char>| #[trigger]
        member(schema, k) is Some ==> k == "type"@ || k == "items"@ || k == "description"@
}

/// The schema of a text that is one of a few, with a description.
pub open spec fn is_choice(
    schema: JsonView,
    choices: Seq<JsonView>,
    description: Seq<char>,
) -> bool {
    &&& says(schema, "type"@, "string"@)
    &&& member(schema, "enum"@) == Some(JsonView::Array(choices))
    &&& says(schema, "description"@, description)
    &&& forall|k: Seq<char>| #[trigger]
        member(schema, k) is Some ==> k == "type"@ || k == "enum"@ || k == "description"@
}

/// The schema of an object in which one property is required.
pub open spec fn requires_property(schema: JsonView, required: Seq<char>) -> bool {
    &&& says(schema, "type"@, "object"@)
    &&& member(schema, "required"@) == Some(JsonView::Array(seq![JsonView::Text(required)]))
    &&& member(schema, "properties"@) is Some
    &&& forall|k: Seq<char>| #[trigger]
        member(schema, k) is Some ==> k == "type"@ || k == "required"@ || k == "properties"@
}

/// The schema of a property.
pub open spec fn property(schema: JsonView, name: Seq<char>) -> JsonView {
    member(member(schema, "properties"@)->0, name)->0
}

/// The object has a property of this name.
pub open spec fn has_property(schema: JsonView, name: Seq<char>) -> bool {
    member(member(schema, "properties"@)->0, name) is Some
}

/// The words of schemas differ from each other where they stand in one object.
proof fn lemma_schema_words()
    ensures
        "type"@ != "minimum"@,
        "type"@ != "description"@,
        "type"@ != "items"@,
        "type"@ != "enum"@,
        "type"@ != "default"@,
        "type"@ != "required"@,
        "type"@ != "properties"@,
        "minimum"@ != "description"@,
        "minimum"@ != "default"@,
        "items"@ != "description"@,
        "enum"@ != "description"@,
        "default"@ != "description"@,
        "required"@ != "properties"@,
        "name"@ != "description"@,
        "name"@ != "inputSchema"@,
        "description"@ != "inputSchema"@,
{
    reveal_strlit("type");
    reveal_strlit("minimum");
    reveal_strlit("description");
    reveal_strlit("items");
    reveal_strlit("enum");
    reveal_strlit("default");
    reveal_strlit("required");
    reveal_strlit("properties");
    reveal_strlit("name");
    reveal_strlit("inputSchema");
    assert("type"@.len() == 4 && "minimum"@.len() == 7 && "description"@.len() == 11);
    assert("items"@.len() == 5 && "enum"@.len() == 4 && "default"@.len() == 7);
    assert("required"@.len() == 8 && "properties"@.len() == 10 && "name"@.len() == 4);
    assert("inputSchema"@.len() == 11 && "inputSchema"@[0] == 'i' && "description"@[0] == 'd');
    assert("type"@[0] == 't' && "enum"@[0] == 'e');
    assert("minimum"@[0] == 'm' && "default"@[0] == 'd');
}

/// The names of the properties differ from each other where they stand in one object.
proof fn lemma_property_names()
    ensures
        "query"@ != "extra_sources"@,
        "query"@ != "recency_days"@,
        "query"@ != "include_domains"@,
        "query"@ != "exclude_domains"@,
        "query"@ != "include_content"@,
        "query"@ != "response_format"@,
        "query"@ != "reasoning_effort"@,
        "extra_sources"@ != "recency_days"@,
        "extra_sources"@ != "include_domains"@,
        "extra_sources"@ != "exclude_domains"@,
        "extra_sources"@ != "include_content"@,
        "extra_sources"@ != "response_format"@,
        "extra_sources"@ != "reasoning_effort"@,
        "recency_days"@ != "include_domains"@,
        "recency_days"@ != "exclude_domains"@,
        "recency_days"@ != "include_content"@,
        "recency_days"@ != "response_format"@,
        "recency_days"@ != "reasoning_effort"@,
        "include_domains"@ != "exclude_domains"@,
        "include_domains"@ != "include_content"@,
        "include_domains"@ != "response_format"@,
        "include_domains"@ != "reasoning_effort"@,
        "exclude_domains"@ != "include_content"@,
        "exclude_domains"@ != "response_format"@,
        "exclude_domains"@ != "reasoning_effort"@,
        "include_content"@ != "response_format"@,
        "include_content"@ != "reasoning_effort"@,
        "response_format"@ != "reasoning_effort"@,
        "session_id"@ != "offset"@,
        "session_id"@ != "limit"@,
        "offset"@ != "limit"@,
        "url"@ != "max_chars"@,
        "url"@ != "max_results"@,
{
    reveal_strlit("query");
    reveal_strlit("extra_sources");
    reveal_strlit("recency_days");
    reveal_strlit("include_domains");
    reveal_strlit("exclude_domains");
    reveal_strlit("include_content");
    reveal_strlit("response_format");
    reveal_strlit("reasoning_effort");
    reveal_strlit("session_id");
    reveal_strlit("offset");
    reveal_strlit("limit");
    reveal_strlit("url");
    reveal_strlit("max_chars");
    reveal_strlit("max_results");
    assert("query"@.len() == 5 && "extra_sources"@.len() == 13 && "recency_days"@.len() == 12);
    assert("include_domains"@.len() == 15 && "exclude_domains"@.len() == 15);
    assert("include_content"@.len() == 15 && "response_format"@.len() == 15);
    assert("reasoning_effort"@.len() == 16);
    assert("include_domains"@[0] == 'i' && "exclude_domains"@[0] == 'e');
    assert("include_content"@[0] == 'i' && "response_format"@[0] == 'r');
    assert("include_domains"@[8] == 'd' && "include_content"@[8] == 'c');
    assert("session_id"@.len() == 10 && "offset"@.len() == 6 && "limit"@.len() == 5);
    assert("url"@.len() == 3 && "max_chars"@.len() == 9 && "max_results"@.len() == 11);
}

/// A value is what the search tools take: a query, which is required, and how to search, each
/// of its kind; and a reasoning effort where there is one to choose.
pub open spec fn is_search_schema(schema: JsonView, with_reasoning_effort: bool) -> bool {
    &&& requires_property(schema, "query"@)
    &&& is_bare(property(schema, "query"@), "string"@)
    &&& is_count(property(schema, "extra_sources"@), 0, EXTRA_SOURCES_DESCRIPTION@)
    &&& is_count(property(schema, "recency_days"@), 1, RECENCY_DAYS_DESCRIPTION@)
    &&& is_text_list(property(schema, "include_domains"@), INCLUDE_DOMAINS_DESCRIPTION@)
    &&& is_text_list(property(schema, "exclude_domains"@), EXCLUDE_DOMAINS_DESCRIPTION@)
    &&& says(property(schema, "include_content"@), "type"@, "boolean"@)
    &&& member(property(schema, "include_content"@), "default"@) == Some(JsonView::Bool(true))
    &&& says(
        property(schema, "include_content"@),
        "description"@,
        INCLUDE_CONTENT_DESCRIPTION@,
    )
    &&& is_choice(
        property(schema, "response_format"@),
        seq![JsonView::Text("concise"@), JsonView::Text("detailed"@)],
        RESPONSE_FORMAT_DESCRIPTION@,
    )
    &&& with_reasoning_effort ==> is_choice(
        property(schema, "reasoning_effort"@),
        seq![
            JsonView::Text("low"@),
            JsonView::Text("medium"@),
            JsonView::Text("high"@),
            JsonView::Text("xhigh"@),
        ],
        REASONING_EFFORT_DESCRIPTION@,
    )
    &&& forall|k: Seq<char>| #[trigger]
        has_property(schema, k) <==> {
            ||| k == "query"@
            ||| k == "extra_sources"@
            ||| k == "recency_days"@
            ||| k == "include_domains"@
            ||| k == "exclude_domains"@
            ||| k == "include_content"@
            ||| k == "response_format"@
            ||| with_reasoning_effort && k == "reasoning_effort"@
        }
}

/// The lists of choices, item by item.
proof fn lemma_choices(required: Seq<char>)
    ensures
        text_items(seq![required]) == seq![JsonView::Text(required)],
        text_items(seq!["concise"@, "detailed"@]) == seq![
            JsonView::Text("concise"@),
            JsonView::Text("detailed"@),
        ],
        text_items(crate::config::effort_levels()) == seq![
            JsonView::Text("low"@),
            JsonView::Text("medium"@),
            JsonView::Text("high"@),
            JsonView::Text("xhigh"@),
        ],
{
    assert(text_items(seq![required]) =~= seq![JsonView::Text(required)]);
    assert(text_items(seq!["concise"@, "detailed"@]) =~= seq![
        JsonView::Text("concise"@),
        JsonView::Text("detailed"@),
    ]);
    assert(text_items(crate::config::effort_levels()) =~= seq![
        JsonView::Text("low"@),
        JsonView::Text("medium"@),
        JsonView::Text("high"@),
        JsonView::Text("xhigh"@),
    ]);
}

/// The search tools take what they say they take.
pub proof fn law_search_schema(with_reasoning_effort: bool, r: Json)
    requires
        call_ensures(search_input_schema, (with_reasoning_effort,), r),
    ensures
        is_search_schema(r@, with_reasoning_effort),
{
    lemma_schema_words();
    lemma_property_names();
    lemma_choices("query"@);
}

/// A value lists a tool under a name, with a description.
pub open spec fn is_tool_entry(
    value: JsonView,
    name: Seq<char>,
    description: Seq<char>,
) -> bool {
    &&& says(value, "name"@, name)
    &&& says(value, "description"@, description)
    &&& member(value, "inputSchema"@) is Some
    &&& forall|k: Seq<char>| #[trigger]
        member(value, k) is Some ==> k == "name"@ || k == "description"@ || k == "inputSchema"@
}

/// What a listed tool takes.
pub open spec fn input_schema(value: JsonView) -> JsonView {
    member(value, "inputSchema"@)->0
}

/// The tools that a value lists.
pub open spec fn tools_in(value: JsonView) -> Seq<JsonView> {
    member(value, "tools"@)->0->Array_0
}

/// The tools are listed in order, the default search first: each with its name, its
/// description and what it takes.
pub proof fn law_tools_list(r: Json)
    requires
        call_ensures(tools_list, (), r),
    ensures
        member(r@, "tools"@) matches Some(JsonView::Array(tools)) && {
            &&& tools.len() == 6
            &&& is_tool_entry(tools[0], "web_search"@, WEB_SEARCH_DESCRIPTION@)
            &&& is_search_schema(input_schema(tools[0]), false)
            &&& is_tool_entry(tools[1], "web_search_standard"@, WEB_SEARCH_STANDARD_DESCRIPTION@)
            &&& is_search_schema(input_schema(tools[1]), true)
            &&& is_tool_entry(tools[2], "get_sources"@, GET_SOURCES_DESCRIPTION@)
            &&& is_tool_entry(tools[3], "web_fetch"@, WEB_FETCH_DESCRIPTION@)
            &&& is_tool_entry(tools[4], "web_map"@, WEB_MAP_DESCRIPTION@)
            &&& is_tool_entry(tools[5], "doctor"@, DOCTOR_DESCRIPTION@)
        },
        forall|k: Seq<char>| #[trigger] member(r@, k) is Some ==> k == "tools"@,
{
    lemma_schema_words();
    lemma_property_names();
    lemma_choices("query"@);
}

/// `get_sources` takes a session, which is required, an offset from zero up, zero by default,
/// and a limit from one up.
pub proof fn law_get_sources_schema(r: Json)
    requires
        call_ensures(tools_list, (), r),
    ensures
        ({
            let schema = input_schema(tools_in(r@)[2]);
            &&& requires_property(schema, "session_id"@)
            &&& is_bare(property(schema, "session_id"@), "string"@)
            &&& says(property(schema, "offset"@), "type"@, "integer"@)
            &&& counts(property(schema, "offset"@), "minimum"@, 0)
            &&& counts(property(schema, "offset"@), "default"@, 0)
            &&& says(property(schema, "offset"@), "description"@, OFFSET_DESCRIPTION@)
            &&& is_count(property(schema, "limit"@), 1, LIMIT_DESCRIPTION@)
            &&& forall|k: Seq<char>| #[trigger]
                has_property(schema, k) <==> k == "session_id"@ || k == "offset"@ || k == "limit"@
        }),
{
    lemma_schema_words();
    lemma_property_names();
    lemma_choices("session_id"@);
}

/// `web_fetch` takes an address, which is required, and a number of characters from one up;
/// `web_map` takes an address, which is required, and a number of pages from one up; `doctor`
/// takes nothing.
pub proof fn law_other_schemas(r: Json)
    requires
        call_ensures(tools_list, (), r),
    ensures
        ({
            let fetch = input_schema(tools_in(r@)[3]);
            let map = input_schema(tools_in(r@)[4]);
            let doctor = input_schema(tools_in(r@)[5]);
            &&& requires_property(fetch, "url"@)
            &&& is_bare(property(fetch, "url"@), "string"@)
            &&& is_count(property(fetch, "max_chars"@), 1, MAX_CHARS_DESCRIPTION@)
            &&& forall|k: Seq<char>| #[trigger]
                has_property(fetch, k) <==> k == "url"@ || k == "max_chars"@
            &&& requires_property(map, "url"@)
            &&& is_bare(property(map, "url"@), "string"@)
            &&& says(property(map, "max_results"@), "type"@, "integer"@)
            &&& counts(property(map, "max_results"@), "minimum"@, 1)
            &&& forall|k: Seq<char>| #[trigger]
                has_property(map, k) <==> k == "url"@ || k == "max_results"@
            &&& says(doctor, "type"@, "object"@)
            &&& member(doctor, "required"@) is None
            &&& member(doctor, "properties"@) matches Some(JsonView::Object(none))
            &&& none.dom().is_empty()
        }),
{
    lemma_schema_words();
    lemma_property_names();
    lemma_choices("url"@);
}

} // verus!
