use crate::config::parse_reasoning_effort;
use crate::json::{member, JsonView};
use crate::model::search::{
    in_fast_mode, ContentBlock, SearchFilters, SearchMessage, SearchRequest, SearchTool,
};
use crate::model::tool::WebSearchInput;
use crate::text::{ascii_lowered, trimmed};
use vstd::prelude::*;

verus! {

/// The text of an owned text that may be missing.
pub open spec fn text_in(value: Option<String>) -> Option<Seq<char>> {
    if value is Some {
        Some((value->0)@)
    } else {
        None
    }
}

/// The view of a request is the request, field by field.
pub proof fn law_view_of_request(req: SearchRequest)
    ensures
        req@.model == req.model@,
        req@.system == text_in(req.system),
        req@.reasoning_effort == text_in(req.reasoning_effort),
        req@.fast == req.fast,
        req@.messages.len() == req.messages@.len(),
        forall|i: int| 0 <= i < req.messages@.len() ==> #[trigger] req@.messages[i] == req.messages@[i]@,
        req@.tools.len() == req.tools@.len(),
        forall|i: int| 0 <= i < req.tools@.len() ==> #[trigger] req@.tools[i] == req.tools@[i]@,
{
}

/// The views of the parts of a request are the parts.
pub proof fn law_view_of_parts(message: SearchMessage, tool: SearchTool, text: String)
    ensures
        message@.role == message.role@,
        message@.content.len() == message.content@.len(),
        forall|i: int|
            0 <= i < message.content@.len() ==> #[trigger] message@.content[i]
                == message.content@[i]->text@,
        tool@.name == tool.name@,
        tool@.input_schema == tool.input_schema@,
        (ContentBlock::Text { text })@ == text@,
{
}

/// The view of a search input is the input, field by field.
pub proof fn law_view_of_search_input(input: WebSearchInput)
    ensures
        input@.query == input.query@,
        input@.platform == text_in(input.platform),
        input@.model == text_in(input.model),
        input@.extra_sources == input.extra_sources,
        input@.recency_days == input.recency_days,
        input@.include_domains.len() == input.include_domains@.len(),
        forall|i: int|
            0 <= i < input.include_domains@.len() ==> #[trigger] input@.include_domains[i]
                == input.include_domains@[i]@,
        input@.exclude_domains.len() == input.exclude_domains@.len(),
        forall|i: int|
            0 <= i < input.exclude_domains@.len() ==> #[trigger] input@.exclude_domains[i]
                == input.exclude_domains@[i]@,
        input@.include_content == input.include_content,
        input@.response_format == text_in(input.response_format),
        input@.reasoning_effort == text_in(input.reasoning_effort),
        input@.fast == input.fast,
{
}

/// A block that is made of a text gives that text.
pub proof fn law_block_gives_its_text(text: &str, block: ContentBlock, r: &str)
    requires
        call_ensures(ContentBlock::text, (text,), block),
        call_ensures(ContentBlock::as_text, (&block,), r),
    ensures
        r@ == text@,
        block->text@ == text@,
{
}

/// Fast mode pins the fast channel's model, drops the effort, and leaves the conversation and
/// the tools alone.
pub proof fn law_fast_mode(req: SearchRequest)
    ensures
        in_fast_mode(req@).model == "grok-chat-fast"@,
        in_fast_mode(req@).reasoning_effort is None,
        in_fast_mode(req@).fast,
        in_fast_mode(req@).system == text_in(req.system),
        in_fast_mode(req@).messages == req@.messages,
        in_fast_mode(req@).tools == req@.tools,
{
}

/// `apply_fast_mode` pins a request to fast mode and leaves the rest of it alone.
pub proof fn law_apply_fast_mode()
    ensures
        forall|req: &mut SearchRequest| #[trigger]
            call_ensures(SearchRequest::apply_fast_mode, (req,), ()) ==> {
                &&& (*final(req)).model@ == "grok-chat-fast"@
                &&& (*final(req)).reasoning_effort is None
                &&& (*final(req)).fast
                &&& (*final(req)).system == (*req).system
                &&& (*final(req)).messages == (*req).messages
                &&& (*final(req)).tools == (*req).tools
            },
{
}

/// The tool that asks for a search is named `web_search` and takes an object without
/// properties.
pub proof fn law_web_search_tool(r: SearchTool)
    requires
        call_ensures(SearchTool::web_search, (), r),
    ensures
        r.name@ == "web_search"@,
        member(r.input_schema@, "type"@) == Some(JsonView::Text("object"@)),
        member(r.input_schema@, "properties"@) matches Some(JsonView::Object(none))
            && none.dom().is_empty(),
        forall|k: Seq<char>| #[trigger]
            member(r.input_schema@, k) is Some ==> k == "type"@ || k == "properties"@,
{
    reveal_strlit("type");
    reveal_strlit("properties");
    assert("type"@.len() == 4 && "properties"@.len() == 10);
}

/// Filters let everything through where they set neither days nor domains, as they do when
/// nothing is set.
pub proof fn law_filters(filters: SearchFilters, r: bool)
    requires
        call_ensures(SearchFilters::is_empty, (&filters,), r),
    ensures
        filters.recency_days is Some ==> !r,
        filters.include_domains@.len() > 0 ==> !r,
        filters.exclude_domains@.len() > 0 ==> !r,
        filters.recency_days is None && filters.include_domains@.len() == 0
            && filters.exclude_domains@.len() == 0 ==> r,
{
}

/// Filters on which nothing was set let everything through.
pub proof fn law_default_filters(filters: SearchFilters, r: bool)
    requires
        call_ensures(SearchFilters::default, (), filters),
        call_ensures(SearchFilters::is_empty, (&filters,), r),
    ensures
        r,
{
}

/// A text names the effort that it is, in lower case and without the white space around it,
/// where that is `low`, `medium`, `high` or `xhigh`, and otherwise none.
pub proof fn law_effort_is_named(value: &str, r: Option<String>)
    requires
        call_ensures(parse_reasoning_effort, (value,), r),
    ensures
        ({
            let level = ascii_lowered(trimmed(value@));
            &&& r is Some <==> level == "low"@ || level == "medium"@ || level == "high"@ || level
                == "xhigh"@
            &&& r is Some ==> (r->0)@ == level
        }),
{
    let levels = crate::config::effort_levels();
    assert(levels[0] == "low"@ && levels[1] == "medium"@ && levels[2] == "high"@ && levels[3]
        == "xhigh"@);
}

} // verus!
