use crate::error::{ErrorView, GrokSearchError, Result};
use crate::json::{member, opt_view, text_member, unsigned_member, Json, JsonView, NumberView};
use crate::mcp::calls::{
    call_tool, parse_string_array, parse_web_search_input, same_result, serialize_failure,
    string_array, tool_call, trimmed_texts, web_map_result, ToolCall, ToolCallView,
};
use crate::model::laws::text_in;
use crate::model::source::Source;
use crate::model::tool::WebSearchInput;
use crate::text::{ascii_lowered, trimmed};
use crate::text_laws::{blank, law_trimmed};
use vstd::prelude::*;

verus! {

/// A result stands for exactly the value or the error that is expected.
pub proof fn law_results_are_told_apart<T: View>(
    value: T,
    err: GrokSearchError,
    expected: std::result::Result<T::V, ErrorView>,
)
    ensures
        same_result(Ok::<T, GrokSearchError>(value), expected) <==> expected is Ok
            && expected->Ok_0 == value@,
        same_result(Err::<T, GrokSearchError>(err), expected) <==> expected is Err
            && expected->Err_0 == err@,
{
}

/// An error is of the kind that it is made as, and reads as it is made.
pub proof fn law_errors_keep_kind_and_text(message: String)
    ensures
        GrokSearchError::InvalidParams(message)@ == ErrorView::InvalidParams(message@),
        GrokSearchError::NotFound(message)@ == ErrorView::NotFound(message@),
        GrokSearchError::Parse(message)@ == ErrorView::Parse(message@),
        GrokSearchError::Provider(message)@ == ErrorView::Provider(message@),
        GrokSearchError::Timeout(message)@ == ErrorView::Timeout(message@),
{
}

/// What stands in the list that an argument is.
pub open spec fn listed_in(items: Seq<JsonView>) -> Seq<Seq<char>> {
    string_array(Some(JsonView::Array(items)))
}

/// A list is read item by item: a text that is not blank is listed, trimmed; one that is
/// blank and an item that is no text are passed over; and a list in two parts gives what its
/// parts give, in order. What is no list gives nothing.
pub proof fn law_list_is_read_item_by_item(
    front: Seq<JsonView>,
    back: Seq<JsonView>,
    item: JsonView,
    other: JsonView,
)
    requires
        !(other is Array),
    ensures
        listed_in(Seq::empty()) == Seq::<Seq<char>>::empty(),
        item is Text && !blank(item->Text_0) ==> listed_in(seq![item]) == seq![
            trimmed(item->Text_0),
        ],
        item is Text && blank(item->Text_0) ==> listed_in(seq![item]).len() == 0,
        !(item is Text) ==> listed_in(seq![item]).len() == 0,
        listed_in(front + back) == listed_in(front) + listed_in(back),
        string_array(Some(other)).len() == 0,
        string_array(None).len() == 0,
    decreases back.len(),
{
    reveal_with_fuel(trimmed_texts, 2);
    assert(seq![item].drop_last() =~= Seq::empty());
    if item is Text {
        law_trimmed(item->Text_0);
        assert(listed_in(seq![item]) =~= (if blank(item->Text_0) {
            Seq::empty()
        } else {
            seq![trimmed(item->Text_0)]
        }));
    }
    if back.len() == 0 {
        assert(front + back =~= front);
        assert(listed_in(front) + listed_in(back) =~= listed_in(front));
    } else {
        law_list_is_read_item_by_item(front, back.drop_last(), item, other);
        assert((front + back).drop_last() =~= front + back.drop_last());
        assert(listed_in(front + back) =~= listed_in(front) + listed_in(back));
    }
}

/// Texts that are trimmed and not blank are listed as they are, all of them and in order.
pub proof fn law_clean_list_is_kept(texts: Seq<Seq<char>>)
    requires
        forall|i: int|
            0 <= i < texts.len() ==> (#[trigger] texts[i]).len() > 0 && trimmed(texts[i])
                == texts[i],
    ensures
        listed_in(texts.map_values(|s: Seq<char>| JsonView::Text(s))) == texts,
    decreases texts.len(),
{
    let items = texts.map_values(|s: Seq<char>| JsonView::Text(s));
    if texts.len() == 0 {
        assert(listed_in(items) =~= texts);
    } else {
        let front = texts.drop_last();
        assert forall|i: int| 0 <= i < front.len() implies (#[trigger] front[i]).len() > 0
            && trimmed(front[i]) == front[i] by {
            assert(front[i] == texts[i]);
        }
        law_clean_list_is_kept(front);
        assert(items.drop_last() =~= front.map_values(|s: Seq<char>| JsonView::Text(s)));
        assert(texts[texts.len() - 1].len() > 0);
        assert(listed_in(items) =~= texts);
    }
}

/// Every text of a list that is not blank is among those that are read, trimmed.
pub proof fn law_no_listed_text_is_lost(items: Seq<JsonView>, i: int)
    requires
        0 <= i < items.len(),
        items[i] is Text,
        !blank(items[i]->Text_0),
    ensures
        listed_in(items).contains(trimmed(items[i]->Text_0)),
{
    let front = items.take(i);
    let back = items.skip(i + 1);
    let item = items[i];
    law_list_is_read_item_by_item(front, seq![item], item, JsonView::Null);
    law_list_is_read_item_by_item(front + seq![item], back, item, JsonView::Null);
    assert(items =~= front + seq![item] + back);
    assert(listed_in(items)[listed_in(front).len() as int] == trimmed(item->Text_0));
}

/// `parse_string_array` gives the texts that an argument lists.
pub proof fn law_string_array(value: Option<&Json>, r: Vec<String>)
    requires
        call_ensures(parse_string_array, (value,), r),
    ensures
        ({
            let texts = string_array(
                if value is Some {
                    Some((value->0)@)
                } else {
                    None
                },
            );
            &&& r@.len() == texts.len()
            &&& forall|i: int| 0 <= i < r@.len() ==> (#[trigger] r@[i])@ == texts[i]
        }),
{
    assert forall|i: int| 0 <= i < r@.len() implies (#[trigger] r@[i])@ == string_array(
        opt_view(value),
    )[i] by {
        assert(crate::model::tool::text_views(r@)[i] == r@[i]@);
    }
}

/// The texts are those that the argument under a key lists.
pub open spec fn are_listed_under(texts: Seq<String>, args: JsonView, key: Seq<char>) -> bool {
    &&& texts.len() == string_array(member(args, key)).len()
    &&& forall|i: int|
        0 <= i < texts.len() ==> (#[trigger] texts[i])@ == string_array(member(args, key))[i]
}

/// The count is the one under a key: any integer from zero up that is there, and none where
/// there is no such.
pub open spec fn is_count_under(count: Option<usize>, args: JsonView, key: Seq<char>) -> bool {
    match unsigned_member(args, key) {
        Some(n) => count == Some(n as usize) && (n <= 0xffff_ffff ==> count->0 == n),
        None => count is None,
    }
}

/// The count is the one under a key, where that is more than zero.
pub open spec fn is_positive_count_under(
    count: Option<usize>,
    args: JsonView,
    key: Seq<char>,
) -> bool {
    match unsigned_member(args, key) {
        Some(n) => {
            &&& 0 < n <= 0xffff_ffff ==> count is Some && count->0 == n
            &&& n == 0 ==> count is None
            &&& count is Some ==> count->0 > 0 && count->0 == n as usize
            &&& n as usize > 0 ==> count is Some
        },
        None => count is None,
    }
}

/// The input is what the arguments ask for, each field by the argument of its own name.
pub open spec fn is_input_for(input: WebSearchInput, args: JsonView) -> bool {
    &&& member(args, "query"@) == Some(JsonView::Text(input.query@))
    &&& input.platform is None
    &&& input.model is None
    &&& is_count_under(input.extra_sources, args, "extra_sources"@)
    &&& match unsigned_member(args, "recency_days"@) {
        Some(n) => {
            &&& 0 < n <= 0xffff_ffff ==> input.recency_days is Some && input.recency_days->0 == n
            &&& n == 0 ==> input.recency_days is None
            &&& input.recency_days is Some ==> input.recency_days->0 > 0 && input.recency_days->0
                == n as u32
            &&& n as u32 > 0 ==> input.recency_days is Some
        },
        None => input.recency_days is None,
    }
    &&& are_listed_under(input.include_domains@, args, "include_domains"@)
    &&& are_listed_under(input.exclude_domains@, args, "exclude_domains"@)
    &&& match member(args, "include_content"@) {
        Some(JsonView::Bool(b)) => input.include_content == Some(b),
        _ => input.include_content is None,
    }
    &&& match member(args, "response_format"@) {
        Some(JsonView::Text(s)) => text_in(input.response_format) == Some(s),
        _ => input.response_format is None,
    }
    &&& match member(args, "reasoning_effort"@) {
        Some(JsonView::Text(s)) => {
            let level = ascii_lowered(trimmed(s));
            &&& level == "low"@ || level == "medium"@ || level == "high"@ || level == "xhigh"@
                ==> text_in(input.reasoning_effort) == Some(level)
            &&& level != "low"@ && level != "medium"@ && level != "high"@ && level != "xhigh"@
                ==> input.reasoning_effort is None
        },
        _ => input.reasoning_effort is None,
    }
}

/// The levels of effort, by name.
proof fn lemma_levels(level: Seq<char>)
    ensures
        crate::config::effort_levels().contains(level) <==> level == "low"@ || level == "medium"@
            || level == "high"@ || level == "xhigh"@,
{
    let levels = crate::config::effort_levels();
    assert(levels[0] == "low"@ && levels[1] == "medium"@ && levels[2] == "high"@ && levels[3]
        == "xhigh"@);
}

/// An input with the view that the arguments give is the input that they ask for.
proof fn lemma_input(input: WebSearchInput, args: JsonView, query: Seq<char>)
    requires
        text_member(args, "query"@) == Some(query),
        (crate::model::tool::WebSearchInputView { fast: false, ..input@ })
            == crate::mcp::calls::search_input(args, query),
    ensures
        is_input_for(input, args),
{
    let view = crate::mcp::calls::search_input(args, query);
    assert forall|i: int| 0 <= i < input.include_domains@.len() implies (
    #[trigger] input.include_domains@[i])@ == view.include_domains[i] by {
        assert(input@.include_domains[i] == input.include_domains@[i]@);
    }
    assert forall|i: int| 0 <= i < input.exclude_domains@.len() implies (
    #[trigger] input.exclude_domains@[i])@ == view.exclude_domains[i] by {
        assert(input@.exclude_domains[i] == input.exclude_domains@[i]@);
    }
    if let Some(JsonView::Text(s)) = member(args, "reasoning_effort"@) {
        lemma_levels(ascii_lowered(trimmed(s)));
    }
}

/// A search input is read where the query is a text, and only there; it then is what the
/// arguments ask for, and not in fast mode.
pub proof fn law_search_input_is_read(args: &Json, r: Result<WebSearchInput>)
    requires
        call_ensures(parse_web_search_input, (args,), r),
    ensures
        r is Ok <==> member(args@, "query"@) matches Some(JsonView::Text(_)),
        r is Ok ==> is_input_for(r->Ok_0, args@) && !(r->Ok_0).fast,
        r is Err ==> (r->Err_0)@ == ErrorView::InvalidParams("web_search.query is required"@),
{
    if r is Ok {
        lemma_input(r->Ok_0, args@, text_member(args@, "query"@)->0);
    }
}

/// Domains that a caller lists, trimmed and not blank, are those that the input includes or
/// excludes, all of them and in order.
pub proof fn law_listed_domains_are_kept(
    args: &Json,
    included: Seq<Seq<char>>,
    excluded: Seq<Seq<char>>,
    r: Result<WebSearchInput>,
)
    requires
        call_ensures(parse_web_search_input, (args,), r),
        r is Ok,
        member(args@, "include_domains"@) == Some(
            JsonView::Array(included.map_values(|s: Seq<char>| JsonView::Text(s))),
        ),
        member(args@, "exclude_domains"@) == Some(
            JsonView::Array(excluded.map_values(|s: Seq<char>| JsonView::Text(s))),
        ),
        forall|i: int|
            0 <= i < included.len() ==> (#[trigger] included[i]).len() > 0 && trimmed(included[i])
                == included[i],
        forall|i: int|
            0 <= i < excluded.len() ==> (#[trigger] excluded[i]).len() > 0 && trimmed(excluded[i])
                == excluded[i],
    ensures
        (r->Ok_0).include_domains@.len() == included.len(),
        forall|i: int|
            0 <= i < included.len() ==> (#[trigger] (r->Ok_0).include_domains@[i])@ == included[i],
        (r->Ok_0).exclude_domains@.len() == excluded.len(),
        forall|i: int|
            0 <= i < excluded.len() ==> (#[trigger] (r->Ok_0).exclude_domains@[i])@ == excluded[i],
{
    law_search_input_is_read(args, r);
    law_clean_list_is_kept(included);
    law_clean_list_is_kept(excluded);
}

/// The names of the tools are their own.
proof fn lemma_tool_names()
    ensures
        "web_search"@ != "doctor"@,
        "web_search_standard"@ != "doctor"@,
        "web_search_standard"@ != "web_search"@,
        "get_sources"@ != "doctor"@,
        "get_sources"@ != "web_search"@,
        "get_sources"@ != "web_search_standard"@,
        "web_fetch"@ != "doctor"@,
        "web_fetch"@ != "web_search"@,
        "web_fetch"@ != "web_search_standard"@,
        "web_fetch"@ != "get_sources"@,
        "web_map"@ != "doctor"@,
        "web_map"@ != "web_search"@,
        "web_map"@ != "web_search_standard"@,
        "web_map"@ != "get_sources"@,
        "web_map"@ != "web_fetch"@,
{
    reveal_strlit("doctor");
    reveal_strlit("web_search");
    reveal_strlit("web_search_standard");
    reveal_strlit("get_sources");
    reveal_strlit("web_fetch");
    reveal_strlit("web_map");
    assert("doctor"@.len() == 6 && "web_search"@.len() == 10 && "web_search_standard"@.len() == 19);
    assert("get_sources"@.len() == 11 && "web_fetch"@.len() == 9 && "web_map"@.len() == 7);
}

/// A call of a search tool asks for what its arguments ask for, on the fast channel where the
/// tool is `web_search` and on the standard one where it is `web_search_standard`.
pub proof fn law_call_of_search(name: &str, args: &Json, r: Result<ToolCall>)
    requires
        call_ensures(call_tool, (name, args), r),
        name@ == "web_search"@ || name@ == "web_search_standard"@,
    ensures
        r is Ok <==> member(args@, "query"@) matches Some(JsonView::Text(_)),
        r is Ok ==> {
            &&& r->Ok_0 matches ToolCall::WebSearch(input)
            &&& is_input_for(input, args@)
            &&& input.fast <==> name@ == "web_search"@
        },
        r is Err ==> (r->Err_0)@ == ErrorView::InvalidParams("web_search.query is required"@),
{
    lemma_tool_names();
    if let Ok(ToolCall::WebSearch(input)) = r {
        lemma_input(input, args@, text_member(args@, "query"@)->0);
    }
}

/// A call of `get_sources` is for the session that it names, from the offset that it gives, or
/// from the first source where it gives none, and for as many as it asks for, or for all where
/// it asks for none or for zero. Each goes by its own argument alone.
pub proof fn law_call_of_get_sources(name: &str, args: &Json, r: Result<ToolCall>)
    requires
        call_ensures(call_tool, (name, args), r),
        name@ == "get_sources"@,
    ensures
        match member(args@, "session_id"@) {
            Some(JsonView::Text(s)) => {
                &&& r matches Ok(ToolCall::GetSources { session_id, offset, limit })
                &&& session_id@ == s
                &&& unsigned_member(args@, "offset"@) is Some ==> is_count_under(
                    Some(offset),
                    args@,
                    "offset"@,
                )
                &&& unsigned_member(args@, "offset"@) is None ==> offset == 0
                &&& is_positive_count_under(limit, args@, "limit"@)
            },
            _ => r is Err && (r->Err_0)@ == ErrorView::InvalidParams(
                "get_sources.session_id is required"@,
            ),
        },
{
    lemma_tool_names();
}

/// The offset of a call of `get_sources` is the one that it gives, whatever else it asks for.
pub proof fn law_offset_is_the_callers(args: JsonView, n: u64)
    ensures
        unsigned_member(args, "offset"@) == Some(n) ==> (tool_call("get_sources"@, args) matches Ok(
            ToolCallView::GetSources { offset, .. },
        ) ==> offset == n as usize),
{
    lemma_tool_names();
}

/// A call of `web_fetch` is for the page that it names, and for as many characters as it asks
/// for, or for all where it asks for none or for zero.
pub proof fn law_call_of_web_fetch(name: &str, args: &Json, r: Result<ToolCall>)
    requires
        call_ensures(call_tool, (name, args), r),
        name@ == "web_fetch"@,
    ensures
        match member(args@, "url"@) {
            Some(JsonView::Text(s)) => {
                &&& r matches Ok(ToolCall::WebFetch { url, max_chars })
                &&& url@ == s
                &&& is_positive_count_under(max_chars, args@, "max_chars"@)
            },
            _ => r is Err && (r->Err_0)@ == ErrorView::InvalidParams("web_fetch.url is required"@),
        },
{
    lemma_tool_names();
}

/// A call of `web_map` is for the site that it names, and for as many pages as it asks for, or
/// for ten where it does not say.
pub proof fn law_call_of_web_map(name: &str, args: &Json, r: Result<ToolCall>)
    requires
        call_ensures(call_tool, (name, args), r),
        name@ == "web_map"@,
    ensures
        match member(args@, "url"@) {
            Some(JsonView::Text(s)) => {
                &&& r matches Ok(ToolCall::WebMap { url, max_results })
                &&& url@ == s
                &&& unsigned_member(args@, "max_results"@) is Some ==> is_count_under(
                    Some(max_results),
                    args@,
                    "max_results"@,
                )
                &&& unsigned_member(args@, "max_results"@) is None ==> max_results == 10
            },
            _ => r is Err && (r->Err_0)@ == ErrorView::InvalidParams("web_map.url is required"@),
        },
{
    lemma_tool_names();
}

/// A call of `doctor` takes any arguments, and a call of a tool that there is not finds none.
pub proof fn law_call_of_doctor_and_of_nothing(name: &str, args: &Json, r: Result<ToolCall>)
    requires
        call_ensures(call_tool, (name, args), r),
    ensures
        name@ == "doctor"@ ==> r == Ok::<ToolCall, GrokSearchError>(ToolCall::Doctor),
        name@ != "doctor"@ && name@ != "web_search"@ && name@ != "web_search_standard"@ && name@
            != "get_sources"@ && name@ != "web_fetch"@ && name@ != "web_map"@ ==> r is Err && (
        r->Err_0)@ == ErrorView::NotFound("unknown tool: "@ + name@),
{
}

/// An output that could not be serialized is an error that names it: the output of a search,
/// the sources of a session, or what was fetched.
pub proof fn law_serialize_failure(call: ToolCall, reason: &str, r: GrokSearchError)
    requires
        call_ensures(serialize_failure, (&call, reason), r),
    ensures
        call is WebSearch ==> r@ == ErrorView::Parse(
            "serialize "@ + "output"@ + ": "@ + reason@,
        ),
        call is GetSources ==> r@ == ErrorView::Parse(
            "serialize "@ + "sources"@ + ": "@ + reason@,
        ),
        call is WebFetch ==> r@ == ErrorView::Parse("serialize "@ + "fetch"@ + ": "@ + reason@),
{
}

/// A map of a site is answered with the site, the number of its pages, and every page in
/// order with its address and its provider, and with nothing else.
pub proof fn law_map_of_a_site(url: &str, sources: &Vec<Source>, r: Json)
    requires
        call_ensures(web_map_result, (url, sources), r),
    ensures
        member(r@, "url"@) == Some(JsonView::Text(url@)),
        member(r@, "sources_count"@) == Some(
            JsonView::Number(NumberView::Integer(sources@.len() as int)),
        ),
        member(r@, "sources"@) matches Some(JsonView::Array(pages)) && {
            &&& pages.len() == sources@.len()
            &&& forall|i: int|
                0 <= i < pages.len() ==> {
                    &&& member(#[trigger] pages[i], "url"@) == Some(
                        JsonView::Text(sources@[i].url@),
                    )
                    &&& member(pages[i], "provider"@) == Some(
                        JsonView::Text(sources@[i].provider@),
                    )
                    &&& forall|k: Seq<char>| #[trigger]
                        member(pages[i], k) is Some ==> k == "url"@ || k == "provider"@
                }
        },
        forall|k: Seq<char>| #[trigger]
            member(r@, k) is Some ==> k == "url"@ || k == "sources_count"@ || k == "sources"@,
{
    reveal_strlit("url");
    reveal_strlit("provider");
    reveal_strlit("sources");
    reveal_strlit("sources_count");
    assert("url"@.len() == 3 && "provider"@.len() == 8 && "sources"@.len() == 7
        && "sources_count"@.len() == 13);
}

} // verus!
