use crate::adapters::grok_responses_request::{
    joined, lemma_body_keys, message_item, message_items, payload, system_items,
    to_grok_responses_payload,
};
use crate::error::Result;
use crate::json::{member, Json, JsonView};
use crate::model::search::{SearchMessage, SearchRequest, SearchRequestView};
use crate::text::trimmed;
use crate::text_laws::{blank, is_trim_of, law_trimmed};
use vstd::prelude::*;

verus! {

/// A body is refused where a search of the web is required and none of the request's tools is
/// named `web_search`, and only there.
pub proof fn law_body_is_refused_without_web_search(
    req: &SearchRequest,
    require_web_search: bool,
    include_x_search: bool,
    r: Result<Json>,
)
    requires
        call_ensures(
            to_grok_responses_payload,
            (req, require_web_search, include_x_search),
            r,
        ),
    ensures
        r is Err <==> require_web_search && (forall|i: int|
            0 <= i < req.tools@.len() ==> (#[trigger] req.tools@[i]).name@ != "web_search"@),
        r is Err ==> r->Err_0 is Parse && (r->Err_0->Parse_0)@
            == "web_search is enabled but request does not include web_search tool intent"@,
{
    assert forall|i: int| 0 <= i < req.tools@.len() implies (#[trigger] req.tools@[i]).name@
        == req@.tools[i].name by {}
    if r is Err {
        assert forall|i: int| 0 <= i < req.tools@.len() implies (#[trigger] req.tools@[i]).name@
            != "web_search"@ by {
            assert(req@.tools[i].name != "web_search"@);
        }
    }
}

/// A body names the request's own model, or the fast channel's in fast mode, and asks for a
/// stream.
pub proof fn law_body_names_the_model(
    req: &SearchRequest,
    require_web_search: bool,
    include_x_search: bool,
    r: Result<Json>,
)
    requires
        call_ensures(
            to_grok_responses_payload,
            (req, require_web_search, include_x_search),
            r,
        ),
        r is Ok,
    ensures
        !req.fast ==> member((r->Ok_0)@, "model"@) == Some(JsonView::Text(req.model@)),
        req.fast ==> member((r->Ok_0)@, "model"@) == Some(JsonView::Text("grok-chat-fast"@)),
        member((r->Ok_0)@, "stream"@) == Some(JsonView::Bool(true)),
{
    lemma_body_keys();
}

/// Outside fast mode a body states the request's own reasoning effort, trimmed, where the
/// request states one that is not blank; otherwise, and in fast mode, it states none.
pub proof fn law_body_states_the_effort(
    req: &SearchRequest,
    require_web_search: bool,
    include_x_search: bool,
    r: Result<Json>,
)
    requires
        call_ensures(
            to_grok_responses_payload,
            (req, require_web_search, include_x_search),
            r,
        ),
        r is Ok,
    ensures
        match (member((r->Ok_0)@, "reasoning"@), req.reasoning_effort) {
            (Some(reasoning), Some(effort)) => {
                &&& !req.fast
                &&& !blank(effort@)
                &&& member(reasoning, "effort"@) == Some(JsonView::Text(trimmed(effort@)))
                &&& is_trim_of(trimmed(effort@), effort@)
                &&& forall|k: Seq<char>| #[trigger]
                    member(reasoning, k) is Some ==> k == "effort"@
            },
            (Some(_), None) => false,
            (None, Some(effort)) => req.fast || blank(effort@),
            (None, None) => true,
        },
{
    lemma_body_keys();
    if let Some(effort) = req.reasoning_effort {
        law_trimmed(effort@);
    }
}

/// The effort that the body of a request states is the request's own, trimmed.
pub proof fn law_effort_is_the_requests_own(
    req: SearchRequestView,
    require_web_search: bool,
    include_x_search: bool,
)
    requires
        !req.fast,
        req.reasoning_effort is Some,
        !blank(req.reasoning_effort->0),
    ensures
        member(payload(req, require_web_search, include_x_search), "reasoning"@) is Some,
        member(
            member(payload(req, require_web_search, include_x_search), "reasoning"@)->0,
            "effort"@,
        ) == Some(JsonView::Text(trimmed(req.reasoning_effort->0))),
{
    lemma_body_keys();
    law_trimmed(req.reasoning_effort->0);
}

/// A value is the tool of a kind, and says no more.
pub open spec fn is_tool(value: JsonView, kind: Seq<char>) -> bool {
    &&& member(value, "type"@) == Some(JsonView::Text(kind))
    &&& forall|k: Seq<char>| #[trigger] member(value, k) is Some ==> k == "type"@
}

/// A body offers `web_search` where it is required, then `x_search` where that is configured
/// and the request is not in fast mode, and no other tool.
pub proof fn law_body_offers_the_tools(
    req: &SearchRequest,
    require_web_search: bool,
    include_x_search: bool,
    r: Result<Json>,
)
    requires
        call_ensures(
            to_grok_responses_payload,
            (req, require_web_search, include_x_search),
            r,
        ),
        r is Ok,
    ensures
        member((r->Ok_0)@, "tools"@) matches Some(JsonView::Array(tools)) && {
            let x_search = include_x_search && !req.fast;
            &&& tools.len() == (if require_web_search {
                1int
            } else {
                0
            }) + (if x_search {
                1int
            } else {
                0
            })
            &&& require_web_search ==> is_tool(tools[0], "web_search"@)
            &&& x_search ==> is_tool(tools[tools.len() - 1], "x_search"@)
        },
{
    lemma_body_keys();
}

/// A value is an item of the conversation with this role and this content, and says no more.
pub open spec fn is_item(value: JsonView, role: Seq<char>, content: Seq<char>) -> bool {
    &&& member(value, "role"@) == Some(JsonView::Text(role))
    &&& member(value, "content"@) == Some(JsonView::Text(content))
    &&& forall|k: Seq<char>| #[trigger]
        member(value, k) is Some ==> k == "role"@ || k == "content"@
}

/// The texts of the blocks of a message.
pub open spec fn block_texts(message: SearchMessage) -> Seq<Seq<char>> {
    Seq::new(message.content@.len(), |i: int| message.content@[i]->text@)
}

/// Texts that are joined stand one after the other with the separator between each two: an
/// empty run gives nothing, one text gives itself, and a run in two parts gives the parts with
/// the separator between them.
pub proof fn law_joined(front: Seq<Seq<char>>, back: Seq<Seq<char>>, text: Seq<char>, separator: Seq<char>)
    ensures
        joined(Seq::empty(), separator) == Seq::<char>::empty(),
        joined(seq![text], separator) == text,
        front.len() > 0 && back.len() > 0 ==> joined(front + back, separator) == joined(
            front,
            separator,
        ) + separator + joined(back, separator),
    decreases back.len(),
{
    if front.len() > 0 && back.len() > 0 {
        let whole = front + back;
        assert(whole.drop_last() =~= front + back.drop_last());
        if back.len() == 1 {
            assert(front + back.drop_last() =~= front);
        } else {
            law_joined(front, back.drop_last(), text, separator);
            assert(joined(whole, separator) =~= joined(front, separator) + separator + joined(
                back,
                separator,
            ));
        }
    }
}

/// A body holds the system prompt as it is, where there is one that is not blank, and then
/// every message in order: its role, and the texts of its blocks, one per line.
pub proof fn law_body_holds_the_conversation(
    req: &SearchRequest,
    require_web_search: bool,
    include_x_search: bool,
    r: Result<Json>,
)
    requires
        call_ensures(
            to_grok_responses_payload,
            (req, require_web_search, include_x_search),
            r,
        ),
        r is Ok,
    ensures
        member((r->Ok_0)@, "input"@) matches Some(JsonView::Array(items)) && {
            let lead = if req.system is Some && !blank((req.system->0)@) {
                1int
            } else {
                0
            };
            &&& items.len() == lead + req.messages@.len()
            &&& lead == 1 ==> is_item(items[0], "system"@, (req.system->0)@)
            &&& forall|i: int|
                0 <= i < req.messages@.len() ==> is_item(
                    items[lead + i],
                    (#[trigger] req.messages@[i]).role@,
                    joined(block_texts(req.messages@[i]), "\n"@),
                )
        },
{
    lemma_body_keys();
    reveal_strlit("role");
    reveal_strlit("content");
    assert("role"@.len() == 4 && "content"@.len() == 7);
    if let Some(system) = req.system {
        law_trimmed(system@);
    }
    let lead = system_items(req@.system);
    let items = lead + message_items(req@.messages);
    assert(member((r->Ok_0)@, "input"@) == Some(JsonView::Array(items)));
    assert forall|i: int| 0 <= i < req.messages@.len() implies is_item(
        items[lead.len() + i],
        (#[trigger] req.messages@[i]).role@,
        joined(block_texts(req.messages@[i]), "\n"@),
    ) by {
        let message = req@.messages[i];
        assert(items[lead.len() + i] == message_item(message));
        assert(message.content =~= block_texts(req.messages@[i]));
    }
}

/// A body has a model, the conversation, the tools and the wish for a stream, a reasoning
/// where an effort is stated, and nothing else.
pub proof fn law_body_says_no_more(
    req: &SearchRequest,
    require_web_search: bool,
    include_x_search: bool,
    r: Result<Json>,
    key: Seq<char>,
)
    requires
        call_ensures(
            to_grok_responses_payload,
            (req, require_web_search, include_x_search),
            r,
        ),
        r is Ok,
        member((r->Ok_0)@, key) is Some,
    ensures
        key == "model"@ || key == "input"@ || key == "tools"@ || key == "stream"@ || key
            == "reasoning"@,
{
}

} // verus!
