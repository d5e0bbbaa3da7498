use crate::error::ErrorView;
use crate::json::{member, JsonView};
use crate::mcp::calls::{tool_call, ToolCallView};
use crate::mcp::messages::{
    error_answer, message_step, negotiated, success_answer, supported_versions, MessageStepView,
    LATEST_PROTOCOL_VERSION,
};
use crate::mcp::tools::{tool_entries, tool_entry};
use vstd::prelude::*;

verus! {

/// A value is a response to the request with this id: it has the protocol's mark and the
/// id, and either a result or an error.
pub open spec fn answers(response: JsonView, id: JsonView) -> bool {
    &&& member(response, "jsonrpc"@) == Some(JsonView::Text("2.0"@))
    &&& member(response, "id"@) == Some(id)
    &&& member(response, "result"@) is Some <==> member(response, "error"@) is None
}

/// The keys of a response are four different texts.
proof fn lemma_response_keys()
    ensures
        "jsonrpc"@ != "id"@,
        "jsonrpc"@ != "result"@,
        "jsonrpc"@ != "error"@,
        "id"@ != "result"@,
        "id"@ != "error"@,
        "result"@ != "error"@,
{
    reveal_strlit("jsonrpc");
    reveal_strlit("id");
    reveal_strlit("result");
    reveal_strlit("error");
    assert("jsonrpc"@.len() == 7 && "id"@.len() == 2 && "result"@.len() == 6 && "error"@.len()
        == 5);
}

/// A response with a result answers the request, and so does one with an error.
pub proof fn law_responses_answer_their_request(
    id: JsonView,
    result: JsonView,
    code: i64,
    message: Seq<char>,
)
    ensures
        answers(success_answer(id, result), id),
        member(success_answer(id, result), "result"@) == Some(result),
        answers(error_answer(id, code, message), id),
        member(error_answer(id, code, message), "error"@) is Some,
{
    lemma_response_keys();
}

/// A message without an id is a notification: it is not answered, whatever it asks for.
pub proof fn law_notification_is_not_answered(request: JsonView, server_version: Seq<char>)
    ensures
        message_step(request, server_version) is None <==> member(request, "id"@) is None,
{
}

/// Whatever a message with an id comes to keeps that id.
pub proof fn law_answer_keeps_the_id(request: JsonView, server_version: Seq<char>)
    requires
        member(request, "id"@) is Some,
    ensures
        match message_step(request, server_version)->0 {
            MessageStepView::Reply(response) => answers(response, member(request, "id"@)->0),
            MessageStepView::Call { id, .. } => id == member(request, "id"@)->0,
            MessageStepView::Fail { id, .. } => id == member(request, "id"@)->0,
        },
{
    lemma_response_keys();
}

/// The declared revision is one that the server speaks, and it is the client's own wherever
/// the server speaks that.
pub proof fn law_declared_version_is_supported(requested: Option<Seq<char>>)
    ensures
        supported_versions().contains(negotiated(requested)),
        requested is Some && supported_versions().contains(requested->0) ==> negotiated(requested)
            == requested->0,
        negotiated(None) == LATEST_PROTOCOL_VERSION@,
        supported_versions()[0] == LATEST_PROTOCOL_VERSION@,
{
    assert(supported_versions()[0] == LATEST_PROTOCOL_VERSION@);
}

/// The name of a tool that is listed.
pub open spec fn listed(name: Seq<char>) -> bool {
    exists|i: int|
        0 <= i < tool_entries().len() && member(#[trigger] tool_entries()[i], "name"@) == Some(
            JsonView::Text(name),
        )
}

/// The names under which the tools are listed.
proof fn lemma_listed_names()
    ensures
        forall|i: int|
            0 <= i < tool_entries().len() ==> member(#[trigger] tool_entries()[i], "name"@)
                == Some(
                JsonView::Text(
                    seq![
                        "web_search"@,
                        "web_search_standard"@,
                        "get_sources"@,
                        "web_fetch"@,
                        "web_map"@,
                        "doctor"@,
                    ][i],
                ),
            ),
        tool_entries().len() == 6,
{
    reveal_strlit("name");
    reveal_strlit("description");
    reveal_strlit("inputSchema");
    assert("name"@.len() == 4 && "description"@.len() == 11 && "inputSchema"@.len() == 11);
    assert forall|name: Seq<char>, description: Seq<char>, schema: JsonView|
        member(#[trigger] tool_entry(name, description, schema), "name"@) == Some(
            JsonView::Text(name),
        ) by {}
}

/// The tools that are listed are those that can be called: a name that is not listed is not
/// found, and one that is listed is found, whatever its arguments.
pub proof fn law_listed_tools_are_callable(name: Seq<char>, args: JsonView)
    ensures
        listed(name) <==> !(tool_call(name, args) matches Err(ErrorView::NotFound(_))),
        !listed(name) ==> tool_call(name, args) == Err::<ToolCallView, ErrorView>(
            ErrorView::NotFound("unknown tool: "@ + name),
        ),
{
    lemma_listed_names();
    let names = seq![
        "web_search"@,
        "web_search_standard"@,
        "get_sources"@,
        "web_fetch"@,
        "web_map"@,
        "doctor"@,
    ];
    if listed(name) {
        let i = choose|i: int|
            0 <= i < tool_entries().len() && member(#[trigger] tool_entries()[i], "name"@) == Some(
                JsonView::Text(name),
            );
        assert(names[i] == name);
    } else {
        assert forall|i: int| 0 <= i < 6 implies #[trigger] names[i] != name by {
            assert(member(tool_entries()[i], "name"@) == Some(JsonView::Text(names[i])));
        }
        assert(names[0] != name && names[1] != name && names[2] != name && names[3] != name
            && names[4] != name && names[5] != name);
    }
}

} // verus!
