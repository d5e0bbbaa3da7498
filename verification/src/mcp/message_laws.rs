use crate::error::{ErrorView, Result};
use crate::json::{member, Json, JsonView, NumberView};
use crate::json_text::{parsed, rendered};
use crate::mcp::calls::{call_tool, ToolCall};
use crate::mcp::messages::{
    after_reading, error_response, finish_call, handle_line, handle_message, handle_request,
    negotiate_protocol_version, response_line, success_response, tool_response,
    tool_response_with_text, ErrorReport, LineStep, MessageStep, RequestStep,
};
use crate::mcp::tools::tools_list;
use crate::text_laws::{blank, law_trimmed};
use vstd::prelude::*;

verus! {

/// A response carries a result for an id, and nothing else.
pub open spec fn carries_result(response: JsonView, id: JsonView, result: JsonView) -> bool {
    &&& member(response, "jsonrpc"@) == Some(JsonView::Text("2.0"@))
    &&& member(response, "id"@) == Some(id)
    &&& member(response, "result"@) == Some(result)
    &&& forall|k: Seq<char>| #[trigger]
        member(response, k) is Some ==> k == "jsonrpc"@ || k == "id"@ || k == "result"@
}

/// A response carries an error for an id, by its code and its message, and nothing else.
pub open spec fn carries_error(
    response: JsonView,
    id: JsonView,
    code: int,
    message: Seq<char>,
) -> bool {
    &&& member(response, "jsonrpc"@) == Some(JsonView::Text("2.0"@))
    &&& member(response, "id"@) == Some(id)
    &&& member(response, "error"@) matches Some(error)
    &&& member(error, "code"@) == Some(JsonView::Number(NumberView::Integer(code)))
    &&& member(error, "message"@) == Some(JsonView::Text(message))
    &&& forall|k: Seq<char>| #[trigger]
        member(error, k) is Some ==> k == "code"@ || k == "message"@
    &&& forall|k: Seq<char>| #[trigger]
        member(response, k) is Some ==> k == "jsonrpc"@ || k == "id"@ || k == "error"@
}

/// A value carries a tool's result: as it is, and as one text.
pub open spec fn carries_tool_result(value: JsonView, result: JsonView, text: Seq<char>) -> bool {
    &&& member(value, "structuredContent"@) == Some(result)
    &&& member(value, "content"@) matches Some(JsonView::Array(content))
    &&& content.len() == 1
    &&& member(content[0], "type"@) == Some(JsonView::Text("text"@))
    &&& member(content[0], "text"@) == Some(JsonView::Text(text))
    &&& forall|k: Seq<char>| #[trigger]
        member(content[0], k) is Some ==> k == "type"@ || k == "text"@
    &&& forall|k: Seq<char>| #[trigger]
        member(value, k) is Some ==> k == "structuredContent"@ || k == "content"@
}

/// A value tells of the server: the revision that it declares, its name and version, and that
/// it has tools.
pub open spec fn tells_of_server(
    value: JsonView,
    revision: Seq<char>,
    server_version: Seq<char>,
) -> bool {
    &&& member(value, "protocolVersion"@) == Some(JsonView::Text(revision))
    &&& member(value, "serverInfo"@) matches Some(info)
    &&& member(info, "name"@) == Some(JsonView::Text("grok-search-rs"@))
    &&& member(info, "version"@) == Some(JsonView::Text(server_version))
    &&& forall|k: Seq<char>| #[trigger] member(info, k) is Some ==> k == "name"@ || k == "version"@
    &&& member(value, "capabilities"@) matches Some(capabilities)
    &&& member(capabilities, "tools"@) matches Some(JsonView::Object(tools))
    &&& tools.dom().is_empty()
    &&& forall|k: Seq<char>| #[trigger] member(capabilities, k) is Some ==> k == "tools"@
    &&& forall|k: Seq<char>| #[trigger]
        member(value, k) is Some ==> k == "protocolVersion"@ || k == "serverInfo"@ || k
            == "capabilities"@
}

/// The keys of messages differ from each other where they stand in one object.
proof fn lemma_keys()
    ensures
        "jsonrpc"@ != "id"@,
        "jsonrpc"@ != "result"@,
        "jsonrpc"@ != "error"@,
        "id"@ != "result"@,
        "id"@ != "error"@,
        "code"@ != "message"@,
        "structuredContent"@ != "content"@,
        "type"@ != "text"@,
        "protocolVersion"@ != "serverInfo"@,
        "protocolVersion"@ != "capabilities"@,
        "serverInfo"@ != "capabilities"@,
        "name"@ != "version"@,
{
    reveal_strlit("jsonrpc");
    reveal_strlit("id");
    reveal_strlit("result");
    reveal_strlit("error");
    reveal_strlit("code");
    reveal_strlit("message");
    reveal_strlit("structuredContent");
    reveal_strlit("content");
    reveal_strlit("type");
    reveal_strlit("text");
    reveal_strlit("protocolVersion");
    reveal_strlit("serverInfo");
    reveal_strlit("capabilities");
    reveal_strlit("name");
    reveal_strlit("version");
    assert("jsonrpc"@.len() == 7 && "id"@.len() == 2 && "result"@.len() == 6 && "error"@.len() == 5);
    assert("code"@.len() == 4 && "message"@.len() == 7);
    assert("structuredContent"@.len() == 17 && "content"@.len() == 7);
    assert("type"@[1] == 'y' && "text"@[1] == 'e');
    assert("protocolVersion"@.len() == 15 && "serverInfo"@.len() == 10 && "capabilities"@.len()
        == 12);
    assert("name"@.len() == 4 && "version"@.len() == 7);
}

/// The methods that are served are different texts.
proof fn lemma_methods()
    ensures
        "ping"@ != "initialize"@,
        "tools/list"@ != "initialize"@,
        "tools/list"@ != "ping"@,
        "tools/call"@ != "initialize"@,
        "tools/call"@ != "ping"@,
        "tools/call"@ != "tools/list"@,
{
    reveal_strlit("initialize");
    reveal_strlit("ping");
    reveal_strlit("tools/list");
    reveal_strlit("tools/call");
    assert("ping"@.len() == 4 && "initialize"@.len() == 10);
    assert("initialize"@[0] == 'i' && "tools/list"@[0] == 't' && "tools/call"@[0] == 't');
    assert("tools/list"@.len() == 10 && "tools/call"@.len() == 10);
    assert("tools/list"@[6] == 'l' && "tools/call"@[6] == 'c');
}

/// A success response carries the result that it is made for.
pub proof fn law_success_response(id: Json, result: Json, r: Json)
    requires
        call_ensures(success_response, (id, result), r),
    ensures
        carries_result(r@, id@, result@),
{
    lemma_keys();
}

/// An error response carries the code and the message that it is made for.
pub proof fn law_error_response(id: Json, code: i64, message: String, r: Json)
    requires
        call_ensures(error_response, (id, code, message), r),
    ensures
        carries_error(r@, id@, code as int, message@),
{
    lemma_keys();
}

/// A tool's result is answered as it is, along with its text.
pub proof fn law_tool_response(id: Json, result: Json, text: String, given: Json, r: Json)
    requires
        call_ensures(tool_response_with_text, (id, result, text), given),
        call_ensures(tool_response, (id, result), r),
    ensures
        member(given@, "result"@) matches Some(value) && carries_result(given@, id@, value)
            && carries_tool_result(value, result@, text@),
        member(r@, "result"@) matches Some(value) && carries_result(r@, id@, value)
            && carries_tool_result(value, result@, rendered(result@)),
{
    lemma_keys();
}

/// A call that is done is answered with its result, and one that failed with its error's code
/// and message.
pub proof fn law_finished_call(
    id: Json,
    outcome: std::result::Result<Json, ErrorReport>,
    r: Json,
)
    requires
        call_ensures(finish_call, (id, outcome), r),
    ensures
        match outcome {
            Ok(result) => {
                &&& member(r@, "result"@) matches Some(value)
                &&& carries_result(r@, id@, value)
                &&& carries_tool_result(value, result@, rendered(result@))
            },
            Err(report) => carries_error(r@, id@, report.code as int, report.message@),
        },
{
    lemma_keys();
}

/// A revision that the server speaks is declared as it was asked for; for any other, and where
/// none was asked for, the latest is.
pub proof fn law_negotiated_version(requested: Option<&str>, r: &'static str)
    requires
        call_ensures(negotiate_protocol_version, (requested,), r),
    ensures
        requested is Some && ((requested->0)@ == "2025-11-25"@ || (requested->0)@ == "2025-06-18"@
            || (requested->0)@ == "2025-03-26"@ || (requested->0)@ == "2024-11-05"@) ==> r@ == (
        requested->0)@,
        requested is None || ((requested->0)@ != "2025-11-25"@ && (requested->0)@ != "2025-06-18"@
            && (requested->0)@ != "2025-03-26"@ && (requested->0)@ != "2024-11-05"@) ==> r@
            == "2025-11-25"@,
{
    let known = crate::mcp::messages::supported_versions();
    assert(known[0] == "2025-11-25"@ && known[1] == "2025-06-18"@ && known[2] == "2025-03-26"@
        && known[3] == "2024-11-05"@);
}

/// The id of a request, or null where it has none.
pub open spec fn id_of(request: JsonView) -> JsonView {
    if member(request, "id"@) is Some {
        member(request, "id"@)->0
    } else {
        JsonView::Null
    }
}

/// A request to initialize is answered with what the server is, and the revision that the
/// request's own asks for.
pub proof fn law_initialize(
    request: &Json,
    server_version: &str,
    requested: Option<&str>,
    revision: &'static str,
    r: Result<RequestStep>,
)
    requires
        call_ensures(handle_request, (request, server_version), r),
        member(request@, "method"@) == Some(JsonView::Text("initialize"@)),
        call_ensures(negotiate_protocol_version, (requested,), revision),
        match member(request@, "params"@) {
            Some(params) => match member(params, "protocolVersion"@) {
                Some(JsonView::Text(version)) => requested is Some && (requested->0)@ == version,
                _ => requested is None,
            },
            None => requested is None,
        },
    ensures
        r matches Ok(RequestStep::Reply(response)) && {
            &&& member(response@, "result"@) matches Some(result)
            &&& carries_result(response@, id_of(request@), result)
            &&& tells_of_server(result, revision@, server_version@)
        },
{
    lemma_keys();
}

/// A ping is answered with an empty result, and a request for the tools with the list of them.
pub proof fn law_ping_and_tools_list(
    request: &Json,
    server_version: &str,
    tools: Json,
    r: Result<RequestStep>,
)
    requires
        call_ensures(handle_request, (request, server_version), r),
        call_ensures(tools_list, (), tools),
    ensures
        member(request@, "method"@) == Some(JsonView::Text("ping"@)) ==> {
            &&& r matches Ok(RequestStep::Reply(response))
            &&& member(response@, "result"@) matches Some(JsonView::Object(none))
            &&& none.dom().is_empty()
            &&& carries_result(response@, id_of(request@), JsonView::Object(none))
        },
        member(request@, "method"@) == Some(JsonView::Text("tools/list"@)) ==> {
            &&& r matches Ok(RequestStep::Reply(response))
            &&& carries_result(response@, id_of(request@), tools@)
        },
{
    lemma_keys();
    lemma_methods();
}

/// A call of a tool goes to the tool that the request names, with the arguments that it gives,
/// or with none where it gives none: it comes to the call, or to the error, that `call_tool`
/// gives for them.
pub proof fn law_tools_call(
    request: &Json,
    server_version: &str,
    name: &str,
    args: &Json,
    call: Result<ToolCall>,
    r: Result<RequestStep>,
)
    requires
        call_ensures(handle_request, (request, server_version), r),
        member(request@, "method"@) == Some(JsonView::Text("tools/call"@)),
        call_ensures(call_tool, (name, args), call),
        member(request@, "params"@) is Some,
        member(member(request@, "params"@)->0, "name"@) == Some(JsonView::Text(name@)),
        match member(member(request@, "params"@)->0, "arguments"@) {
            Some(given) => args@ == given,
            None => args@ matches JsonView::Object(none) && none.dom().is_empty(),
        },
    ensures
        match call {
            Ok(made) => r matches Ok(RequestStep::Call(step)) && step@ == made@,
            Err(err) => r is Err && (r->Err_0)@ == err@,
        },
{
    lemma_methods();
    if member(member(request@, "params"@)->0, "arguments"@) is None {
        assert(args@->Object_0 =~= Map::empty());
    }
}

/// A request without a method, a call that names no tool, and a method that is not served are
/// refused, each with its own error.
pub proof fn law_refused_requests(
    request: &Json,
    server_version: &str,
    r: Result<RequestStep>,
)
    requires
        call_ensures(handle_request, (request, server_version), r),
    ensures
        match member(request@, "method"@) {
            Some(JsonView::Text(method)) => {
                &&& method == "tools/call"@ && !(member(request@, "params"@) matches Some(params)
                    && member(params, "name"@) matches Some(JsonView::Text(_))) ==> r is Err && (
                r->Err_0)@ == ErrorView::InvalidParams("missing tool name"@)
                &&& method != "initialize"@ && method != "ping"@ && method != "tools/list"@ && method
                    != "tools/call"@ ==> r is Err && (r->Err_0)@ == ErrorView::NotFound(
                    "unsupported method: "@ + method,
                )
                &&& method == "initialize"@ || method == "ping"@ || method == "tools/list"@ ==> r is Ok
            },
            _ => r is Err && (r->Err_0)@ == ErrorView::InvalidParams("missing method"@),
        },
{
    lemma_methods();
}

/// A message without an id comes to nothing; any other comes to what its request comes to,
/// with its own id.
pub proof fn law_message(
    request: &Json,
    server_version: &str,
    step: Result<RequestStep>,
    r: Option<MessageStep>,
)
    requires
        call_ensures(handle_request, (request, server_version), step),
        call_ensures(handle_message, (request, server_version), r),
    ensures
        r is None <==> member(request@, "id"@) is None,
        r is Some ==> {
            let own = member(request@, "id"@)->0;
            match step {
                Ok(RequestStep::Reply(response)) => r->0 matches MessageStep::Reply(given) && given@
                    == response@,
                Ok(RequestStep::Call(call)) => r->0 matches MessageStep::Call { id, call: made }
                    && id@ == own && made@ == call@,
                Err(err) => r->0 matches MessageStep::Fail { id, error } && id@ == own && error@
                    == err@,
            }
        },
{
}

/// A line that was read holds its message; one that could not be read is answered, without an
/// id, with the code of a parse error and the reason.
pub proof fn law_reading(outcome: std::result::Result<Json, String>, r: LineStep)
    requires
        call_ensures(after_reading, (outcome,), r),
    ensures
        match outcome {
            Ok(value) => r matches LineStep::Message(message) && message@ == value@,
            Err(reason) => r matches LineStep::Reply(response) && carries_error(
                response@,
                JsonView::Null,
                -32700,
                "parse error: "@ + reason@,
            ),
        },
{
    lemma_keys();
}

/// A blank line is passed over, and no other is: any other is read as JSON, all of it.
pub proof fn law_line(line: &str, r: LineStep)
    requires
        call_ensures(handle_line, (line,), r),
    ensures
        r is Ignore <==> blank(line@),
        !blank(line@) ==> match parsed(line@) {
            Ok(value) => r matches LineStep::Message(message) && message@ == value,
            Err(reason) => r matches LineStep::Reply(response) && carries_error(
                response@,
                JsonView::Null,
                -32700,
                "parse error: "@ + reason,
            ),
        },
{
    lemma_keys();
    law_trimmed(line@);
}

/// A response goes out as its JSON text and a line end.
pub proof fn law_response_line(response: &Json, r: String)
    requires
        call_ensures(response_line, (response,), r),
    ensures
        r@ == rendered(response@) + seq!['\n'],
        forall|i: int| 0 <= i < r@.len() - 1 ==> #[trigger] r@[i] != '\n',
{
    assert(r@ =~= rendered(response@) + seq!['\n']);
}

} // verus!
