use crate::error::{ErrorView, GrokSearchError, Result};
use crate::json::{
    integer_view, member, opt_str_view, text_member, views, Json, JsonMap, JsonView,
};
use crate::json_text::{holds, parse, parsed, reads_back, render, rendered};
use crate::mcp::calls::{call_tool, same_result, tool_call, ToolCall, ToolCallView};
use crate::mcp::tools::{tools_answer, tools_list};
use crate::text::{same, trim, trimmed};
use vstd::prelude::*;

verus! {

/// The latest revision of the protocol that the server speaks. It is declared where a client
/// asks for none, or for one that the server does not speak.
pub const LATEST_PROTOCOL_VERSION: &'static str = "2025-11-25";

/// The code of the error that a line is answered with that holds no JSON.
pub const PARSE_ERROR: i64 = -32700;

/// The revisions of the protocol that the server speaks, newest first.
pub open spec fn supported_versions() -> Seq<Seq<char>> {
    seq!["2025-11-25"@, "2025-06-18"@, "2025-03-26"@, "2024-11-05"@]
}

/// The revision to declare to a client: the one that it asks for, where the server speaks
/// it, and otherwise the latest.
pub open spec fn negotiated(requested: Option<Seq<char>>) -> Seq<char> {
    match requested {
        Some(version) => if supported_versions().contains(version) {
            version
        } else {
            LATEST_PROTOCOL_VERSION@
        },
        None => LATEST_PROTOCOL_VERSION@,
    }
}

/// Pick the protocol revision to declare in the `initialize` result: the client's requested
/// revision when supported, else the latest.
pub fn negotiate_protocol_version(requested: Option<&str>) -> (r: &'static str)
    ensures
        r@ == negotiated(opt_str_view(requested)),
{
    let ghost known = supported_versions();
    assert(known[0] == "2025-11-25"@ && known[1] == "2025-06-18"@ && known[2] == "2025-03-26"@
        && known[3] == "2024-11-05"@);
    match requested {
        Some(version) => if same(version, "2025-11-25") {
            "2025-11-25"
        } else if same(version, "2025-06-18") {
            "2025-06-18"
        } else if same(version, "2025-03-26") {
            "2025-03-26"
        } else if same(version, "2024-11-05") {
            "2024-11-05"
        } else {
            LATEST_PROTOCOL_VERSION
        },
        None => LATEST_PROTOCOL_VERSION,
    }
}

/// The response that carries a result.
pub open spec fn success_answer(id: JsonView, result: JsonView) -> JsonView {
    JsonView::Object(
        Map::empty().insert("jsonrpc"@, JsonView::Text("2.0"@)).insert("id"@, id).insert(
            "result"@,
            result,
        ),
    )
}

/// The response that carries an error.
pub open spec fn error_answer(id: JsonView, code: i64, message: Seq<char>) -> JsonView {
    JsonView::Object(
        Map::empty().insert("jsonrpc"@, JsonView::Text("2.0"@)).insert("id"@, id).insert(
            "error"@,
            JsonView::Object(
                Map::empty().insert("code"@, integer_view(code as int)).insert(
                    "message"@,
                    JsonView::Text(message),
                ),
            ),
        ),
    )
}

/// The response that carries a result.
pub fn success_response(id: Json, result: Json) -> (r: Json)
    ensures
        r@ == success_answer(id@, result@),
{
    Json::object(
        JsonMap::new().with("jsonrpc", Json::text("2.0")).with("id", id).with("result", result),
    )
}

/// The response that carries an error.
pub fn error_response(id: Json, code: i64, message: String) -> (r: Json)
    ensures
        r@ == error_answer(id@, code, message@),
{
    Json::object(
        JsonMap::new().with("jsonrpc", Json::text("2.0")).with("id", id).with(
            "error",
            Json::object(
                JsonMap::new().with("code", Json::integer(code)).with(
                    "message",
                    Json::Text(message),
                ),
            ),
        ),
    )
}

/// What the server tells of itself.
pub open spec fn initialize_result(version: Seq<char>, server_version: Seq<char>) -> JsonView {
    JsonView::Object(
        Map::empty().insert("protocolVersion"@, JsonView::Text(version)).insert(
            "serverInfo"@,
            JsonView::Object(
                Map::empty().insert("name"@, JsonView::Text("grok-search-rs"@)).insert(
                    "version"@,
                    JsonView::Text(server_version),
                ),
            ),
        ).insert(
            "capabilities"@,
            JsonView::Object(Map::empty().insert("tools"@, JsonView::Object(Map::empty()))),
        ),
    )
}

/// What a tool's result is answered as: the value itself, and the value as text.
pub open spec fn tool_result(result: JsonView, text: Seq<char>) -> JsonView {
    JsonView::Object(
        Map::empty().insert(
            "content"@,
            JsonView::Array(
                seq![
                    JsonView::Object(
                        Map::empty().insert("type"@, JsonView::Text("text"@)).insert(
                            "text"@,
                            JsonView::Text(text),
                        ),
                    ),
                ],
            ),
        ).insert("structuredContent"@, result),
    )
}

/// What a request comes to: a response, or a call of a tool whose result is to be answered.
#[derive(Debug, Clone, PartialEq, Eq)]
pub enum RequestStep {
    Reply(Json),
    Call(ToolCall),
}

/// What a `RequestStep` holds.
pub enum RequestStepView {
    Reply(JsonView),
    Call(ToolCallView),
}

impl View for RequestStep {
    type V = RequestStepView;

    open spec fn view(&self) -> RequestStepView {
        match self {
            RequestStep::Reply(response) => RequestStepView::Reply(response@),
            RequestStep::Call(call) => RequestStepView::Call(call@),
        }
    }
}

/// The id of a request, null where it has none.
pub open spec fn request_id(request: JsonView) -> JsonView {
    match member(request, "id"@) {
        Some(id) => id,
        None => JsonView::Null,
    }
}

/// The member of a value under a key, or an object without members.
pub open spec fn member_or_empty(value: JsonView, key: Seq<char>) -> JsonView {
    match member(value, key) {
        Some(v) => v,
        None => JsonView::Object(Map::empty()),
    }
}

/// The protocol revision that a client asks for.
pub open spec fn requested_version(request: JsonView) -> Option<Seq<char>> {
    match member(request, "params"@) {
        Some(params) => text_member(params, "protocolVersion"@),
        None => None,
    }
}

/// What a request comes to, or why it comes to nothing.
pub open spec fn request_step(
    request: JsonView,
    server_version: Seq<char>,
) -> std::result::Result<RequestStepView, ErrorView> {
    let id = request_id(request);
    match text_member(request, "method"@) {
        None => Err(ErrorView::InvalidParams("missing method"@)),
        Some(method) => if method == "initialize"@ {
            Ok(
                RequestStepView::Reply(
                    success_answer(
                        id,
                        initialize_result(negotiated(requested_version(request)), server_version),
                    ),
                ),
            )
        } else if method == "ping"@ {
            Ok(RequestStepView::Reply(success_answer(id, JsonView::Object(Map::empty()))))
        } else if method == "tools/list"@ {
            Ok(RequestStepView::Reply(success_answer(id, tools_answer())))
        } else if method == "tools/call"@ {
            let params = member_or_empty(request, "params"@);
            match text_member(params, "name"@) {
                None => Err(ErrorView::InvalidParams("missing tool name"@)),
                Some(name) => match tool_call(name, member_or_empty(params, "arguments"@)) {
                    Ok(call) => Ok(RequestStepView::Call(call)),
                    Err(err) => Err(err),
                },
            }
        } else {
            Err(ErrorView::NotFound("unsupported method: "@ + method))
        },
    }
}

/// The member of a value under a key, or an object without members.
fn get_or_empty(value: &Json, key: &str) -> (r: Json)
    ensures
        r@ == member_or_empty(value@, key@),
{
    match value.get(key) {
        Some(v) => v.clone(),
        None => Json::object(JsonMap::new()),
    }
}

/// The id of a request, null where it has none.
fn get_id(request: &Json) -> (r: Json)
    ensures
        r@ == request_id(request@),
{
    match request.get("id") {
        Some(id) => id.clone(),
        None => Json::Null,
    }
}

/// What a request comes to. `server_version` is the version that the server declares.
pub fn handle_request(request: &Json, server_version: &str) -> (r: Result<RequestStep>)
    ensures
        same_result(r, request_step(request@, server_version@)),
{
    let id = get_id(request);
    let method = match request.get_str("method") {
        Some(method) => method,
        None => {
            return Err(GrokSearchError::InvalidParams("missing method".to_string()));
        },
    };
    if same(method, "initialize") {
        let requested = match request.get("params") {
            Some(params) => params.get_str("protocolVersion"),
            None => None,
        };
        let info = JsonMap::new().with("name", Json::text("grok-search-rs")).with(
            "version",
            Json::text(server_version),
        );
        let result = JsonMap::new().with(
            "protocolVersion",
            Json::text(negotiate_protocol_version(requested)),
        ).with("serverInfo", Json::object(info)).with(
            "capabilities",
            Json::object(JsonMap::new().with("tools", Json::object(JsonMap::new()))),
        );
        return Ok(RequestStep::Reply(success_response(id, Json::object(result))));
    }
    if same(method, "ping") {
        return Ok(RequestStep::Reply(success_response(id, Json::object(JsonMap::new()))));
    }
    if same(method, "tools/list") {
        return Ok(RequestStep::Reply(success_response(id, tools_list())));
    }
    if same(method, "tools/call") {
        let params = get_or_empty(request, "params");
        let name = match params.get_str("name") {
            Some(name) => name,
            None => {
                return Err(GrokSearchError::InvalidParams("missing tool name".to_string()));
            },
        };
        let args = get_or_empty(&params, "arguments");
        return match call_tool(name, &args) {
            Ok(call) => Ok(RequestStep::Call(call)),
            Err(err) => Err(err),
        };
    }
    let mut message = "unsupported method: ".to_string();
    message.append(method);
    Err(GrokSearchError::NotFound(message))
}

/// What a message comes to: a response, a call of a tool whose result is to be answered, or
/// an error to be answered.
#[derive(Debug, Clone, PartialEq, Eq)]
pub enum MessageStep {
    Reply(Json),
    Call { id: Json, call: ToolCall },
    Fail { id: Json, error: GrokSearchError },
}

/// What a `MessageStep` holds.
pub enum MessageStepView {
    Reply(JsonView),
    Call { id: JsonView, call: ToolCallView },
    Fail { id: JsonView, error: ErrorView },
}

impl View for MessageStep {
    type V = MessageStepView;

    open spec fn view(&self) -> MessageStepView {
        match self {
            MessageStep::Reply(response) => MessageStepView::Reply(response@),
            MessageStep::Call { id, call } => MessageStepView::Call { id: id@, call: call@ },
            MessageStep::Fail { id, error } => MessageStepView::Fail { id: id@, error: error@ },
        }
    }
}

/// What a message comes to. One without an id is a notification, and comes to nothing.
pub open spec fn message_step(request: JsonView, server_version: Seq<char>) -> Option<
    MessageStepView,
> {
    match member(request, "id"@) {
        None => None,
        Some(id) => Some(
            match request_step(request, server_version) {
                Ok(RequestStepView::Reply(response)) => MessageStepView::Reply(response),
                Ok(RequestStepView::Call(call)) => MessageStepView::Call { id, call },
                Err(error) => MessageStepView::Fail { id, error },
            },
        ),
    }
}

/// What a message comes to. `server_version` is the version that the server declares.
pub fn handle_message(request: &Json, server_version: &str) -> (r: Option<MessageStep>)
    ensures
        match r {
            Some(step) => message_step(request@, server_version@) == Some(step@),
            None => message_step(request@, server_version@) is None,
        },
{
    let id = match request.get("id") {
        Some(id) => id.clone(),
        None => {
            return None;
        },
    };
    Some(
        match handle_request(request, server_version) {
            Ok(RequestStep::Reply(response)) => MessageStep::Reply(response),
            Ok(RequestStep::Call(call)) => MessageStep::Call { id, call },
            Err(error) => MessageStep::Fail { id, error },
        },
    )
}

/// The response to a call of a tool that gave `result`, which reads `text`.
pub fn tool_response_with_text(id: Json, result: Json, text: String) -> (r: Json)
    ensures
        r@ == success_answer(id@, tool_result(result@, text@)),
{
    let mut content: Vec<Json> = Vec::new();
    content.push(
        Json::object(
            JsonMap::new().with("type", Json::text("text")).with("text", Json::Text(text)),
        ),
    );
    assert(views(content@) =~= seq![
        JsonView::Object(
            Map::empty().insert("type"@, JsonView::Text("text"@)).insert(
                "text"@,
                JsonView::Text(text@),
            ),
        ),
    ]);
    success_response(
        id,
        Json::object(
            JsonMap::new().with("content", Json::array(content)).with("structuredContent", result),
        ),
    )
}

/// The response to a call of a tool that gave `result`: the value, and its JSON text, from
/// which the value can be read back.
pub fn tool_response(id: Json, result: Json) -> (r: Json)
    ensures
        r@ == success_answer(id@, tool_result(result@, rendered(result@))),
        reads_back(result@) ==> holds(rendered(result@), result@),
{
    let text = render(&result);
    tool_response_with_text(id, result, text)
}

/// How an error is reported to a client.
#[derive(Debug, Clone, PartialEq, Eq)]
pub struct ErrorReport {
    pub code: i64,
    pub message: String,
}

/// The response to a call of a tool, which gave a result or failed.
pub fn finish_call(id: Json, outcome: std::result::Result<Json, ErrorReport>) -> (r: Json)
    ensures
        r@ == (match outcome {
            Ok(result) => success_answer(id@, tool_result(result@, rendered(result@))),
            Err(report) => error_answer(id@, report.code, report.message@),
        }),
        outcome matches Ok(result) ==> (reads_back(result@) ==> holds(rendered(result@), result@)),
{
    match outcome {
        Ok(result) => tool_response(id, result),
        Err(report) => error_response(id, report.code, report.message),
    }
}

/// What a line that came in comes to.
#[derive(Debug, Clone, PartialEq, Eq)]
pub enum LineStep {
    /// The line is blank.
    Ignore,
    /// The line is answered as it stands.
    Reply(Json),
    /// The line holds a message.
    Message(Json),
}

/// What a `LineStep` holds.
pub enum LineStepView {
    Ignore,
    Reply(JsonView),
    Message(JsonView),
}

impl View for LineStep {
    type V = LineStepView;

    open spec fn view(&self) -> LineStepView {
        match self {
            LineStep::Ignore => LineStepView::Ignore,
            LineStep::Reply(response) => LineStepView::Reply(response@),
            LineStep::Message(message) => LineStepView::Message(message@),
        }
    }
}

/// What a line that was read as JSON comes to.
pub open spec fn read_step(outcome: std::result::Result<JsonView, Seq<char>>) -> LineStepView {
    match outcome {
        Ok(message) => LineStepView::Message(message),
        Err(reason) => LineStepView::Reply(
            error_answer(JsonView::Null, PARSE_ERROR, "parse error: "@ + reason),
        ),
    }
}

/// What a line comes to.
pub open spec fn line_step(line: Seq<char>) -> LineStepView {
    if trimmed(line).len() == 0 {
        LineStepView::Ignore
    } else {
        read_step(parsed(line))
    }
}

/// What a line comes to that was read as JSON, or could not be read for the reason given.
pub fn after_reading(outcome: std::result::Result<Json, String>) -> (r: LineStep)
    ensures
        r@ == (match outcome {
            Ok(message) => read_step(Ok(message@)),
            Err(reason) => read_step(Err(reason@)),
        }),
{
    match outcome {
        Ok(message) => LineStep::Message(message),
        Err(reason) => {
            let mut text = "parse error: ".to_string();
            text.append(reason.as_str());
            LineStep::Reply(error_response(Json::Null, PARSE_ERROR, text))
        },
    }
}

/// What a line that came in comes to.
pub fn handle_line(line: &str) -> (r: LineStep)
    ensures
        r@ == line_step(line@),
{
    if trim(line).as_str().is_empty() {
        return LineStep::Ignore;
    }
    after_reading(parse(line))
}

/// The line that a response goes out as, with its line end.
pub fn response_line(response: &Json) -> (r: String)
    ensures
        r@ == rendered(response@).push('\n'),
        forall|i: int| 0 <= i < r@.len() ==> (#[trigger] r@[i] == '\n' <==> i == r@.len() - 1),
        reads_back(response@) ==> holds(r@.drop_last(), response@),
{
    let mut line = render(response);
    let ghost text = line@;
    line.push('\n');
    assert(line@.drop_last() =~= text);
    line
}

} // verus!
