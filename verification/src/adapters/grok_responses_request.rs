use crate::error::{ErrorView, GrokSearchError, Result};
use crate::json::{member, views, Json, JsonMap, JsonView};
use crate::model::search::{
    in_fast_mode, SearchMessage, SearchMessageView, SearchRequest, SearchRequestView, FAST_MODEL,
};
use crate::text::{same, trim, trimmed};
use vstd::prelude::*;

verus! {

/// Texts put one after the other, with `separator` between them.
pub open spec fn joined(texts: Seq<Seq<char>>, separator: Seq<char>) -> Seq<char>
    decreases texts.len(),
{
    if texts.len() == 0 {
        Seq::empty()
    } else if texts.len() == 1 {
        texts[0]
    } else {
        joined(texts.drop_last(), separator) + separator + texts.last()
    }
}

/// The request asks for a search of the web.
pub open spec fn asks_for_web_search(req: SearchRequestView) -> bool {
    exists|i: int| 0 <= i < req.tools.len() && #[trigger] req.tools[i].name == "web_search"@
}

/// One item of the conversation.
pub open spec fn input_item(role: Seq<char>, content: Seq<char>) -> JsonView {
    JsonView::Object(
        Map::empty().insert("role"@, JsonView::Text(role)).insert(
            "content"@,
            JsonView::Text(content),
        ),
    )
}

/// The item that a message becomes: its blocks, one per line.
pub open spec fn message_item(message: SearchMessageView) -> JsonView {
    input_item(message.role, joined(message.content, "\n"@))
}

/// The items that lead the conversation: the system prompt, where there is one.
pub open spec fn system_items(system: Option<Seq<char>>) -> Seq<JsonView> {
    match system {
        Some(prompt) => if trimmed(prompt).len() > 0 {
            seq![input_item("system"@, prompt)]
        } else {
            Seq::empty()
        },
        None => Seq::empty(),
    }
}

/// The items that a run of messages becomes.
pub open spec fn message_items(messages: Seq<SearchMessageView>) -> Seq<JsonView> {
    messages.map_values(|message: SearchMessageView| message_item(message))
}

/// A hosted tool.
pub open spec fn tool_item(kind: Seq<char>) -> JsonView {
    JsonView::Object(Map::empty().insert("type"@, JsonView::Text(kind)))
}

/// The hosted tools that the backend may use.
pub open spec fn tool_items(web_search: bool, x_search: bool) -> Seq<JsonView> {
    let web = if web_search {
        seq![tool_item("web_search"@)]
    } else {
        Seq::empty()
    };
    if x_search {
        web.push(tool_item("x_search"@))
    } else {
        web
    }
}

/// The reasoning effort that is sent, if any.
pub open spec fn effort_sent(req: SearchRequestView) -> Option<Seq<char>> {
    match req.reasoning_effort {
        Some(effort) => if !req.fast && trimmed(effort).len() > 0 {
            Some(trimmed(effort))
        } else {
            None
        },
        None => None,
    }
}

/// The body that is posted to the backend.
pub open spec fn payload(
    req: SearchRequestView,
    require_web_search: bool,
    include_x_search: bool,
) -> JsonView {
    let model = if req.fast {
        FAST_MODEL@
    } else {
        req.model
    };
    let members = Map::empty().insert("model"@, JsonView::Text(model)).insert(
        "input"@,
        JsonView::Array(system_items(req.system) + message_items(req.messages)),
    ).insert(
        "tools"@,
        JsonView::Array(tool_items(require_web_search, include_x_search && !req.fast)),
    ).insert("stream"@, JsonView::Bool(true));
    match effort_sent(req) {
        Some(effort) => JsonView::Object(
            members.insert(
                "reasoning"@,
                JsonView::Object(Map::empty().insert("effort"@, JsonView::Text(effort))),
            ),
        ),
        None => JsonView::Object(members),
    }
}

/// Whether the request asks for a search of the web.
fn has_web_search_tool(req: &SearchRequest) -> (r: bool)
    ensures
        r == asks_for_web_search(req@),
{
    let n: usize = req.tools.len();
    for i in 0..n
        invariant
            n == req.tools@.len(),
            forall|j: int| 0 <= j < i ==> #[trigger] req@.tools[j].name != "web_search"@,
    {
        if same(req.tools[i].name.as_str(), "web_search") {
            assert(req@.tools[i as int].name == "web_search"@);
            return true;
        }
    }
    false
}

/// The text of a message: its blocks, one per line.
fn message_text(message: &SearchMessage) -> (r: String)
    ensures
        r@ == joined(message@.content, "\n"@),
{
    let ghost content = message@.content;
    let mut out = String::new();
    let n: usize = message.content.len();
    assert(content.take(0) =~= Seq::empty());
    for i in 0..n
        invariant
            n == message.content@.len(),
            content == message@.content,
            out@ == joined(content.take(i as int), "\n"@),
    {
        let ghost next = content.take(i + 1);
        assert(next.drop_last() =~= content.take(i as int));
        if i > 0 {
            out.append("\n");
        }
        out.append(message.content[i].as_text());
        assert(next.last() == message.content@[i as int]@);
        if i == 0 {
            assert(out@ =~= next[0]);
        }
    }
    assert(content.take(n as int) =~= content);
    out
}

/// One item of the conversation.
fn conversation_item(role: &str, content: &str) -> (r: Json)
    ensures
        r@ == input_item(role@, content@),
{
    Json::object(JsonMap::new().with("role", Json::text(role)).with("content", Json::text(content)))
}

/// The body to post to the backend for `req`. It is refused where a search of the web is
/// required and the request does not ask for one.
pub fn to_grok_responses_payload(
    req: &SearchRequest,
    require_web_search: bool,
    include_x_search: bool,
) -> (r: Result<Json>)
    ensures
        match r {
            Ok(body) => {
                &&& require_web_search ==> asks_for_web_search(req@)
                &&& body@ == payload(req@, require_web_search, include_x_search)
            },
            Err(err) => {
                &&& require_web_search && !asks_for_web_search(req@)
                &&& err@ == ErrorView::Parse(
                    "web_search is enabled but request does not include web_search tool intent"@,
                )
            },
        },
{
    if require_web_search && !has_web_search_tool(req) {
        return Err(
            GrokSearchError::Parse(
                "web_search is enabled but request does not include web_search tool intent".to_string(),
            ),
        );
    }
    let mut input: Vec<Json> = Vec::new();
    if let Some(system) = &req.system {
        if !trim(system.as_str()).as_str().is_empty() {
            input.push(conversation_item("system", system.as_str()));
        }
    }
    assert(views(input@) =~= system_items(req@.system));
    let ghost lead = views(input@);
    let n: usize = req.messages.len();
    for i in 0..n
        invariant
            n == req.messages@.len(),
            views(input@) == lead + message_items(req@.messages.take(i as int)),
    {
        let text = message_text(&req.messages[i]);
        let ghost before = input@;
        input.push(conversation_item(req.messages[i].role.as_str(), text.as_str()));
        assert(views(input@) =~= views(before).push(message_item(req@.messages[i as int])));
        assert(message_items(req@.messages.take(i + 1)) =~= message_items(
            req@.messages.take(i as int),
        ).push(message_item(req@.messages[i as int])));
        assert(views(input@) =~= lead + message_items(req@.messages.take(i + 1)));
    }
    assert(req@.messages.take(n as int) =~= req@.messages);

    // The fast channel searches natively and turns a request with `x_search` down.
    let with_x_search = include_x_search && !req.fast;
    let mut tools: Vec<Json> = Vec::new();
    if require_web_search {
        tools.push(Json::object(JsonMap::new().with("type", Json::text("web_search"))));
    }
    if with_x_search {
        tools.push(Json::object(JsonMap::new().with("type", Json::text("x_search"))));
    }
    assert(views(tools@) =~= tool_items(require_web_search, with_x_search));

    let model = if req.fast {
        FAST_MODEL
    } else {
        req.model.as_str()
    };
    let mut body = JsonMap::new().with("model", Json::text(model)).with(
        "input",
        Json::array(input),
    ).with("tools", Json::array(tools)).with("stream", Json::Bool(true));
    if !req.fast {
        if let Some(effort) = &req.reasoning_effort {
            let effort = trim(effort.as_str());
            if !effort.as_str().is_empty() {
                body =
                body.with(
                    "reasoning",
                    Json::object(JsonMap::new().with("effort", Json::text(effort.as_str()))),
                );
            }
        }
    }
    Ok(Json::object(body))
}

/// The keys of a body are five different texts.
pub proof fn lemma_body_keys()
    ensures
        "model"@ != "input"@,
        "model"@ != "tools"@,
        "model"@ != "stream"@,
        "model"@ != "reasoning"@,
        "input"@ != "tools"@,
        "input"@ != "stream"@,
        "input"@ != "reasoning"@,
        "tools"@ != "stream"@,
        "tools"@ != "reasoning"@,
        "stream"@ != "reasoning"@,
{
    reveal_strlit("model");
    reveal_strlit("input");
    reveal_strlit("tools");
    reveal_strlit("stream");
    reveal_strlit("reasoning");
    assert("model"@[0] == 'm');
    assert("input"@[0] == 'i');
    assert("tools"@[0] == 't');
    assert("stream"@.len() == 6);
    assert("reasoning"@.len() == 9);
}

/// Every body asks for a stream.
pub proof fn law_body_asks_for_stream(
    req: SearchRequestView,
    require_web_search: bool,
    include_x_search: bool,
)
    ensures
        member(payload(req, require_web_search, include_x_search), "stream"@) == Some(
            JsonView::Bool(true),
        ),
{
    lemma_body_keys();
}

/// Fast mode pins the model and sends neither a reasoning effort nor the `x_search` tool,
/// whatever else is configured.
pub proof fn law_fast_mode_is_bare(
    req: SearchRequestView,
    require_web_search: bool,
    include_x_search: bool,
)
    requires
        req.fast,
    ensures
        member(payload(req, require_web_search, include_x_search), "model"@) == Some(
            JsonView::Text(FAST_MODEL@),
        ),
        member(payload(req, require_web_search, include_x_search), "reasoning"@) is None,
        member(payload(req, require_web_search, include_x_search), "tools"@) == Some(
            JsonView::Array(tool_items(require_web_search, false)),
        ),
        !tool_items(require_web_search, false).contains(tool_item("x_search"@)),
{
    lemma_body_keys();
    let offered = tool_items(require_web_search, false);
    if offered.contains(tool_item("x_search"@)) {
        let i = choose|i: int| 0 <= i < offered.len() && offered[i] == tool_item("x_search"@);
        assert(offered[i] == tool_item("web_search"@));
        assert(member(tool_item("x_search"@), "type"@) == Some(JsonView::Text("x_search"@)));
        assert(member(tool_item("web_search"@), "type"@) == Some(JsonView::Text("web_search"@)));
        reveal_strlit("x_search");
        reveal_strlit("web_search");
        assert("x_search"@.len() == 8);
        assert("web_search"@.len() == 10);
    }
}

/// Outside fast mode the body names the request's own model, and it has a reasoning effort
/// exactly where the request states one that is not blank.
pub proof fn law_standard_mode_keeps_model_and_effort(
    req: SearchRequestView,
    require_web_search: bool,
    include_x_search: bool,
)
    requires
        !req.fast,
    ensures
        member(payload(req, require_web_search, include_x_search), "model"@) == Some(
            JsonView::Text(req.model),
        ),
        member(payload(req, require_web_search, include_x_search), "tools"@) == Some(
            JsonView::Array(tool_items(require_web_search, include_x_search)),
        ),
        member(payload(req, require_web_search, include_x_search), "reasoning"@) is Some <==> (
        req.reasoning_effort is Some && trimmed(req.reasoning_effort->0).len() > 0),
{
    lemma_body_keys();
}

/// Pinning a request to fast mode a second time changes nothing, and the body of a pinned
/// request is that of the request with its fast flag set.
pub proof fn law_fast_mode_is_idempotent(
    req: SearchRequestView,
    require_web_search: bool,
    include_x_search: bool,
)
    ensures
        in_fast_mode(in_fast_mode(req)) == in_fast_mode(req),
        payload(in_fast_mode(req), require_web_search, include_x_search) == payload(
            (SearchRequestView { fast: true, ..req }),
            require_web_search,
            include_x_search,
        ),
        asks_for_web_search(in_fast_mode(req)) == asks_for_web_search(req),
{
}

} // verus!
