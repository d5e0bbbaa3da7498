use crate::error::{ErrorView, GrokSearchError};
use crate::json::{filled, lemma_filled, lists, member, plain, views, Json, JsonMap, JsonView};
use crate::json_text::{holds, reads_back, render, rendered, READ_DEPTH};
use crate::logging_laws::{bearer_tokens_masked, client_keys_masked, law_secrets_are_masked};
use crate::text::{
    ascii_lowered, contains, contains_text, end_of_run, find, first_match, from_chars,
    lemma_find_from, lemma_run_end, matches_at, run_end, same, to_ascii_lowercase, to_chars, trim,
    trimmed,
};
use std::sync::Arc;
use vstd::prelude::*;

verus! {

/// How many characters of a query the operator log shows.
pub const REQUEST_LOG_QUERY_MAX: usize = 120;

/// An event of the debug log, with its secrets taken out.
#[derive(Debug, Clone, PartialEq, Eq)]
pub struct DebugEvent {
    pub event: String,
    pub payload: Json,
}

/// A key under which a secret is kept.
pub open spec fn secret_key(key: Seq<char>) -> bool {
    let lowered = ascii_lowered(key);
    ||| contains_text(lowered, "authorization"@)
    ||| contains_text(lowered, "api_key"@)
    ||| contains_text(lowered, "apikey"@)
    ||| contains_text(lowered, "token"@)
    ||| contains_text(lowered, "secret"@)
}

/// A value with `***` in place of every member under a secret key, at any depth.
pub open spec fn redacted(value: JsonView) -> JsonView
    decreases value,
{
    match value {
        JsonView::Object(m) => JsonView::Object(
            Map::new(
                |k: Seq<char>| m.contains_key(k),
                |k: Seq<char>|
                    if !m.contains_key(k) {
                        JsonView::Null
                    } else if secret_key(k) {
                        JsonView::Text("***"@)
                    } else {
                        redacted(m[k])
                    },
            ),
        ),
        JsonView::Array(items) => JsonView::Array(
            Seq::new(
                items.len(),
                |i: int|
                    if 0 <= i < items.len() {
                        redacted(items[i])
                    } else {
                        JsonView::Null
                    },
            ),
        ),
        _ => value,
    }
}

/// No secret is left in a value: what stands under a secret key, at any depth, is `***`.
pub open spec fn free_of_secrets(value: JsonView) -> bool
    decreases value,
{
    match value {
        JsonView::Object(m) => forall|k: Seq<char>| #[trigger]
            m.contains_key(k) ==> {
                &&& secret_key(k) ==> m[k] == JsonView::Text("***"@)
                &&& free_of_secrets(m[k])
            },
        JsonView::Array(items) => forall|i: int|
            0 <= i < items.len() ==> free_of_secrets(#[trigger] items[i]),
        _ => true,
    }
}

/// Whether a key is one under which a secret is kept.
pub fn is_secret_key(key: &str) -> (r: bool)
    ensures
        r == secret_key(key@),
{
    let lowered = to_ascii_lowercase(key);
    contains(lowered.as_str(), "authorization") || contains(lowered.as_str(), "api_key")
        || contains(lowered.as_str(), "apikey") || contains(lowered.as_str(), "token") || contains(
        lowered.as_str(),
        "secret",
    )
}

/// The members of an object, with `***` under each secret key and the other values redacted.
pub open spec fn redacted_members(m: Map<Seq<char>, JsonView>) -> Map<Seq<char>, JsonView> {
    Map::new(
        |k: Seq<char>| m.contains_key(k),
        |k: Seq<char>|
            if secret_key(k) {
                JsonView::Text("***"@)
            } else {
                redacted(m[k])
            },
    )
}

/// What redaction does to an object.
proof fn lemma_redacted_object(m: Map<Seq<char>, JsonView>)
    ensures
        redacted(JsonView::Object(m)) == JsonView::Object(redacted_members(m)),
{
    reveal_with_fuel(redacted, 2);
    assert(redacted(JsonView::Object(m))->Object_0 =~= redacted_members(m));
}

/// What redaction does to an array.
proof fn lemma_redacted_array(items: Seq<JsonView>)
    ensures
        redacted(JsonView::Array(items)) == JsonView::Array(
            items.map_values(|item: JsonView| redacted(item)),
        ),
{
    reveal_with_fuel(redacted, 2);
    assert(redacted(JsonView::Array(items))->Array_0 =~= items.map_values(
        |item: JsonView| redacted(item),
    ));
}

/// A value with its secrets taken out.
pub fn redact_json_value(value: Json) -> (r: Json)
    ensures
        r@ == redacted(value@),
    decreases value@, 1nat,
{
    match value {
        Json::Object(members) => {
            proof {
                lemma_redacted_object(members@);
            }
            Json::object(redact_object(members))
        },
        Json::Array(items) => {
            let ghost all = views(items@);
            proof {
                crate::json::lemma_array_view(items);
                lemma_redacted_array(all);
            }
            let mut out: Vec<Json> = Vec::new();
            for item in it: items
                invariant
                    it.seq() == items@,
                    all == views(items@),
                    value@ == JsonView::Array(all),
                    views(out@) == all.take(it.index() as int).map_values(
                        |item: JsonView| redacted(item),
                    ),
            {
                let ghost i = it.index() as int;
                let ghost before = out@;
                assert(item@ == all[i]);
                assert(decreases_to!(value@ => value@->Array_0));
                assert(decreases_to!(all => all[i]));
                out.push(redact_json_value(item));
                assert(views(out@) =~= views(before).push(redacted(all[i])));
                assert(all.take(i + 1).map_values(|item: JsonView| redacted(item)) =~= all.take(
                    i,
                ).map_values(|item: JsonView| redacted(item)).push(redacted(all[i])));
            }
            assert(all.take(all.len() as int) =~= all);
            Json::array(out)
        },
        other => other,
    }
}

/// The members of an object with their secrets taken out.
fn redact_object(map: JsonMap) -> (r: JsonMap)
    ensures
        r@ == redacted_members(map@),
    decreases JsonView::Object(map@), 0nat,
{
    let ghost m = map@;
    let entries = map.into_entries();
    let ghost kept_members = redacted_members(m);
    let mut out = JsonMap::new();
    proof {
        lemma_filled(kept_members, entries@, 0);
    }
    for entry in it: entries
        invariant
            it.seq() == entries@,
            lists(entries@, m),
            m == map@,
            kept_members == redacted_members(m),
            out@ == filled(kept_members, entries@, it.index() as int),
    {
        let ghost at = it.index() as int;
        assert(entry == entries@[at]);
        let (key, value) = entry;
        assert(m.contains_key(entries@[at].0@));
        assert(decreases_to!(JsonView::Object(m) => JsonView::Object(m)->Object_0));
        assert(decreases_to!(m => m[key@]));
        let kept = if is_secret_key(key.as_str()) {
            Json::text("***")
        } else {
            redact_json_value(value)
        };
        out = out.with(key.as_str(), kept);
        proof {
            lemma_filled(kept_members, entries@, at);
        }
    }
    proof {
        lemma_filled(kept_members, entries@, entries@.len() as int);
    }
    out
}

/// Redaction leaves no secret behind, at any depth.
pub proof fn law_redaction_leaves_no_secret(value: JsonView)
    ensures
        free_of_secrets(redacted(value)),
    decreases value,
{
    match value {
        JsonView::Object(m) => {
            lemma_redacted_object(m);
            let kept = redacted_members(m);
            assert forall|k: Seq<char>| #[trigger] kept.contains_key(k) implies {
                &&& secret_key(k) ==> kept[k] == JsonView::Text("***"@)
                &&& free_of_secrets(kept[k])
            } by {
                assert(m.contains_key(k));
                law_redaction_leaves_no_secret(m[k]);
            }
        },
        JsonView::Array(items) => {
            lemma_redacted_array(items);
            let kept = items.map_values(|item: JsonView| redacted(item));
            assert forall|i: int| 0 <= i < kept.len() implies free_of_secrets(
                #[trigger] kept[i],
            ) by {
                law_redaction_leaves_no_secret(items[i]);
            }
        },
        _ => {},
    }
}

/// A value without secrets is kept as it is.
pub proof fn law_redaction_keeps_the_rest(value: JsonView)
    requires
        free_of_secrets(value),
    ensures
        redacted(value) == value,
    decreases value,
{
    match value {
        JsonView::Object(m) => {
            lemma_redacted_object(m);
            let kept = redacted_members(m);
            assert forall|k: Seq<char>| m.contains_key(k) implies #[trigger] kept[k] == m[k] by {
                law_redaction_keeps_the_rest(m[k]);
            }
            assert(kept =~= m);
        },
        JsonView::Array(items) => {
            lemma_redacted_array(items);
            let kept = items.map_values(|item: JsonView| redacted(item));
            assert forall|i: int| 0 <= i < items.len() implies #[trigger] kept[i] == items[i] by {
                law_redaction_keeps_the_rest(items[i]);
            }
            assert(kept =~= items);
        },
        _ => {},
    }
}

/// Redacting twice is redacting once.
pub proof fn law_redaction_is_idempotent(value: JsonView)
    ensures
        redacted(redacted(value)) == redacted(value),
{
    law_redaction_leaves_no_secret(value);
    law_redaction_keeps_the_rest(redacted(value));
}

/// Redaction takes no key away and adds none, and a member under a key that is not secret
/// is the redacted member.
pub proof fn law_redaction_keeps_keys(value: JsonView, key: Seq<char>)
    ensures
        member(redacted(value), key) is Some <==> member(value, key) is Some,
        member(value, key) is Some && !secret_key(key) ==> member(redacted(value), key) == Some(
            redacted(member(value, key)->0),
        ),
{
    if let JsonView::Object(m) = value {
        lemma_redacted_object(m);
    }
}

/// The JSON object that an event of the debug log is written as.
pub open spec fn event_json(event: Seq<char>, payload: JsonView) -> JsonView {
    JsonView::Object(
        Map::empty().insert("event"@, JsonView::Text(event)).insert("payload"@, payload),
    )
}

impl DebugEvent {
    /// An event whose payload has its secrets taken out.
    pub fn new(event: &str, payload: Json) -> (r: DebugEvent)
        ensures
            r.event@ == event@,
            r.payload@ == redacted(payload@),
            free_of_secrets(r.payload@),
    {
        proof {
            law_redaction_leaves_no_secret(payload@);
        }
        DebugEvent { event: event.to_string(), payload: redact_json_value(payload) }
    }

    /// The line that the event is in the debug log, from which the event can be read back.
    pub fn jsonl_line(&self) -> (r: String)
        ensures
            r@ == rendered(event_json(self.event@, self.payload@)),
            forall|i: int| 0 <= i < r@.len() ==> #[trigger] r@[i] != '\n' && r@[i] != '\r',
            reads_back(event_json(self.event@, self.payload@)) ==> holds(
                r@,
                event_json(self.event@, self.payload@),
            ),
    {
        let json = Json::object(
            JsonMap::new().with("event", Json::text(self.event.as_str())).with(
                "payload",
                self.payload.clone(),
            ),
        );
        render(&json)
    }
}

/// Redaction makes no value harder to read back: it adds no number and nests nothing deeper.
pub proof fn law_redaction_keeps_plain(value: JsonView, depth: nat)
    requires
        plain(value, depth),
    ensures
        plain(redacted(value), depth),
    decreases depth,
{
    match value {
        JsonView::Object(m) => {
            lemma_redacted_object(m);
            let kept = redacted_members(m);
            assert forall|k: Seq<char>| #[trigger] kept.contains_key(k) implies plain(
                kept[k],
                (depth - 1) as nat,
            ) by {
                assert(m.contains_key(k));
                law_redaction_keeps_plain(m[k], (depth - 1) as nat);
            }
        },
        JsonView::Array(items) => {
            lemma_redacted_array(items);
            let kept = items.map_values(|item: JsonView| redacted(item));
            assert forall|i: int| 0 <= i < kept.len() implies plain(
                #[trigger] kept[i],
                (depth - 1) as nat,
            ) by {
                law_redaction_keeps_plain(items[i], (depth - 1) as nat);
            }
        },
        _ => {},
    }
}

/// The event whose payload is given with its secrets taken out can be read back from its line
/// in the debug log, where the payload has no other numbers than integers and is nested less
/// deep than JSON text can be.
pub proof fn law_event_reads_back(event: Seq<char>, payload: JsonView)
    requires
        plain(payload, (READ_DEPTH - 1) as nat),
    ensures
        reads_back(event_json(event, redacted(payload))),
{
    let inner = (READ_DEPTH - 1) as nat;
    law_redaction_keeps_plain(payload, inner);
    assert(plain(JsonView::Text(event), inner));
    if let JsonView::Object(m) = event_json(event, redacted(payload)) {
        assert forall|k: Seq<char>| #[trigger] m.contains_key(k) implies plain(m[k], inner) by {
            assert(k == "event"@ || k == "payload"@);
        }
    }
}

/// What can fail when an event is appended to the debug log.
#[derive(Debug, Clone, Copy, PartialEq, Eq)]
pub enum AppendStep {
    /// The log's directory is made.
    CreateDirectory,
    /// The log is opened.
    Open,
    /// The line is written.
    Write,
}

/// The words that an error begins with that comes of a step.
pub open spec fn append_failure_text(step: AppendStep) -> Seq<char> {
    match step {
        AppendStep::CreateDirectory => "create log dir failed: "@,
        AppendStep::Open => "open log failed: "@,
        AppendStep::Write => "write log failed: "@,
    }
}

/// The error that a failed step of appending an event comes to.
pub fn append_failure(step: AppendStep, reason: &str) -> (r: GrokSearchError)
    ensures
        r@ == ErrorView::Provider(append_failure_text(step) + reason@),
{
    let mut message = match step {
        AppendStep::CreateDirectory => "create log dir failed: ".to_string(),
        AppendStep::Open => "open log failed: ".to_string(),
        AppendStep::Write => "write log failed: ".to_string(),
    };
    message.append(reason);
    GrokSearchError::Provider(message)
}

/// A text with a space in place of every line end.
pub open spec fn one_line(s: Seq<char>) -> Seq<char> {
    s.map_values(
        |c: char|
            if c == '\n' || c == '\r' {
                ' '
            } else {
                c
            },
    )
}

/// A query cut to what the log shows of it.
pub open spec fn shortened(key: Seq<char>, s: Seq<char>) -> Seq<char> {
    if key == "query"@ && s.len() > REQUEST_LOG_QUERY_MAX {
        s.take(REQUEST_LOG_QUERY_MAX as int).push('\u{2026}')
    } else {
        s
    }
}

/// A text with its bearer tokens masked: `***` in place of the run of characters other than
/// white space behind every `Bearer `.
pub open spec fn bearer_masked(s: Seq<char>) -> Seq<char>
    decreases s.len(),
{
    match first_match(s, "Bearer "@) {
        Some(i) => {
            let from = i + "Bearer "@.len();
            proof {
                lemma_token_found(s);
            }
            s.take(from) + "***"@ + bearer_masked(s.skip(run_end(s, from)))
        },
        None => s,
    }
}

/// A text with its client keys masked: `g2a_***` in place of the run of characters other than
/// white space from every `g2a_` on.
pub open spec fn client_key_masked(s: Seq<char>) -> Seq<char>
    decreases s.len(),
{
    match first_match(s, "g2a_"@) {
        Some(i) => {
            proof {
                lemma_key_found(s);
            }
            s.take(i) + "g2a_***"@ + client_key_masked(s.skip(run_end(s, i)))
        },
        None => s,
    }
}

/// A text with its bearer tokens and its client keys masked.
pub open spec fn secrets_masked(s: Seq<char>) -> Seq<char> {
    client_key_masked(bearer_masked(s))
}

/// A bearer token stands behind the first `Bearer `, up to the end of its run.
pub proof fn lemma_token_found(s: Seq<char>)
    ensures
        first_match(s, "Bearer "@) matches Some(i) ==> {
            &&& matches_at(s, "Bearer "@, i)
            &&& "Bearer "@.len() == 7
            &&& 0 <= i
            &&& i + 7 <= run_end(s, i + 7) <= s.len()
        },
{
    reveal_strlit("Bearer ");
    lemma_find_from(s, "Bearer "@, 0);
    if let Some(i) = first_match(s, "Bearer "@) {
        lemma_run_end(s, i + 7);
    }
}

/// A client key goes on from the first `g2a_`, up to the end of its run.
pub proof fn lemma_key_found(s: Seq<char>)
    ensures
        first_match(s, "g2a_"@) matches Some(i) ==> {
            &&& matches_at(s, "g2a_"@, i)
            &&& 0 <= i
            &&& i + 4 <= run_end(s, i) <= s.len()
        },
{
    reveal_strlit("g2a_");
    lemma_find_from(s, "g2a_"@, 0);
    if let Some(i) = first_match(s, "g2a_"@) {
        lemma_run_end(s, i);
        let e = run_end(s, i);
        if e < i + 4 {
            assert(s[e] == s.subrange(i, i + 4)[e - i]);
            assert(s[e] == "g2a_"@[e - i]);
        }
    }
}

/// A value as the log shows it under `key`, before its secrets are masked.
pub open spec fn shown(key: Seq<char>, value: Seq<char>) -> Seq<char> {
    shortened(key, trimmed(one_line(value)))
}

/// A value as the log shows it under `key`.
pub open spec fn sanitized(key: Seq<char>, value: Seq<char>) -> Seq<char> {
    secrets_masked(shown(key, value))
}

/// The fields of a log line.
pub open spec fn fields_text(fields: Seq<(Seq<char>, Seq<char>)>) -> Seq<char>
    decreases fields.len(),
{
    if fields.len() == 0 {
        Seq::empty()
    } else {
        let (key, value) = fields.last();
        fields_text(fields.drop_last()) + seq![' '] + one_line(key) + seq!['='] + sanitized(
            key,
            value,
        )
    }
}

/// A record of the operator log: one line, whatever it is made of.
pub open spec fn log_line(
    sid: Seq<char>,
    phase: Seq<char>,
    fields: Seq<(Seq<char>, Seq<char>)>,
) -> Seq<char> {
    "grok-search-rs: sid="@ + one_line(sid) + " phase="@ + one_line(phase) + fields_text(fields)
}

/// The texts of a run of fields.
pub open spec fn field_views(fields: Seq<(&str, &str)>) -> Seq<(Seq<char>, Seq<char>)> {
    fields.map_values(|field: (&str, &str)| (field.0@, field.1@))
}

/// The characters with their bearer tokens masked.
fn mask_tokens(chars: Vec<char>) -> (r: Vec<char>)
    ensures
        r@ == bearer_masked(chars@),
{
    let mut done: Vec<char> = Vec::new();
    let mut rest = chars;
    loop
        invariant
            done@ + bearer_masked(rest@) == bearer_masked(chars@),
        decreases rest@.len(),
    {
        let at = match find(&rest, "Bearer ") {
            Some(at) => at,
            None => {
                done.append(&mut rest);
                return done;
            },
        };
        proof {
            lemma_token_found(rest@);
        }
        let ghost before = rest@;
        let ghost lead = done@;
        let total: usize = rest.len();
        let from: usize = at + "Bearer ".unicode_len();
        assert(from <= total);
        let to = end_of_run(&rest, from);
        let tail = rest.split_off(to);
        rest.truncate(from);
        done.append(&mut rest);
        let mut mask = to_chars("***");
        done.append(&mut mask);
        rest = tail;
        assert(rest@ =~= before.skip(to as int));
        assert(done@ =~= lead + (before.take(from as int) + "***"@));
        assert(lead + bearer_masked(before) =~= done@ + bearer_masked(rest@));
    }
}

/// The characters with their client keys masked.
fn mask_keys(chars: Vec<char>) -> (r: Vec<char>)
    ensures
        r@ == client_key_masked(chars@),
{
    let mut done: Vec<char> = Vec::new();
    let mut rest = chars;
    loop
        invariant
            done@ + client_key_masked(rest@) == client_key_masked(chars@),
        decreases rest@.len(),
    {
        let at = match find(&rest, "g2a_") {
            Some(at) => at,
            None => {
                done.append(&mut rest);
                return done;
            },
        };
        proof {
            lemma_key_found(rest@);
        }
        let ghost before = rest@;
        let ghost lead = done@;
        let to = end_of_run(&rest, at);
        let tail = rest.split_off(to);
        rest.truncate(at);
        done.append(&mut rest);
        let mut mask = to_chars("g2a_***");
        done.append(&mut mask);
        rest = tail;
        assert(rest@ =~= before.skip(to as int));
        assert(done@ =~= lead + (before.take(at as int) + "g2a_***"@));
        assert(lead + client_key_masked(before) =~= done@ + client_key_masked(rest@));
    }
}

/// A text with its bearer tokens and its client keys masked: what follows `Bearer ` becomes
/// `***`, and a word that goes on from `g2a_` becomes `g2a_***`. Neither must ever reach the
/// operator log.
pub fn redact_secret_text(value: &str) -> (r: String)
    ensures
        r@ == secrets_masked(value@),
        client_keys_masked(r@),
        bearer_tokens_masked(r@),
{
    proof {
        law_secrets_are_masked(value@);
    }
    from_chars(&mask_keys(mask_tokens(to_chars(value))))
}

/// A text with a space in place of every line end.
fn collapse_line_ends(value: &str) -> (r: String)
    ensures
        r@ == one_line(value@),
{
    let mut out = String::new();
    for c in it: value.chars()
        invariant
            it.seq() == value@,
            out@ == one_line(value@.take(it.index() as int)),
    {
        let ghost i = it.index() as int;
        if c == '\n' || c == '\r' {
            out.push(' ');
        } else {
            out.push(c);
        }
        assert(one_line(value@.take(i + 1)) =~= one_line(value@.take(i)).push(one_line(value@)[i]));
    }
    assert(value@.take(value@.len() as int) =~= value@);
    out
}

/// A value as the log shows it under `key`: on one line, without white space at its ends, a
/// long query cut, and its secrets masked.
pub fn sanitize_field(key: &str, value: &str) -> (r: String)
    ensures
        r@ == sanitized(key@, value@),
{
    let collapsed = collapse_line_ends(value);
    let collapsed = trim(collapsed.as_str());
    let chars = to_chars(collapsed.as_str());
    if same(key, "query") && chars.len() > REQUEST_LOG_QUERY_MAX {
        let mut cut: Vec<char> = Vec::new();
        for i in 0..REQUEST_LOG_QUERY_MAX
            invariant
                chars@.len() > REQUEST_LOG_QUERY_MAX,
                cut@ == chars@.take(i as int),
        {
            cut.push(chars[i]);
            assert(chars@.take(i + 1) =~= chars@.take(i as int).push(chars@[i as int]));
        }
        cut.push('\u{2026}');
        redact_secret_text(from_chars(&cut).as_str())
    } else {
        redact_secret_text(collapsed.as_str())
    }
}

/// A line of the operator log: `grok-search-rs: sid=.. phase=.. key=value ..`
pub fn format_request_log(sid: &str, phase: &str, fields: &[(&str, &str)]) -> (r: String)
    ensures
        r@ == log_line(sid@, phase@, field_views(fields@)),
{
    let mut out = "grok-search-rs: sid=".to_string();
    out.append(collapse_line_ends(sid).as_str());
    out.append(" phase=");
    out.append(collapse_line_ends(phase).as_str());
    let ghost head = out@;
    let ghost all = field_views(fields@);
    let n: usize = fields.len();
    assert(head + fields_text(all.take(0)) =~= head);
    for i in 0..n
        invariant
            n == fields@.len(),
            all == field_views(fields@),
            out@ == head + fields_text(all.take(i as int)),
    {
        let (key, value) = fields[i];
        let ghost before = out@;
        out.push(' ');
        out.append(collapse_line_ends(key).as_str());
        out.push('=');
        let shown = sanitize_field(key, value);
        out.append(shown.as_str());
        assert(all[i as int] == (key@, value@));
        assert(all.take(i + 1).drop_last() =~= all.take(i as int));
        assert(out@ =~= head + fields_text(all.take(i + 1)));
    }
    assert(all.take(n as int) =~= all);
    out
}

/// Where the log lines of a thread go: while a capture runs they are kept, otherwise they
/// are for standard error.
pub struct LogSink {
    captured: Option<Vec<String>>,
}

/// The characters of each line of a run.
pub open spec fn line_views(lines: Seq<String>) -> Seq<Seq<char>> {
    lines.map_values(|line: String| line@)
}

impl View for LogSink {
    type V = Option<Seq<Seq<char>>>;

    /// The lines kept since the capture began, while one runs.
    closed spec fn view(&self) -> Option<Seq<Seq<char>>> {
        match self.captured {
            Some(lines) => Some(line_views(lines@)),
            None => None,
        }
    }
}

/// The lines that a sink has kept.
pub open spec fn kept_lines(sink: LogSink) -> Seq<Seq<char>> {
    match sink@ {
        Some(lines) => lines,
        None => Seq::empty(),
    }
}

/// A line was logged: it was kept, where a capture runs, and otherwise handed back to be
/// written to standard error.
pub open spec fn logged(
    before: LogSink,
    after: LogSink,
    unwritten: Option<String>,
    line: Seq<char>,
) -> bool {
    match before@ {
        Some(lines) => after@ == Some(lines.push(line)) && unwritten is None,
        None => after@ is None && unwritten is Some && unwritten->0@ == line,
    }
}

impl LogSink {
    /// A sink without a capture.
    pub fn new() -> (r: LogSink)
        ensures
            r@ is None,
    {
        LogSink { captured: None }
    }

    /// Begin a capture, without the lines of an earlier one.
    pub fn begin_capture(&mut self)
        ensures
            final(self)@ == Some(Seq::<Seq<char>>::empty()),
    {
        let lines: Vec<String> = Vec::new();
        assert(line_views(lines@) =~= Seq::empty());
        self.captured = Some(lines);
    }

    /// End the capture and give its lines, in the order in which they were logged.
    pub fn end_capture(&mut self) -> (r: Vec<String>)
        ensures
            final(self)@ is None,
            line_views(r@) == kept_lines(*old(self)),
    {
        match self.captured.take() {
            Some(lines) => lines,
            None => {
                let lines: Vec<String> = Vec::new();
                assert(line_views(lines@) =~= Seq::empty());
                lines
            },
        }
    }
}

/// Log a line. What comes back is still to be written to standard error.
pub fn emit_request_log(
    sink: &mut LogSink,
    sid: &str,
    phase: &str,
    fields: &[(&str, &str)],
) -> (r: Option<String>)
    ensures
        logged(*old(sink), *final(sink), r, log_line(sid@, phase@, field_views(fields@))),
{
    let line = format_request_log(sid, phase, fields);
    match sink.captured.take() {
        Some(lines) => {
            let mut kept = lines;
            kept.push(line);
            assert(line_views(kept@) =~= line_views(lines@).push(line@));
            sink.captured = Some(kept);
            None
        },
        None => Some(line),
    }
}

/// While a capture runs, two lines logged one after the other are kept in that order, and
/// neither is for standard error.
pub proof fn law_capture_keeps_lines_in_order(
    before: LogSink,
    between: LogSink,
    after: LogSink,
    first_unwritten: Option<String>,
    second_unwritten: Option<String>,
    first: Seq<char>,
    second: Seq<char>,
)
    requires
        before@ is Some,
        logged(before, between, first_unwritten, first),
        logged(between, after, second_unwritten, second),
    ensures
        kept_lines(after) == kept_lines(before).push(first).push(second),
        first_unwritten is None,
        second_unwritten is None,
{
}

/// The request that log lines are about.
#[derive(Debug, Clone)]
pub struct RequestTrace {
    sid: Arc<String>,
}

impl View for RequestTrace {
    type V = Seq<char>;

    /// The request's session id.
    closed spec fn view(&self) -> Seq<char> {
        self.sid@
    }
}

impl RequestTrace {
    pub fn new(sid: &str) -> (r: RequestTrace)
        ensures
            r@ == sid@,
    {
        RequestTrace { sid: Arc::new(sid.to_string()) }
    }

    pub fn sid(&self) -> (r: &str)
        ensures
            r@ == self@,
    {
        self.sid.as_str()
    }

    /// Log a line about this request. What comes back is still to be written to standard
    /// error.
    pub fn emit(&self, sink: &mut LogSink, phase: &str, fields: &[(&str, &str)]) -> (r: Option<
        String,
    >)
        ensures
            logged(*old(sink), *final(sink), r, log_line(self@, phase@, field_views(fields@))),
    {
        emit_request_log(sink, self.sid(), phase, fields)
    }
}

/// Log a line about the current request, if there is one. What comes back is still to be
/// written to standard error.
pub fn emit_current(
    current: Option<&RequestTrace>,
    sink: &mut LogSink,
    phase: &str,
    fields: &[(&str, &str)],
) -> (r: Option<String>)
    ensures
        match current {
            Some(trace) => logged(
                *old(sink),
                *final(sink),
                r,
                log_line(trace@, phase@, field_views(fields@)),
            ),
            None => final(sink)@ == old(sink)@ && r is None,
        },
{
    match current {
        Some(trace) => trace.emit(sink, phase, fields),
        None => None,
    }
}

/// Run `f` with a capture, and give what it returns along with the lines logged meanwhile.
pub fn capture_logs<R, F: FnOnce(&mut LogSink) -> R>(sink: &mut LogSink, f: F) -> (r: (
    R,
    Vec<String>,
))
    requires
        forall|s: &mut LogSink|
            (*s)@ == Some(Seq::<Seq<char>>::empty()) ==> #[trigger] f.requires((s,)),
    ensures
        final(sink)@ is None,
        exists|s: &mut LogSink| #[trigger]
            f.ensures((s,), r.0) && (*s)@ == Some(Seq::<Seq<char>>::empty()) && line_views(r.1@)
                == kept_lines(*final(s)),
{
    sink.begin_capture();
    let ghost before = *sink;
    let out = f(&mut *sink);
    let ghost after = *sink;
    let lines = sink.end_capture();
    proof {
        let s = choose|s: &mut LogSink| #[trigger]
            f.ensures((s,), out) && *s == before && *final(s) == after;
        assert(f.ensures((s,), (out, lines).0));
    }
    (out, lines)
}

} // verus!
