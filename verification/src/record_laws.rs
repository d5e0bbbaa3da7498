use crate::error::{ErrorView, GrokSearchError};
use crate::json::{member, Json, JsonView};
use crate::logging::{
    append_failure, bearer_masked, client_key_masked, emit_current, emit_request_log, event_json,
    field_views, line_views, fields_text,
    format_request_log, free_of_secrets, is_secret_key, kept_lines, log_line, logged, one_line, redact_json_value, redact_secret_text, redacted,
    sanitize_field, sanitized, secret_key, secrets_masked, shown, AppendStep, DebugEvent, LogSink,
    RequestTrace,
};
use crate::text::{
    ascii_lowered, contains_text, first_match, lemma_find_from, lemma_run_end,
    matches_at, run_end, trimmed, white_space,
};
use crate::text_laws::{law_contains, law_lower_case_folds};
use vstd::prelude::*;

verus! {

/// A key, in lower case, holds one of the words that mark a secret.
pub open spec fn marks_a_secret(key: Seq<char>) -> bool {
    ||| contains_text(ascii_lowered(key), "authorization"@)
    ||| contains_text(ascii_lowered(key), "api_key"@)
    ||| contains_text(ascii_lowered(key), "apikey"@)
    ||| contains_text(ascii_lowered(key), "token"@)
    ||| contains_text(ascii_lowered(key), "secret"@)
}

/// A key is secret where it holds `authorization`, `api_key`, `apikey`, `token` or `secret`,
/// and only there.
pub proof fn law_secret_keys(key: &str, r: bool)
    requires
        call_ensures(is_secret_key, (key,), r),
    ensures
        contains_text(ascii_lowered(key@), "authorization"@) ==> r,
        contains_text(ascii_lowered(key@), "api_key"@) ==> r,
        contains_text(ascii_lowered(key@), "apikey"@) ==> r,
        contains_text(ascii_lowered(key@), "token"@) ==> r,
        contains_text(ascii_lowered(key@), "secret"@) ==> r,
        r ==> marks_a_secret(key@),
{
}

/// A word that marks a secret marks it wherever in a key it stands, and in whatever case.
pub proof fn law_secret_words_count_anywhere(before: Seq<char>, word: Seq<char>, behind: Seq<char>)
    requires
        ascii_lowered(word) == "authorization"@ || ascii_lowered(word) == "api_key"@
            || ascii_lowered(word) == "apikey"@ || ascii_lowered(word) == "token"@
            || ascii_lowered(word) == "secret"@,
    ensures
        secret_key(before + word + behind),
{
    let key = before + word + behind;
    assert(ascii_lowered(key) =~= ascii_lowered(before) + ascii_lowered(word) + ascii_lowered(
        behind,
    ));
    law_contains(ascii_lowered(key), ascii_lowered(word));
}

/// Redaction puts `***` under every key that marks a secret, goes into every other member and
/// into every item, takes nothing away, and leaves every other value as it is.
pub proof fn law_redaction(value: JsonView)
    ensures
        match (value, redacted(value)) {
            (JsonView::Object(m), JsonView::Object(kept)) => forall|k: Seq<char>|
                {
                    &&& #[trigger] kept.contains_key(k) <==> m.contains_key(k)
                    &&& m.contains_key(k) && marks_a_secret(k) ==> kept[k] == JsonView::Text("***"@)
                    &&& m.contains_key(k) && !marks_a_secret(k) ==> kept[k] == redacted(m[k])
                },
            (JsonView::Array(items), JsonView::Array(kept)) => kept.len() == items.len() && forall|
                i: int,
            | 0 <= i < items.len() ==> #[trigger] kept[i] == redacted(items[i]),
            (JsonView::Object(_), _) => false,
            (JsonView::Array(_), _) => false,
            (_, kept) => kept == value,
        },
{
    reveal_with_fuel(redacted, 2);
}

/// `redact_json_value` redacts.
pub proof fn law_redact_json_value(value: Json, r: Json)
    requires
        call_ensures(redact_json_value, (value,), r),
    ensures
        r@ == redacted(value@),
        forall|k: Seq<char>|
            member(value@, k) is Some && marks_a_secret(k) ==> #[trigger] member(r@, k) == Some(
                JsonView::Text("***"@),
            ),
        forall|k: Seq<char>|
            member(value@, k) is Some && !marks_a_secret(k) ==> #[trigger] member(r@, k) == Some(
                redacted(member(value@, k)->0),
            ),
        forall|k: Seq<char>| member(value@, k) is None ==> #[trigger] member(r@, k) is None,
{
    law_redaction(value@);
    assert forall|k: Seq<char>| member(value@, k) is Some implies #[trigger] member(r@, k) is Some by {
        assert((r@->Object_0).contains_key(k));
    }
}

/// A member whose key, in lower case, holds `authorization`, `api_key`, `apikey`, `token` or
/// `secret` is `***` after redaction, whatever it was.
pub proof fn law_member_under_secret_key(value: JsonView, key: Seq<char>)
    requires
        member(value, key) is Some,
        contains_text(ascii_lowered(key), "authorization"@) || contains_text(
            ascii_lowered(key),
            "api_key"@,
        ) || contains_text(ascii_lowered(key), "apikey"@) || contains_text(
            ascii_lowered(key),
            "token"@,
        ) || contains_text(ascii_lowered(key), "secret"@),
    ensures
        member(redacted(value), key) == Some(JsonView::Text("***"@)),
{
    law_redaction(value);
    assert((redacted(value)->Object_0).contains_key(key));
}

/// A member whose key, in lower case, holds none of these words is kept, with the secrets in it
/// taken out.
pub proof fn law_member_under_other_key(value: JsonView, key: Seq<char>)
    requires
        member(value, key) is Some,
        !contains_text(ascii_lowered(key), "authorization"@),
        !contains_text(ascii_lowered(key), "api_key"@),
        !contains_text(ascii_lowered(key), "apikey"@),
        !contains_text(ascii_lowered(key), "token"@),
        !contains_text(ascii_lowered(key), "secret"@),
    ensures
        member(redacted(value), key) == Some(redacted(member(value, key)->0)),
{
    law_redaction(value);
    assert((redacted(value)->Object_0).contains_key(key));
}

/// What stands under one of the words themselves is gone.
pub proof fn law_plain_secret_keys(value: JsonView, key: Seq<char>)
    requires
        key == "authorization"@ || key == "api_key"@ || key == "apikey"@ || key == "token"@ || key
            == "secret"@,
        member(value, key) is Some,
    ensures
        member(redacted(value), key) == Some(JsonView::Text("***"@)),
{
    reveal_strlit("authorization");
    reveal_strlit("api_key");
    reveal_strlit("apikey");
    reveal_strlit("token");
    reveal_strlit("secret");
    law_lower_case_folds(key);
    assert(key =~= Seq::empty() + key + Seq::empty());
    law_secret_words_count_anywhere(Seq::empty(), key, Seq::empty());
    law_contains(ascii_lowered(key), key);
    law_redaction(value);
    assert((redacted(value)->Object_0).contains_key(key));
}

/// A value is free of secrets where, at every depth, what stands under a key that marks a
/// secret is `***`.
pub proof fn law_free_of_secrets(value: JsonView, key: Seq<char>, i: int)
    requires
        free_of_secrets(value),
    ensures
        member(value, key) is Some && marks_a_secret(key) ==> member(value, key) == Some(
            JsonView::Text("***"@),
        ),
        member(value, key) is Some ==> free_of_secrets(member(value, key)->0),
        value is Array && 0 <= i < (value->Array_0).len() ==> free_of_secrets((value->Array_0)[i]),
{
}

/// An event is its name and its payload without its secrets, and is written as these two.
pub proof fn law_event(event: &str, payload: Json, r: DebugEvent, key: Seq<char>)
    requires
        call_ensures(DebugEvent::new, (event, payload), r),
    ensures
        r.event@ == event@,
        r.payload@ == redacted(payload@),
        member(event_json(r.event@, r.payload@), "event"@) == Some(JsonView::Text(event@)),
        member(event_json(r.event@, r.payload@), "payload"@) == Some(redacted(payload@)),
        member(event_json(r.event@, r.payload@), key) is Some ==> key == "event"@ || key
            == "payload"@,
{
    reveal_strlit("event");
    reveal_strlit("payload");
    assert("event"@.len() == 5 && "payload"@.len() == 7);
}

/// The line of an event is the JSON text of its name and its payload.
pub proof fn law_event_line(event: &DebugEvent, r: String)
    requires
        call_ensures(DebugEvent::jsonl_line, (event,), r),
    ensures
        exists|whole: JsonView| #[trigger]
            crate::json_text::rendered(whole) == r@ && member(whole, "event"@) == Some(
                JsonView::Text(event.event@),
            ) && member(whole, "payload"@) == Some(event.payload@) && (forall|k: Seq<char>|
                #[trigger]
                member(whole, k) is Some ==> k == "event"@ || k == "payload"@),
{
    reveal_strlit("event");
    reveal_strlit("payload");
    assert("event"@.len() == 5 && "payload"@.len() == 7);
    let whole = event_json(event.event@, event.payload@);
    assert(crate::json_text::rendered(whole) == r@);
}

/// A failed step of appending an event is a provider's error that names the step.
pub proof fn law_append_failure(step: AppendStep, reason: &str, r: GrokSearchError)
    requires
        call_ensures(append_failure, (step, reason), r),
    ensures
        step is CreateDirectory ==> r@ == ErrorView::Provider("create log dir failed: "@ + reason@),
        step is Open ==> r@ == ErrorView::Provider("open log failed: "@ + reason@),
        step is Write ==> r@ == ErrorView::Provider("write log failed: "@ + reason@),
{
}

/// A text on one line has a space for every line feed and every carriage return, and every
/// other character as it was.
pub proof fn law_one_line(s: Seq<char>)
    ensures
        one_line(s).len() == s.len(),
        forall|i: int|
            0 <= i < s.len() ==> #[trigger] one_line(s)[i] == (if s[i] == '\n' || s[i] == '\r' {
                ' '
            } else {
                s[i]
            }),
{
}

/// The log shows a value on one line and trimmed, all of it, but of a query no more than its
/// first hundred and twenty characters and a mark that there were more.
pub proof fn law_shown(key: Seq<char>, value: Seq<char>)
    ensures
        ({
            let whole = trimmed(one_line(value));
            &&& key != "query"@ ==> shown(key, value) == whole
            &&& whole.len() <= 120 ==> shown(key, value) == whole
            &&& key == "query"@ && whole.len() > 120 ==> shown(key, value) == whole.take(120) + seq![
                '\u{2026}',
            ]
        }),
{
    let whole = trimmed(one_line(value));
    if key == "query"@ && whole.len() > 120 {
        assert(shown(key, value) =~= whole.take(120) + seq!['\u{2026}']);
    }
}

/// What the log shows of a value has its secrets masked, and nothing else is changed: a value
/// that holds neither `Bearer ` nor `g2a_` is shown as it is.
pub proof fn law_sanitize_field(key: &str, value: &str, r: String)
    requires
        call_ensures(sanitize_field, (key, value), r),
    ensures
        r@ == secrets_masked(shown(key@, value@)),
        !contains_text(shown(key@, value@), "Bearer "@) && !contains_text(
            shown(key@, value@),
            "g2a_"@,
        ) ==> r@ == shown(key@, value@),
{
    lemma_find_from(shown(key@, value@), "Bearer "@, 0);
    lemma_find_from(shown(key@, value@), "g2a_"@, 0);
    law_unmarked_is_kept(shown(key@, value@));
}

/// `redact_secret_text` masks the bearer tokens and then the client keys.
pub proof fn law_redact_secret_text(value: &str, r: String)
    requires
        call_ensures(redact_secret_text, (value,), r),
    ensures
        r@ == client_key_masked(bearer_masked(value@)),
{
}

/// A text without the mark of a secret is kept as it is.
pub proof fn law_unmarked_is_kept(s: Seq<char>)
    ensures
        !contains_text(s, "Bearer "@) ==> bearer_masked(s) == s,
        !contains_text(s, "g2a_"@) ==> client_key_masked(s) == s,
{
    lemma_find_from(s, "Bearer "@, 0);
    lemma_find_from(s, "g2a_"@, 0);
}

/// A word: characters other than white space, up to where white space or the end follows.
pub open spec fn is_word_before(word: Seq<char>, rest: Seq<char>) -> bool {
    &&& forall|i: int| 0 <= i < word.len() ==> !white_space(#[trigger] word[i])
    &&& rest.len() > 0 ==> white_space(rest[0])
}

/// A run that is a word ends where the word ends.
proof fn lemma_run_of_word(s: Seq<char>, from: int, word: Seq<char>, rest: Seq<char>)
    requires
        0 <= from,
        from + word.len() + rest.len() == s.len(),
        s.subrange(from, from + word.len()) == word,
        s.skip((from + word.len()) as int) == rest,
        is_word_before(word, rest),
    ensures
        run_end(s, from) == from + word.len(),
{
    lemma_run_end(s, from);
    let e = run_end(s, from);
    let end = from + word.len();
    if e < end {
        assert(s[e] == word[e - from]);
    }
    if e > end {
        assert(s[end] == rest[0]);
    }
}

/// A mark whose first character does not come again in it is first found where it first stands.
proof fn lemma_first_mark(before: Seq<char>, mark: Seq<char>, behind: Seq<char>)
    requires
        mark.len() > 0,
        forall|i: int| 0 < i < mark.len() ==> #[trigger] mark[i] != mark[0],
        !contains_text(before, mark),
    ensures
        first_match(before + mark + behind, mark) == Some(before.len() as int),
{
    let s = before + mark + behind;
    let at = before.len() as int;
    let n = mark.len() as int;
    lemma_find_from(s, mark, 0);
    assert(s.subrange(at, at + n) =~= mark);
    assert(matches_at(s, mark, at));
    let found = first_match(s, mark)->0;
    if found < at {
        assert(s.subrange(found, found + n) == mark);
        if found + n <= at {
            assert(before.subrange(found, found + n) =~= s.subrange(found, found + n));
            assert(matches_at(before, mark, found));
        } else {
            assert(s.subrange(found, found + n)[at - found] == s[at]);
            assert(mark[at - found] == mark[0]);
        }
    }
}

/// What follows the first `Bearer ` of a text, up to white space or the end, is masked with
/// three stars; what stands before it is kept, and what stands behind it is masked on.
pub proof fn law_bearer_token(before: Seq<char>, token: Seq<char>, rest: Seq<char>)
    requires
        !contains_text(before, "Bearer "@),
        is_word_before(token, rest),
    ensures
        bearer_masked(before + "Bearer "@ + token + rest) == before + "Bearer "@ + "***"@
            + bearer_masked(rest),
{
    let mark = "Bearer "@;
    let s = before + mark + token + rest;
    let from = before.len() + 7;
    assert(mark.len() == 7 && forall|i: int|
        0 < i < mark.len() ==> #[trigger] mark[i] != mark[0]) by {
        reveal_strlit("Bearer ");
    }
    lemma_first_mark(before, mark, token + rest);
    assert(before + mark + (token + rest) =~= s);
    assert(s.subrange(from as int, (from + token.len()) as int) =~= token);
    assert(s.skip((from + token.len()) as int) =~= rest);
    lemma_run_of_word(s, from as int, token, rest);
    assert(s.take(from as int) =~= before + mark);
}

/// A word that goes on from the first `g2a_` of a text, up to white space or the end, becomes
/// `g2a_***`; what stands before it is kept, and what stands behind it is masked on.
pub proof fn law_client_key(before: Seq<char>, key: Seq<char>, rest: Seq<char>)
    requires
        !contains_text(before, "g2a_"@),
        is_word_before(key, rest),
    ensures
        client_key_masked(before + "g2a_"@ + key + rest) == before + "g2a_***"@
            + client_key_masked(rest),
{
    let mark = "g2a_"@;
    let s = before + mark + key + rest;
    let at = before.len();
    let word = mark + key;
    assert(mark.len() == 4 && is_word_before(word, rest) && forall|i: int|
        0 < i < mark.len() ==> #[trigger] mark[i] != mark[0]) by {
        reveal_strlit("g2a_");
    }
    lemma_first_mark(before, mark, key + rest);
    assert(before + mark + (key + rest) =~= s);
    assert(s.subrange(at as int, (at + word.len()) as int) =~= word);
    assert(s.skip((at + word.len()) as int) =~= rest);
    lemma_run_of_word(s, at as int, word, rest);
    assert(s.take(at as int) =~= before);
}

/// A record begins with the service's name, the session and the phase, each on one line.
pub proof fn law_record_begins(sid: &str, phase: &str, fields: &[(&str, &str)], r: String)
    requires
        call_ensures(format_request_log, (sid, phase, fields), r),
    ensures
        fields@.len() == 0 ==> r@ == "grok-search-rs: sid="@ + one_line(sid@) + " phase="@
            + one_line(phase@),
        r@ == log_line(sid@, phase@, field_views(fields@)),
        field_views(fields@).len() == fields@.len(),
        forall|i: int|
            0 <= i < fields@.len() ==> #[trigger] field_views(fields@)[i] == (
                fields@[i].0@,
                fields@[i].1@,
            ),
{
    if fields@.len() == 0 {
        assert(r@ =~= "grok-search-rs: sid="@ + one_line(sid@) + " phase="@ + one_line(phase@));
    }
}

/// Every field that is added to a record stands at its end, behind a space: its key on one
/// line, an equals sign, and its value as the log shows it.
pub proof fn law_record_grows(
    sid: Seq<char>,
    phase: Seq<char>,
    fields: Seq<(Seq<char>, Seq<char>)>,
    key: Seq<char>,
    value: Seq<char>,
)
    ensures
        log_line(sid, phase, fields.push((key, value))) == log_line(sid, phase, fields) + seq![' ']
            + one_line(key) + seq!['='] + secrets_masked(shown(key, value)),
{
    let more = fields.push((key, value));
    assert(more.drop_last() =~= fields);
    assert(more.last() == (key, value));
    assert(fields_text(more) == fields_text(fields) + seq![' '] + one_line(key) + seq!['=']
        + sanitized(key, value));
    assert(log_line(sid, phase, more) =~= log_line(sid, phase, fields) + seq![' '] + one_line(key)
        + seq!['='] + secrets_masked(shown(key, value)));
}

/// A line that is logged is kept behind those that were, and goes nowhere else, while a
/// capture runs; otherwise it is handed back, and nothing is kept.
pub proof fn law_logged(
    before: LogSink,
    after: LogSink,
    unwritten: Option<String>,
    line: Seq<char>,
    lines: Seq<Seq<char>>,
)
    requires
        logged(before, after, unwritten, line),
    ensures
        before@ == Some(lines) ==> after@ == Some(lines + seq![line]) && unwritten is None
            && kept_lines(before) == lines,
        before@ is None ==> after@ is None && unwritten is Some && (unwritten->0)@ == line
            && kept_lines(before).len() == 0,
{
    if before@ == Some(lines) {
        assert(lines.push(line) =~= lines + seq![line]);
    }
}

/// A log line of a request is the record of its session, its phase and its fields, and goes
/// where the sink sends it.
pub proof fn law_emit_request_log(sid: &str, phase: &str, fields: &[(&str, &str)])
    ensures
        forall|sink: &mut LogSink, r: Option<String>| #[trigger]
            call_ensures(emit_request_log, (sink, sid, phase, fields), r) ==> logged(
                *sink,
                *final(sink),
                r,
                log_line(sid@, phase@, field_views(fields@)),
            ),
{
}

/// A log line of a trace is the record of the session that the trace is of; a line about the
/// current request is one of its trace, and where there is none nothing is logged.
pub proof fn law_emit_by_trace(trace: &RequestTrace, phase: &str, fields: &[(&str, &str)])
    ensures
        forall|sink: &mut LogSink, r: Option<String>| #[trigger]
            call_ensures(RequestTrace::emit, (trace, sink, phase, fields), r) ==> logged(
                *sink,
                *final(sink),
                r,
                log_line(trace@, phase@, field_views(fields@)),
            ),
        forall|sink: &mut LogSink, r: Option<String>| #[trigger]
            call_ensures(emit_current, (Some(trace), sink, phase, fields), r) ==> logged(
                *sink,
                *final(sink),
                r,
                log_line(trace@, phase@, field_views(fields@)),
            ),
        forall|sink: &mut LogSink, r: Option<String>| #[trigger]
            call_ensures(emit_current, (None, sink, phase, fields), r) ==> (*final(sink))@
                == (*sink)@ && r is None,
{
}

/// A capture begins without lines, and its end gives every line that was kept, in order, and
/// keeps none.
pub proof fn law_capture_begins_and_ends()
    ensures
        forall|sink: &mut LogSink| #[trigger]
            call_ensures(LogSink::begin_capture, (sink,), ()) ==> (*final(sink))@ is Some && ((
            *final(sink))@->0).len() == 0,
        forall|sink: &mut LogSink, r: Vec<String>| #[trigger]
            call_ensures(LogSink::end_capture, (sink,), r) ==> {
                &&& (*final(sink))@ is None
                &&& r@.len() == kept_lines(*sink).len()
                &&& forall|i: int| 0 <= i < r@.len() ==> (#[trigger] r@[i])@ == kept_lines(*sink)[i]
            },
{
    assert forall|sink: &mut LogSink, r: Vec<String>| #[trigger]
        call_ensures(LogSink::end_capture, (sink,), r) implies {
        &&& (*final(sink))@ is None
        &&& r@.len() == kept_lines(*sink).len()
        &&& forall|i: int| 0 <= i < r@.len() ==> (#[trigger] r@[i])@ == kept_lines(*sink)[i]
    } by {
        assert forall|i: int| 0 <= i < r@.len() implies (#[trigger] r@[i])@ == kept_lines(
            *sink,
        )[i] by {
            assert(line_views(r@)[i] == r@[i]@);
        }
    }
}

/// A sink begins without a capture, and a trace is of the session that it is made for.
pub proof fn law_new_sink_and_trace(sink: LogSink, sid: &str, trace: RequestTrace, r: &str)
    requires
        call_ensures(LogSink::new, (), sink),
        call_ensures(RequestTrace::new, (sid,), trace),
        call_ensures(RequestTrace::sid, (&trace,), r),
    ensures
        sink@ is None,
        r@ == sid@,
        trace@ == sid@,
{
}

} // verus!
