use crate::logging::{
    bearer_masked, client_key_masked, fields_text, lemma_key_found, lemma_token_found, log_line,
    one_line, sanitized, secrets_masked, shown, REQUEST_LOG_QUERY_MAX,
};
use crate::text::{
    contains_text, first_match, lemma_find_from, lemma_run_end, lemma_trimmed, matches_at, run_end,
    trimmed, white_space,
};
use vstd::prelude::*;

verus! {

/// A text on one line.
pub open spec fn on_one_line(s: Seq<char>) -> bool {
    forall|i: int| 0 <= i < s.len() ==> #[trigger] s[i] != '\n' && s[i] != '\r'
}

/// `word` stands in `s` at `i`, and white space or the end of the text follows it.
pub open spec fn word_ends_at(s: Seq<char>, word: Seq<char>, i: int) -> bool {
    &&& matches_at(s, word, i)
    &&& i + word.len() == s.len() || white_space(s[i + word.len()])
}

/// Every client key in `s` is masked.
pub open spec fn client_keys_masked(s: Seq<char>) -> bool {
    forall|i: int| #[trigger] matches_at(s, "g2a_"@, i) ==> word_ends_at(s, "g2a_***"@, i)
}

/// Every bearer token in `s` is masked.
pub open spec fn bearer_tokens_masked(s: Seq<char>) -> bool {
    forall|i: int| #[trigger] matches_at(s, "Bearer "@, i) ==> word_ends_at(s, "Bearer ***"@, i)
}

/// A text that ends in `Bearer`, so that what comes behind a space would read as its token.
pub open spec fn ends_in_bearer(s: Seq<char>) -> bool {
    s.len() >= 6 && s.skip(s.len() - 6) == "Bearer"@
}

/// The characters of a pattern are those of the text where it stands.
proof fn lemma_match_chars(s: Seq<char>, pattern: Seq<char>, i: int)
    requires
        matches_at(s, pattern, i),
    ensures
        forall|k: int| 0 <= k < pattern.len() ==> s[i + k] == #[trigger] pattern[k],
{
    assert forall|k: int| 0 <= k < pattern.len() implies s[i + k] == #[trigger] pattern[k] by {
        assert(s.subrange(i, i + pattern.len())[k] == s[i + k]);
    }
}

/// A pattern stands where the text has its characters.
proof fn lemma_match_from_chars(s: Seq<char>, pattern: Seq<char>, i: int)
    requires
        0 <= i,
        i + pattern.len() <= s.len(),
        forall|k: int| 0 <= k < pattern.len() ==> s[i + k] == #[trigger] pattern[k],
    ensures
        matches_at(s, pattern, i),
{
    assert(s.subrange(i, i + pattern.len()) =~= pattern);
}

/// What the patterns are made of.
proof fn lemma_patterns()
    ensures
        "g2a_"@ == seq!['g', '2', 'a', '_'],
        "g2a_***"@ == seq!['g', '2', 'a', '_', '*', '*', '*'],
        "Bearer "@ == seq!['B', 'e', 'a', 'r', 'e', 'r', ' '],
        "Bearer ***"@ == seq!['B', 'e', 'a', 'r', 'e', 'r', ' ', '*', '*', '*'],
        "***"@ == seq!['*', '*', '*'],
        "Bearer"@ == seq!['B', 'e', 'a', 'r', 'e', 'r'],
{
    reveal_strlit("Bearer");
    assert("Bearer"@ =~= seq!['B', 'e', 'a', 'r', 'e', 'r']);
    reveal_strlit("g2a_");
    reveal_strlit("g2a_***");
    reveal_strlit("Bearer ");
    reveal_strlit("Bearer ***");
    reveal_strlit("***");
    assert("g2a_"@ =~= seq!['g', '2', 'a', '_']);
    assert("g2a_***"@ =~= seq!['g', '2', 'a', '_', '*', '*', '*']);
    assert("Bearer "@ =~= seq!['B', 'e', 'a', 'r', 'e', 'r', ' ']);
    assert("Bearer ***"@ =~= seq!['B', 'e', 'a', 'r', 'e', 'r', ' ', '*', '*', '*']);
    assert("***"@ =~= seq!['*', '*', '*']);
}

/// Where a pattern stands in a text put together of three parts.
proof fn lemma_match_in_parts(a: Seq<char>, mid: Seq<char>, b: Seq<char>, pattern: Seq<char>, i: int)
    requires
        matches_at(a + mid + b, pattern, i),
    ensures
        i + pattern.len() <= a.len() ==> matches_at(a, pattern, i),
        i >= a.len() + mid.len() ==> matches_at(b, pattern, i - a.len() - mid.len()),
        forall|k: int|
            0 <= k < pattern.len() && a.len() <= i + k < a.len() + mid.len() ==> mid[i + k
                - a.len()] == #[trigger] pattern[k],
{
    let s = a + mid + b;
    lemma_match_chars(s, pattern, i);
    if i + pattern.len() <= a.len() {
        assert forall|k: int| 0 <= k < pattern.len() implies a[i + k] == #[trigger] pattern[k] by {
            assert(s[i + k] == a[i + k]);
        }
        lemma_match_from_chars(a, pattern, i);
    }
    let off = a.len() + mid.len();
    if i >= off {
        assert forall|k: int| 0 <= k < pattern.len() implies b[i - off + k]
            == #[trigger] pattern[k] by {
            assert(s[i + k] == b[i - off + k]);
        }
        lemma_match_from_chars(b, pattern, i - off);
    }
}

/// A pattern that stands in a start or an end of a text stands in the text.
proof fn lemma_match_in_whole(s: Seq<char>, pattern: Seq<char>, cut: int, i: int)
    requires
        0 <= cut <= s.len(),
    ensures
        matches_at(s.take(cut), pattern, i) ==> matches_at(s, pattern, i),
        matches_at(s.skip(cut), pattern, i) ==> matches_at(s, pattern, cut + i),
{
    if matches_at(s.take(cut), pattern, i) {
        assert(s.take(cut).subrange(i, i + pattern.len()) =~= s.subrange(i, i + pattern.len()));
    }
    if matches_at(s.skip(cut), pattern, i) {
        assert(s.skip(cut).subrange(i, i + pattern.len()) =~= s.subrange(
            cut + i,
            cut + i + pattern.len(),
        ));
    }
}

/// A masked word keeps its end: where white space follows what was masked, it follows the
/// mask.
proof fn lemma_token_mask_keeps_start(s: Seq<char>)
    ensures
        s.len() == 0 ==> bearer_masked(s).len() == 0,
        s.len() > 0 && white_space(s[0]) ==> bearer_masked(s).len() > 0 && bearer_masked(s)[0]
            == s[0],
{
    lemma_token_found(s);
}

/// A masked word keeps its end: where white space follows what was masked, it follows the
/// mask.
proof fn lemma_key_mask_keeps_start(s: Seq<char>)
    ensures
        s.len() == 0 ==> client_key_masked(s).len() == 0,
        s.len() > 0 && white_space(s[0]) ==> client_key_masked(s).len() > 0 && client_key_masked(
            s,
        )[0] == s[0],
{
    lemma_patterns();
    lemma_key_found(s);
    if let Some(i) = first_match(s, "g2a_"@) {
        lemma_match_chars(s, "g2a_"@, i);
        assert(s[i + 0] == "g2a_"@[0]);
    }
}

/// Every bearer token of a text is masked.
proof fn lemma_tokens_masked(s: Seq<char>)
    ensures
        bearer_tokens_masked(bearer_masked(s)),
    decreases s.len(),
{
    lemma_patterns();
    lemma_find_from(s, "Bearer "@, 0);
    lemma_token_found(s);
    if let Some(at) = first_match(s, "Bearer "@) {
        let from = at + 7;
        lemma_run_end(s, from);
        let rest = s.skip(run_end(s, from));
        lemma_tokens_masked(rest);
        lemma_token_mask_keeps_start(rest);
        let tail = bearer_masked(rest);
        let t = bearer_masked(s);
        assert(t == s.take(from) + "***"@ + tail);
        assert forall|i: int| #[trigger] matches_at(t, "Bearer "@, i) implies word_ends_at(
            t,
            "Bearer ***"@,
            i,
        ) by {
            lemma_match_in_parts(s.take(from), "***"@, tail, "Bearer "@, i);
            if i + 7 <= from {
                lemma_match_in_whole(s, "Bearer "@, from, i);
                assert(i == at);
                assert(s.subrange(at, at + 7) == "Bearer "@);
                assert(t.subrange(at, at + 10) =~= s.subrange(at, at + 7) + "***"@);
                assert("Bearer "@ + "***"@ =~= "Bearer ***"@);
            } else if i >= from + 3 {
                let j = i - from - 3;
                assert(word_ends_at(tail, "Bearer ***"@, j));
                assert(t.subrange(i, i + 10) =~= tail.subrange(j, j + 10));
            } else if i < from {
                assert("Bearer "@[from - i] == "***"@[0]);
            } else {
                assert("Bearer "@[0] == "***"@[i - from]);
            }
        }
    }
}

/// Every client key of a text is masked.
proof fn lemma_keys_masked(s: Seq<char>)
    ensures
        client_keys_masked(client_key_masked(s)),
    decreases s.len(),
{
    lemma_patterns();
    lemma_find_from(s, "g2a_"@, 0);
    lemma_key_found(s);
    if let Some(at) = first_match(s, "g2a_"@) {
        lemma_run_end(s, at);
        let rest = s.skip(run_end(s, at));
        lemma_keys_masked(rest);
        lemma_key_mask_keeps_start(rest);
        let tail = client_key_masked(rest);
        let t = client_key_masked(s);
        assert(t == s.take(at) + "g2a_***"@ + tail);
        assert forall|i: int| #[trigger] matches_at(t, "g2a_"@, i) implies word_ends_at(
            t,
            "g2a_***"@,
            i,
        ) by {
            lemma_match_in_parts(s.take(at), "g2a_***"@, tail, "g2a_"@, i);
            if i + 4 <= at {
                lemma_match_in_whole(s, "g2a_"@, at, i);
            } else if i >= at + 7 {
                let j = i - at - 7;
                assert(word_ends_at(tail, "g2a_***"@, j));
                assert(t.subrange(i, i + 7) =~= tail.subrange(j, j + 7));
            } else if i < at {
                assert("g2a_"@[at - i] == "g2a_***"@[0]);
            } else {
                assert("g2a_"@[0] == "g2a_***"@[i - at]);
                assert(t.subrange(at, at + 7) =~= "g2a_***"@);
            }
        }
    }
}

/// The end of a text whose bearer tokens are masked has its bearer tokens masked.
proof fn lemma_end_keeps_tokens_masked(t: Seq<char>, cut: int)
    requires
        bearer_tokens_masked(t),
        0 <= cut <= t.len(),
    ensures
        bearer_tokens_masked(t.skip(cut)),
{
    lemma_patterns();
    let rest = t.skip(cut);
    assert forall|i: int| #[trigger] matches_at(rest, "Bearer "@, i) implies word_ends_at(
        rest,
        "Bearer ***"@,
        i,
    ) by {
        lemma_match_in_whole(t, "Bearer "@, cut, i);
        assert(word_ends_at(t, "Bearer ***"@, cut + i));
        assert(rest.subrange(i, i + 10) =~= t.subrange(cut + i, cut + i + 10));
    }
}

/// The end of a text whose client keys are masked has its client keys masked.
proof fn lemma_end_keeps_keys_masked(t: Seq<char>, cut: int)
    requires
        client_keys_masked(t),
        0 <= cut <= t.len(),
    ensures
        client_keys_masked(t.skip(cut)),
{
    lemma_patterns();
    let rest = t.skip(cut);
    assert forall|i: int| #[trigger] matches_at(rest, "g2a_"@, i) implies word_ends_at(
        rest,
        "g2a_***"@,
        i,
    ) by {
        lemma_match_in_whole(t, "g2a_"@, cut, i);
        assert(word_ends_at(t, "g2a_***"@, cut + i));
        assert(rest.subrange(i, i + 7) =~= t.subrange(cut + i, cut + i + 7));
    }
}

/// Masking client keys leaves no bearer token open.
proof fn lemma_key_mask_keeps_tokens_masked(t: Seq<char>)
    requires
        bearer_tokens_masked(t),
    ensures
        bearer_tokens_masked(client_key_masked(t)),
    decreases t.len(),
{
    lemma_patterns();
    lemma_key_found(t);
    if let Some(at) = first_match(t, "g2a_"@) {
        let e = run_end(t, at);
        lemma_end_keeps_tokens_masked(t, e);
        lemma_key_mask_keeps_tokens_masked(t.skip(e));
        let tail = client_key_masked(t.skip(e));
        let r = client_key_masked(t);
        assert(r == t.take(at) + "g2a_***"@ + tail);
        lemma_match_chars(t, "g2a_"@, at);
        assert(t[at] == 'g') by {
            assert(t[at + 0] == "g2a_"@[0]);
        }
        assert forall|i: int| #[trigger] matches_at(r, "Bearer "@, i) implies word_ends_at(
            r,
            "Bearer ***"@,
            i,
        ) by {
            lemma_match_in_parts(t.take(at), "g2a_***"@, tail, "Bearer "@, i);
            if i + 7 <= at {
                lemma_match_in_whole(t, "Bearer "@, at, i);
                assert(word_ends_at(t, "Bearer ***"@, i));
                lemma_match_chars(t, "Bearer ***"@, i);
                if at < i + 10 {
                    assert(t[i + (at - i)] == "Bearer ***"@[at - i]);
                }
                assert(at > i + 10);
                assert(r.subrange(i, i + 10) =~= t.subrange(i, i + 10));
            } else if i >= at + 7 {
                let j = i - at - 7;
                assert(word_ends_at(tail, "Bearer ***"@, j));
                assert(r.subrange(i, i + 10) =~= tail.subrange(j, j + 10));
            } else if i <= at {
                assert("Bearer "@[at - i] == "g2a_***"@[0]);
            } else {
                assert("Bearer "@[0] == "g2a_***"@[i - at]);
            }
        }
    }
}

/// After masking, a text shows no client key and no bearer token, wherever and however often
/// they stood in it.
pub proof fn law_secrets_are_masked(s: Seq<char>)
    ensures
        client_keys_masked(secrets_masked(s)),
        bearer_tokens_masked(secrets_masked(s)),
{
    lemma_tokens_masked(s);
    lemma_keys_masked(bearer_masked(s));
    lemma_key_mask_keeps_tokens_masked(bearer_masked(s));
}

/// The log shows no client key and no bearer token of a value.
pub proof fn law_log_masks_secrets(key: Seq<char>, value: Seq<char>)
    ensures
        client_keys_masked(sanitized(key, value)),
        bearer_tokens_masked(sanitized(key, value)),
{
    law_secrets_are_masked(shown(key, value));
}

/// A text whose bearer tokens are masked is kept as it is.
proof fn lemma_masked_tokens_kept(t: Seq<char>)
    requires
        bearer_tokens_masked(t),
    ensures
        bearer_masked(t) == t,
    decreases t.len(),
{
    lemma_patterns();
    lemma_token_found(t);
    if let Some(at) = first_match(t, "Bearer "@) {
        let from = at + 7;
        let e = run_end(t, from);
        lemma_run_end(t, from);
        assert(word_ends_at(t, "Bearer ***"@, at));
        lemma_match_chars(t, "Bearer ***"@, at);
        assert(t[at + 7] == "Bearer ***"@[7] && t[at + 8] == "Bearer ***"@[8] && t[at + 9]
            == "Bearer ***"@[9]);
        assert(e == at + 10);
        lemma_end_keeps_tokens_masked(t, e);
        lemma_masked_tokens_kept(t.skip(e));
        assert(t.take(from) + "***"@ + t.skip(e) =~= t);
    }
}

/// A text whose client keys are masked is kept as it is.
proof fn lemma_masked_keys_kept(t: Seq<char>)
    requires
        client_keys_masked(t),
    ensures
        client_key_masked(t) == t,
    decreases t.len(),
{
    lemma_patterns();
    lemma_key_found(t);
    if let Some(at) = first_match(t, "g2a_"@) {
        let e = run_end(t, at);
        lemma_run_end(t, at);
        assert(word_ends_at(t, "g2a_***"@, at));
        lemma_match_chars(t, "g2a_***"@, at);
        assert(t[at + 4] == "g2a_***"@[4] && t[at + 5] == "g2a_***"@[5] && t[at + 6]
            == "g2a_***"@[6]);
        assert(e == at + 7);
        lemma_end_keeps_keys_masked(t, e);
        lemma_masked_keys_kept(t.skip(e));
        assert(t.subrange(at, at + 7) =~= "g2a_***"@);
        assert(t.take(at) + "g2a_***"@ + t.skip(e) =~= t);
    }
}

/// A text that shows no client key and no bearer token is kept as it is.
pub proof fn law_masking_keeps_the_rest(s: Seq<char>)
    requires
        client_keys_masked(s),
        bearer_tokens_masked(s),
    ensures
        secrets_masked(s) == s,
{
    lemma_masked_tokens_kept(s);
    lemma_masked_keys_kept(s);
}

/// Masking twice is masking once.
pub proof fn law_masking_is_idempotent(s: Seq<char>)
    ensures
        secrets_masked(secrets_masked(s)) == secrets_masked(s),
{
    law_secrets_are_masked(s);
    law_masking_keeps_the_rest(secrets_masked(s));
}

/// Masking bearer tokens keeps a text on one line, and lengthens it by three characters
/// in seven at most.
proof fn lemma_token_mask_shape(s: Seq<char>)
    ensures
        on_one_line(s) ==> on_one_line(bearer_masked(s)),
        7 * bearer_masked(s).len() <= 10 * s.len(),
    decreases s.len(),
{
    lemma_patterns();
    lemma_token_found(s);
    if let Some(at) = first_match(s, "Bearer "@) {
        let rest = s.skip(run_end(s, at + 7));
        lemma_token_mask_shape(rest);
        assert(on_one_line(s) ==> on_one_line(rest));
    }
}

/// Masking client keys keeps a text on one line, and lengthens it by three characters in
/// four at most.
proof fn lemma_key_mask_shape(s: Seq<char>)
    ensures
        on_one_line(s) ==> on_one_line(client_key_masked(s)),
        4 * client_key_masked(s).len() <= 7 * s.len(),
    decreases s.len(),
{
    lemma_patterns();
    lemma_key_found(s);
    if let Some(at) = first_match(s, "g2a_"@) {
        let rest = s.skip(run_end(s, at));
        lemma_key_mask_shape(rest);
        assert(on_one_line(s) ==> on_one_line(rest));
    }
}

/// A value in the log stands on one line.
pub proof fn law_sanitized_value_is_one_line(key: Seq<char>, value: Seq<char>)
    ensures
        on_one_line(sanitized(key, value)),
{
    let flat = one_line(value);
    assert(on_one_line(flat));
    let range = lemma_trimmed(flat);
    assert(on_one_line(trimmed(flat)));
    assert(on_one_line(shown(key, value)));
    lemma_token_mask_shape(shown(key, value));
    lemma_key_mask_shape(bearer_masked(shown(key, value)));
}

/// The fields of a log line stand on one line.
proof fn lemma_fields_on_one_line(fields: Seq<(Seq<char>, Seq<char>)>)
    ensures
        on_one_line(fields_text(fields)),
    decreases fields.len(),
{
    if fields.len() > 0 {
        lemma_fields_on_one_line(fields.drop_last());
        let (key, value) = fields.last();
        law_sanitized_value_is_one_line(key, value);
        assert(on_one_line(one_line(key)));
    }
}

/// A record of the operator log is one line, whatever it is made of.
pub proof fn law_log_line_is_one_line(
    sid: Seq<char>,
    phase: Seq<char>,
    fields: Seq<(Seq<char>, Seq<char>)>,
)
    ensures
        on_one_line(log_line(sid, phase, fields)),
{
    reveal_strlit("grok-search-rs: sid=");
    reveal_strlit(" phase=");
    assert(on_one_line("grok-search-rs: sid="@));
    assert(on_one_line(" phase="@));
    assert(on_one_line(one_line(sid)));
    assert(on_one_line(one_line(phase)));
    lemma_fields_on_one_line(fields);
}

/// A text on one line is shown in the log as it is.
pub proof fn law_one_line_is_kept(s: Seq<char>)
    requires
        on_one_line(s),
    ensures
        one_line(s) == s,
{
    assert(one_line(s) =~= s);
}

/// What the log shows of a query is bounded, however long the query is: the query is cut, and
/// masks make of what is left two and a half times its length at most.
pub proof fn law_query_is_cut(value: Seq<char>)
    ensures
        shown("query"@, value).len() <= REQUEST_LOG_QUERY_MAX + 1,
        2 * sanitized("query"@, value).len() <= 5 * (REQUEST_LOG_QUERY_MAX + 1),
{
    lemma_token_mask_shape(shown("query"@, value));
    lemma_key_mask_shape(bearer_masked(shown("query"@, value)));
}

/// Texts whose client keys are masked, put one after the other with a character between
/// them that no key has.
proof fn lemma_join_masked(a: Seq<char>, separator: char, b: Seq<char>)
    requires
        client_keys_masked(a),
        client_keys_masked(b),
        white_space(separator) || !contains_text(a, "g2a_"@),
        separator == ' ' || separator == '=',
    ensures
        client_keys_masked(a + seq![separator] + b),
{
    lemma_patterns();
    let s = a + seq![separator] + b;
    assert forall|i: int| #[trigger] matches_at(s, "g2a_"@, i) implies word_ends_at(
        s,
        "g2a_***"@,
        i,
    ) by {
        lemma_match_in_parts(a, seq![separator], b, "g2a_"@, i);
        if i + 4 <= a.len() {
            assert(word_ends_at(a, "g2a_***"@, i));
            assert(s.subrange(i, i + 7) =~= a.subrange(i, i + 7));
        } else if i > a.len() {
            let j = i - a.len() - 1;
            assert(word_ends_at(b, "g2a_***"@, j));
            assert(s.subrange(i, i + 7) =~= b.subrange(j, j + 7));
        } else {
            assert("g2a_"@[a.len() - i] == separator);
        }
    }
}

/// The client keys in the fields of a log line are masked.
proof fn lemma_fields_masked(fields: Seq<(Seq<char>, Seq<char>)>, head: Seq<char>)
    requires
        client_keys_masked(head),
        forall|i: int|
            0 <= i < fields.len() ==> !contains_text(one_line(#[trigger] fields[i].0), "g2a_"@),
    ensures
        client_keys_masked(head + fields_text(fields)),
    decreases fields.len(),
{
    if fields.len() == 0 {
        assert(head + fields_text(fields) =~= head);
    } else {
        let front = fields.drop_last();
        assert forall|i: int| 0 <= i < front.len() implies !contains_text(
            one_line(#[trigger] front[i].0),
            "g2a_"@,
        ) by {
            assert(front[i] == fields[i]);
        }
        lemma_fields_masked(front, head);
        let (key, value) = fields.last();
        assert(!contains_text(one_line(fields[fields.len() - 1].0), "g2a_"@));
        let lead = head + fields_text(front);
        let shown_key = one_line(key);
        let shown_value = sanitized(key, value);
        law_log_masks_secrets(key, value);
        lemma_join_masked(shown_key, '=', shown_value);
        lemma_join_masked(lead, ' ', shown_key + seq!['='] + shown_value);
        assert(lead + seq![' '] + (shown_key + seq!['='] + shown_value) =~= head + fields_text(
            fields,
        ));
    }
}

/// No client key is shown in a line of the operator log, whatever its values hold, where the
/// session id and the phase show none and the keys hold none.
pub proof fn law_log_line_shows_no_client_key(
    sid: Seq<char>,
    phase: Seq<char>,
    fields: Seq<(Seq<char>, Seq<char>)>,
)
    requires
        client_keys_masked(one_line(sid)),
        client_keys_masked(one_line(phase)),
        forall|i: int|
            0 <= i < fields.len() ==> !contains_text(one_line(#[trigger] fields[i].0), "g2a_"@),
    ensures
        client_keys_masked(log_line(sid, phase, fields)),
{
    let (name, sid_key, phase_key) = lemma_line_parts();
    let shown_sid = one_line(sid);
    let shown_phase = one_line(phase);
    lemma_no_digit(name);
    lemma_no_digit(sid_key);
    lemma_no_digit(phase_key);
    lemma_join_masked(phase_key, '=', shown_phase);
    lemma_join_masked(shown_sid, ' ', phase_key + seq!['='] + shown_phase);
    let tail = shown_sid + seq![' '] + (phase_key + seq!['='] + shown_phase);
    lemma_join_masked(sid_key, '=', tail);
    lemma_join_masked(name, ' ', sid_key + seq!['='] + tail);
    let head = "grok-search-rs: sid="@ + shown_sid + " phase="@ + shown_phase;
    assert(name + seq![' '] + (sid_key + seq!['='] + tail) =~= head);
    lemma_fields_masked(fields, head);
}

/// The words of which the start of a log line is made.
proof fn lemma_line_parts() -> (parts: (Seq<char>, Seq<char>, Seq<char>))
    ensures
        parts.0 == seq![
            'g',
            'r',
            'o',
            'k',
            '-',
            's',
            'e',
            'a',
            'r',
            'c',
            'h',
            '-',
            'r',
            's',
            ':',
        ],
        parts.1 == seq!['s', 'i', 'd'],
        parts.2 == seq!['p', 'h', 'a', 's', 'e'],
        "grok-search-rs: sid="@ == parts.0 + seq![' '] + (parts.1 + seq!['=']),
        " phase="@ == seq![' '] + parts.2 + seq!['='],
{
    reveal_strlit("grok-search-rs: sid=");
    reveal_strlit(" phase=");
    let name = seq!['g', 'r', 'o', 'k', '-', 's', 'e', 'a', 'r', 'c', 'h', '-', 'r', 's', ':'];
    let sid_key = seq!['s', 'i', 'd'];
    let phase_key = seq!['p', 'h', 'a', 's', 'e'];
    assert("grok-search-rs: sid="@ =~= name + seq![' '] + (sid_key + seq!['=']));
    assert(" phase="@ =~= seq![' '] + phase_key + seq!['=']);
    (name, sid_key, phase_key)
}

/// Texts whose bearer tokens are masked, put one after the other with a character between
/// them that makes no token.
proof fn lemma_join_tokens(a: Seq<char>, separator: char, b: Seq<char>)
    requires
        bearer_tokens_masked(a),
        bearer_tokens_masked(b),
        separator == ' ' && !ends_in_bearer(a) || separator == '=' && !contains_text(a, "Bearer "@),
    ensures
        bearer_tokens_masked(a + seq![separator] + b),
{
    lemma_patterns();
    let s = a + seq![separator] + b;
    assert forall|i: int| #[trigger] matches_at(s, "Bearer "@, i) implies word_ends_at(
        s,
        "Bearer ***"@,
        i,
    ) by {
        lemma_match_in_parts(a, seq![separator], b, "Bearer "@, i);
        if i + 7 <= a.len() {
            assert(word_ends_at(a, "Bearer ***"@, i));
            assert(s.subrange(i, i + 10) =~= a.subrange(i, i + 10));
        } else if i > a.len() {
            let j = i - a.len() - 1;
            assert(word_ends_at(b, "Bearer ***"@, j));
            assert(s.subrange(i, i + 10) =~= b.subrange(j, j + 10));
        } else {
            let k = a.len() - i;
            assert("Bearer "@[k] == separator);
            assert(k == 6);
            lemma_match_chars(s, "Bearer "@, i);
            assert forall|n: int| 0 <= n < 6 implies #[trigger] a.skip(a.len() - 6)[n]
                == "Bearer"@[n] by {
                assert(s[i + n] == "Bearer "@[n]);
                assert(s[i + n] == a[i + n]);
            }
            assert(a.skip(a.len() - 6) =~= "Bearer"@);
        }
    }
}

/// What a text ends in behind an equals sign is what it ends in.
proof fn lemma_end_behind_equals(a: Seq<char>, b: Seq<char>)
    requires
        !ends_in_bearer(b),
    ensures
        !ends_in_bearer(a + seq!['='] + b),
{
    lemma_patterns();
    let s = a + seq!['='] + b;
    if ends_in_bearer(s) {
        let end = s.skip(s.len() - 6);
        if b.len() >= 6 {
            assert(b.skip(b.len() - 6) =~= end);
        } else {
            assert(end[5 - b.len()] == '=');
        }
    }
}

/// The bearer tokens in the fields of a log line are masked.
proof fn lemma_field_tokens_masked(fields: Seq<(Seq<char>, Seq<char>)>, head: Seq<char>)
    requires
        bearer_tokens_masked(head),
        fields.len() > 0 ==> !ends_in_bearer(head),
        forall|i: int|
            0 <= i < fields.len() ==> !contains_text(one_line(#[trigger] fields[i].0), "Bearer "@),
        forall|i: int|
            0 <= i < fields.len() - 1 ==> !ends_in_bearer(
                sanitized((#[trigger] fields[i]).0, fields[i].1),
            ),
    ensures
        bearer_tokens_masked(head + fields_text(fields)),
    decreases fields.len(),
{
    if fields.len() == 0 {
        assert(head + fields_text(fields) =~= head);
    } else {
        let front = fields.drop_last();
        assert forall|i: int| 0 <= i < front.len() implies !contains_text(
            one_line(#[trigger] front[i].0),
            "Bearer "@,
        ) by {
            assert(front[i] == fields[i]);
        }
        assert forall|i: int| 0 <= i < front.len() - 1 implies !ends_in_bearer(
            sanitized((#[trigger] front[i]).0, front[i].1),
        ) by {
            assert(front[i] == fields[i]);
        }
        lemma_field_tokens_masked(front, head);
        let lead = head + fields_text(front);
        assert(!ends_in_bearer(lead)) by {
            if front.len() == 0 {
                assert(lead =~= head);
            } else {
                let (key, value) = front.last();
                assert(front.last() == fields[fields.len() - 2]);
                let before = head + fields_text(front.drop_last()) + seq![' '] + one_line(key);
                lemma_end_behind_equals(before, sanitized(key, value));
                assert(lead =~= before + seq!['='] + sanitized(key, value));
            }
        }
        let (key, value) = fields.last();
        assert(!contains_text(one_line(fields[fields.len() - 1].0), "Bearer "@));
        let shown_key = one_line(key);
        let shown_value = sanitized(key, value);
        law_log_masks_secrets(key, value);
        assert(bearer_tokens_masked(shown_key)) by {
            assert forall|i: int| !(#[trigger] matches_at(shown_key, "Bearer "@, i)) by {}
        }
        lemma_join_tokens(shown_key, '=', shown_value);
        lemma_join_tokens(lead, ' ', shown_key + seq!['='] + shown_value);
        assert(lead + seq![' '] + (shown_key + seq!['='] + shown_value) =~= head + fields_text(
            fields,
        ));
    }
}

/// No bearer token is shown in a line of the operator log, whatever its values hold, where the
/// session id and the phase show none, the keys hold none, and nothing that a space follows
/// ends in `Bearer`.
pub proof fn law_log_line_shows_no_bearer_token(
    sid: Seq<char>,
    phase: Seq<char>,
    fields: Seq<(Seq<char>, Seq<char>)>,
)
    requires
        bearer_tokens_masked(one_line(sid)),
        !ends_in_bearer(one_line(sid)),
        bearer_tokens_masked(one_line(phase)),
        fields.len() > 0 ==> !ends_in_bearer(one_line(phase)),
        forall|i: int|
            0 <= i < fields.len() ==> !contains_text(one_line(#[trigger] fields[i].0), "Bearer "@),
        forall|i: int|
            0 <= i < fields.len() - 1 ==> !ends_in_bearer(
                sanitized((#[trigger] fields[i]).0, fields[i].1),
            ),
    ensures
        bearer_tokens_masked(log_line(sid, phase, fields)),
{
    let (name, sid_key, phase_key) = lemma_line_parts();
    let shown_sid = one_line(sid);
    let shown_phase = one_line(phase);
    lemma_no_capital(name);
    lemma_no_capital(sid_key);
    lemma_no_capital(phase_key);
    lemma_join_tokens(phase_key, '=', shown_phase);
    lemma_join_tokens(shown_sid, ' ', phase_key + seq!['='] + shown_phase);
    let tail = shown_sid + seq![' '] + (phase_key + seq!['='] + shown_phase);
    lemma_join_tokens(sid_key, '=', tail);
    lemma_join_tokens(name, ' ', sid_key + seq!['='] + tail);
    let head = "grok-search-rs: sid="@ + shown_sid + " phase="@ + shown_phase;
    assert(name + seq![' '] + (sid_key + seq!['='] + tail) =~= head);
    if fields.len() > 0 {
        let before = name + seq![' '] + (sid_key + seq!['='] + shown_sid) + seq![' '] + phase_key;
        lemma_end_behind_equals(before, shown_phase);
        assert(before + seq!['='] + shown_phase =~= head);
    }
    lemma_field_tokens_masked(fields, head);
}

/// A text without a capital B holds no bearer token, nor the start of one.
proof fn lemma_no_capital(s: Seq<char>)
    requires
        forall|i: int| 0 <= i < s.len() ==> #[trigger] s[i] != 'B',
    ensures
        !contains_text(s, "Bearer "@),
        bearer_tokens_masked(s),
        !ends_in_bearer(s),
{
    lemma_patterns();
    assert forall|i: int| !(#[trigger] matches_at(s, "Bearer "@, i)) by {
        if matches_at(s, "Bearer "@, i) {
            lemma_match_chars(s, "Bearer "@, i);
            assert(s[i + 0] == "Bearer "@[0]);
        }
    }
    if ends_in_bearer(s) {
        assert(s.skip(s.len() - 6)[0] == s[s.len() - 6]);
    }
}

/// A text without the digit two holds no client key.
proof fn lemma_no_digit(s: Seq<char>)
    requires
        forall|i: int| 0 <= i < s.len() ==> #[trigger] s[i] != '2',
    ensures
        !contains_text(s, "g2a_"@),
{
    lemma_patterns();
    if contains_text(s, "g2a_"@) {
        let i = choose|i: int| matches_at(s, "g2a_"@, i);
        lemma_match_chars(s, "g2a_"@, i);
        assert(s[i + 1] == "g2a_"@[1]);
    }
}

} // verus!
