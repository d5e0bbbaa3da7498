use crate::adapters::grok_responses_request::{
    asks_for_web_search, payload, to_grok_responses_payload,
};
use crate::error::{ErrorView, GrokSearchError, Result};
use crate::json::Json;
use crate::logging::{emit_current, field_views, log_line, logged, LogSink, RequestTrace};
use crate::model::search::SearchRequest;
use crate::text::{contains, contains_text, decimal, decimal_digits, from_chars, to_chars};
use vstd::prelude::*;

verus! {

/// From the first attempt at a search, a failure that may pass is tried again until this
/// many nanoseconds have gone by; then the last error stands.
pub const GROK_RETRY_WINDOW: u128 = 120_000_000_000;

/// How many milliseconds a search rests between two attempts, so that a backend that fails
/// fast does not keep it spinning through the whole window.
pub const GROK_RETRY_PAUSE_MILLIS: u64 = 200;

/// A status with which a backend refuses the request itself: any 4xx but 429, which only asks
/// to come back later.
pub open spec fn client_error(status: Option<u16>) -> bool {
    match status {
        Some(code) => 400 <= code < 500 && code != 429,
        None => false,
    }
}

/// An error that another attempt may not meet.
pub open spec fn may_pass(err: ErrorView) -> bool {
    match err {
        ErrorView::Timeout(_) => true,
        ErrorView::Provider(message) => {
            &&& !contains_text(message, "response.failed"@)
            &&& !contains_text(message, "stream ended with response.incomplete"@)
        },
        _ => false,
    }
}

/// A failed search is tried again.
pub open spec fn retried(err: ErrorView, status: Option<u16>, elapsed: u128) -> bool {
    elapsed < GROK_RETRY_WINDOW && !client_error(status) && may_pass(err)
}

/// Whether to try a failed search again: after a transport error, an incomplete stream, a
/// 429 or a 5xx, while fewer than [`GROK_RETRY_WINDOW`] nanoseconds have gone by. Client
/// errors and a terminal `response.failed` are not tried again.
pub fn should_retry_grok(err: &GrokSearchError, status: Option<u16>, elapsed: u128) -> (r: bool)
    ensures
        r == retried(err@, status, elapsed),
{
    if elapsed >= GROK_RETRY_WINDOW {
        return false;
    }
    if let Some(code) = status {
        if 400 <= code && code < 500 && code != 429 {
            return false;
        }
    }
    match err {
        GrokSearchError::Timeout(_) => true,
        GrokSearchError::Provider(message) => !contains(message.as_str(), "response.failed")
            && !contains(message.as_str(), "stream ended with response.incomplete"),
        _ => false,
    }
}

/// Once the window is over, nothing is tried again.
pub proof fn law_no_retry_after_window(err: ErrorView, status: Option<u16>, elapsed: u128)
    requires
        elapsed >= GROK_RETRY_WINDOW,
    ensures
        !retried(err, status, elapsed),
{
}

/// A client error is never tried again.
pub proof fn law_client_error_is_final(err: ErrorView, status: Option<u16>, elapsed: u128)
    requires
        client_error(status),
    ensures
        !retried(err, status, elapsed),
{
}

/// A stream that ended in `response.failed` or in `response.incomplete` is not tried again.
pub proof fn law_terminal_event_is_final(message: Seq<char>, status: Option<u16>, elapsed: u128)
    requires
        contains_text(message, "response.failed"@) || contains_text(
            message,
            "stream ended with response.incomplete"@,
        ),
    ensures
        !retried(ErrorView::Provider(message), status, elapsed),
{
}

/// Within the window a timeout is tried again, whether or not a status came with it, unless
/// the status is a client error.
pub proof fn law_timeout_is_retried(message: Seq<char>, status: Option<u16>, elapsed: u128)
    requires
        elapsed < GROK_RETRY_WINDOW,
        !client_error(status),
    ensures
        retried(ErrorView::Timeout(message), status, elapsed),
{
}

/// Within the window a failure that may pass is tried again after a 429, after every 5xx, and
/// where no status came with it.
pub proof fn law_busy_backend_is_retried(err: ErrorView, status: Option<u16>, elapsed: u128)
    requires
        elapsed < GROK_RETRY_WINDOW,
        may_pass(err),
        status is None || status->0 == 429 || 500 <= status->0 < 600,
    ensures
        retried(err, status, elapsed),
{
}

/// A failure that is tried again would have been tried again earlier, too.
pub proof fn law_retry_is_monotone(
    err: ErrorView,
    status: Option<u16>,
    earlier: u128,
    later: u128,
)
    requires
        earlier <= later,
        retried(err, status, later),
    ensures
        retried(err, status, earlier),
{
}

/// A text without the slashes at its end.
pub open spec fn without_end_slashes(s: Seq<char>) -> Seq<char>
    decreases s.len(),
{
    if s.len() > 0 && s.last() == '/' {
        without_end_slashes(s.drop_last())
    } else {
        s
    }
}

/// The search backend as it is configured: where it is and which hosted tools it is given.
#[derive(Debug, Clone)]
pub struct GrokResponsesProvider {
    api_url: String,
    require_web_search: bool,
    include_x_search: bool,
}

/// What a `GrokResponsesProvider` holds.
pub struct GrokResponsesProviderView {
    pub api_url: Seq<char>,
    pub require_web_search: bool,
    pub include_x_search: bool,
}

impl View for GrokResponsesProvider {
    type V = GrokResponsesProviderView;

    closed spec fn view(&self) -> GrokResponsesProviderView {
        GrokResponsesProviderView {
            api_url: self.api_url@,
            require_web_search: self.require_web_search,
            include_x_search: self.include_x_search,
        }
    }
}

impl GrokResponsesProvider {
    /// The backend at `api_url`, which may end in slashes.
    pub fn new(api_url: &str, require_web_search: bool, include_x_search: bool) -> (r:
        GrokResponsesProvider)
        ensures
            r@ == (GrokResponsesProviderView {
                api_url: without_end_slashes(api_url@),
                require_web_search,
                include_x_search,
            }),
    {
        let mut chars = to_chars(api_url);
        while chars.len() > 0 && chars[chars.len() - 1] == '/'
            invariant
                without_end_slashes(chars@) == without_end_slashes(api_url@),
            decreases chars@.len(),
        {
            let ghost before = chars@;
            let _ = chars.pop();
            assert(chars@ =~= before.drop_last());
        }
        GrokResponsesProvider { api_url: from_chars(&chars), require_web_search, include_x_search }
    }

    /// Where searches are posted.
    pub fn endpoint(&self) -> (r: String)
        ensures
            r@ == self@.api_url + "/responses"@,
    {
        let mut out = self.api_url.clone();
        out.append("/responses");
        out
    }

    /// The body that is posted for a search.
    pub fn request_body(&self, request: &SearchRequest) -> (r: Result<Json>)
        ensures
            match r {
                Ok(body) => {
                    &&& self@.require_web_search ==> asks_for_web_search(request@)
                    &&& body@ == payload(
                        request@,
                        self@.require_web_search,
                        self@.include_x_search,
                    )
                },
                Err(err) => {
                    &&& self@.require_web_search && !asks_for_web_search(request@)
                    &&& err@ == ErrorView::Parse(
                        "web_search is enabled but request does not include web_search tool intent"@,
                    )
                },
            },
    {
        to_grok_responses_payload(request, self.require_web_search, self.include_x_search)
    }
}

/// The slashes at the end of a configured address make no difference.
pub proof fn law_end_slashes_do_not_matter(api_url: Seq<char>)
    ensures
        without_end_slashes(api_url.push('/')) == without_end_slashes(api_url),
        without_end_slashes(api_url).len() > 0 ==> without_end_slashes(api_url).last() != '/',
        without_end_slashes(without_end_slashes(api_url)) == without_end_slashes(api_url),
    decreases api_url.len(),
{
    assert(api_url.push('/').drop_last() =~= api_url);
    if api_url.len() > 0 && api_url.last() == '/' {
        law_end_slashes_do_not_matter(api_url.drop_last());
    }
}

/// How far a search has come.
pub struct SearchRun {
    attempts: u32,
}

/// What the log tells of an attempt that will be repeated, and how long to rest before it is.
#[derive(Debug, Clone, PartialEq, Eq)]
pub struct RetryNotice {
    pub attempt: String,
    pub status: String,
    pub err: String,
    pub pause_millis: u64,
}

/// What a search does after a failed attempt.
#[derive(Debug, Clone, PartialEq, Eq)]
pub enum SearchStep {
    /// Log the notice, rest, and try again.
    Retry(RetryNotice),
    /// Give the error up to the caller.
    Fail(GrokSearchError),
}

/// A status as the log shows it.
pub open spec fn status_text(status: Option<u16>) -> Seq<char> {
    match status {
        Some(code) => decimal_digits(code as nat),
        None => "-"@,
    }
}

/// The fields of the log line about an attempt that will be repeated.
pub open spec fn retry_fields(attempt: Seq<char>, status: Seq<char>, err: Seq<char>) -> Seq<
    (Seq<char>, Seq<char>),
> {
    seq![("attempt"@, attempt), ("status"@, status), ("err"@, err)]
}

impl SearchRun {
    /// How many attempts have been made.
    pub closed spec fn made(&self) -> nat {
        self.attempts as nat
    }

    /// A search before its first attempt.
    pub fn new() -> (r: SearchRun)
        ensures
            r.made() == 0,
    {
        SearchRun { attempts: 0 }
    }

    /// How many attempts have been made.
    pub fn attempts(&self) -> (r: u32)
        ensures
            r == self.made(),
    {
        self.attempts
    }

    /// Another attempt is made.
    pub fn begin_attempt(&mut self)
        requires
            old(self).made() < u32::MAX,
        ensures
            final(self).made() == old(self).made() + 1,
    {
        self.attempts = self.attempts + 1;
    }

    /// What to do after an attempt has failed with `err`, which reads `err_text`, `elapsed`
    /// nanoseconds after the first attempt began.
    pub fn after_failure(
        &self,
        err: GrokSearchError,
        err_text: &str,
        status: Option<u16>,
        elapsed: u128,
    ) -> (r: SearchStep)
        ensures
            match r {
                SearchStep::Retry(notice) => {
                    &&& retried(err@, status, elapsed)
                    &&& notice.attempt@ == decimal_digits(self.made())
                    &&& notice.status@ == status_text(status)
                    &&& notice.err@ == err_text@
                    &&& notice.pause_millis == GROK_RETRY_PAUSE_MILLIS
                },
                SearchStep::Fail(given) => {
                    &&& !retried(err@, status, elapsed)
                    &&& given == err
                },
            },
    {
        if should_retry_grok(&err, status, elapsed) {
            let status_shown = match status {
                Some(code) => decimal(code as u64),
                None => "-".to_string(),
            };
            SearchStep::Retry(
                RetryNotice {
                    attempt: decimal(self.attempts as u64),
                    status: status_shown,
                    err: err_text.to_string(),
                    pause_millis: GROK_RETRY_PAUSE_MILLIS,
                },
            )
        } else {
            SearchStep::Fail(err)
        }
    }
}

impl RetryNotice {
    /// Log the notice about the current request. What comes back is still to be written to
    /// standard error.
    pub fn emit(&self, current: Option<&RequestTrace>, sink: &mut LogSink) -> (r: Option<String>)
        ensures
            match current {
                Some(trace) => logged(
                    *old(sink),
                    *final(sink),
                    r,
                    log_line(
                        trace@,
                        "grok_retry"@,
                        retry_fields(self.attempt@, self.status@, self.err@),
                    ),
                ),
                None => final(sink)@ == old(sink)@ && r is None,
            },
    {
        let fields: [(&str, &str); 3] = [
            ("attempt", self.attempt.as_str()),
            ("status", self.status.as_str()),
            ("err", self.err.as_str()),
        ];
        assert(field_views(fields@) =~= retry_fields(self.attempt@, self.status@, self.err@));
        emit_current(current, sink, "grok_retry", &fields)
    }
}

} // verus!
