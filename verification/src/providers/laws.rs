use crate::adapters::grok_responses_request::to_grok_responses_payload;
use crate::error::{ErrorView, GrokSearchError, Result};
use crate::json::Json;
use crate::logging::{log_line, logged, LogSink, RequestTrace};
use crate::model::search::SearchRequest;
use crate::providers::grok::{
    retried, retry_fields, should_retry_grok, status_text, without_end_slashes,
    GrokResponsesProvider, RetryNotice, SearchRun, SearchStep,
};
use crate::text::contains_text;
use crate::text_laws::{law_decimal_reads_back, number_read};
use vstd::prelude::*;

verus! {

/// The statuses after which a search may be tried again: none at all, 429, and every status
/// that is no 4xx.
pub open spec fn open_status(status: Option<u16>) -> bool {
    match status {
        Some(code) => code == 429 || code < 400 || 500 <= code,
        None => true,
    }
}

/// A timeout is tried again for two minutes, after whatever message, unless the backend
/// refused the request.
pub proof fn law_retry_of_timeout(message: String, status: Option<u16>, elapsed: u128, r: bool)
    requires
        call_ensures(should_retry_grok, (&GrokSearchError::Timeout(message), status, elapsed), r),
    ensures
        r <==> elapsed < 120_000_000_000 && open_status(status),
{
}

/// A provider's error is tried again for two minutes, unless the backend refused the request
/// or its message tells of a terminal event; what else the message says does not matter.
pub proof fn law_retry_of_provider_error(
    message: String,
    status: Option<u16>,
    elapsed: u128,
    r: bool,
)
    requires
        call_ensures(should_retry_grok, (&GrokSearchError::Provider(message), status, elapsed), r),
    ensures
        r <==> {
            &&& elapsed < 120_000_000_000
            &&& open_status(status)
            &&& !contains_text(message@, "response.failed"@)
            &&& !contains_text(message@, "stream ended with response.incomplete"@)
        },
{
}

/// Errors of other kinds are never tried again.
pub proof fn law_no_retry_of_other_errors(
    err: GrokSearchError,
    status: Option<u16>,
    elapsed: u128,
    r: bool,
)
    requires
        call_ensures(should_retry_grok, (&err, status, elapsed), r),
        err is InvalidParams || err is NotFound || err is Parse,
    ensures
        !r,
{
}

/// Within the window a provider's error with a message that tells of no terminal event is
/// tried again after a 429, after every 5xx, and where no status came with it.
pub proof fn law_provider_error_is_retried(message: Seq<char>, status: Option<u16>, elapsed: u128)
    requires
        elapsed < 120_000_000_000,
        status is None || status->0 == 429 || 500 <= status->0 < 600,
        !contains_text(message, "response.failed"@),
        !contains_text(message, "stream ended with response.incomplete"@),
    ensures
        retried(ErrorView::Provider(message), status, elapsed),
{
}

/// Nothing but the time, the status and the terminal events tells two provider's errors apart.
pub proof fn law_other_words_do_not_matter(
    one: Seq<char>,
    other: Seq<char>,
    status: Option<u16>,
    elapsed: u128,
)
    requires
        contains_text(one, "response.failed"@) <==> contains_text(other, "response.failed"@),
        contains_text(one, "stream ended with response.incomplete"@) <==> contains_text(
            other,
            "stream ended with response.incomplete"@,
        ),
    ensures
        retried(ErrorView::Provider(one), status, elapsed) == retried(
            ErrorView::Provider(other),
            status,
            elapsed,
        ),
{
}

/// What is left of an address is its start, and what is gone are slashes: all that stood at
/// the end.
pub proof fn law_only_end_slashes_go(api_url: Seq<char>) -> (kept: int)
    ensures
        0 <= kept <= api_url.len(),
        without_end_slashes(api_url) == api_url.take(kept),
        forall|i: int| kept <= i < api_url.len() ==> #[trigger] api_url[i] == '/',
        kept > 0 ==> api_url[kept - 1] != '/',
    decreases api_url.len(),
{
    if api_url.len() > 0 && api_url.last() == '/' {
        let front = api_url.drop_last();
        let kept = law_only_end_slashes_go(front);
        assert(front.take(kept) =~= api_url.take(kept));
        assert forall|i: int| kept <= i < api_url.len() implies #[trigger] api_url[i] == '/' by {
            if i < front.len() {
                assert(front[i] == api_url[i]);
            }
        }
        if kept > 0 {
            assert(front[kept - 1] == api_url[kept - 1]);
        }
        kept
    } else {
        assert(api_url.take(api_url.len() as int) =~= api_url);
        api_url.len() as int
    }
}

/// Searches are posted to `/responses` under the configured address, whose own slashes stay
/// but for those at its end.
pub proof fn law_endpoint(
    api_url: &str,
    require_web_search: bool,
    include_x_search: bool,
    provider: GrokResponsesProvider,
    r: String,
)
    requires
        call_ensures(
            GrokResponsesProvider::new,
            (api_url, require_web_search, include_x_search),
            provider,
        ),
        call_ensures(GrokResponsesProvider::endpoint, (&provider,), r),
    ensures
        api_url@.len() > 0 && api_url@.last() != '/' ==> r@ == api_url@ + "/responses"@,
        exists|kept: int|
            0 <= kept <= api_url@.len() && r@ == #[trigger] api_url@.take(kept) + "/responses"@ && (
            forall|i: int| kept <= i < api_url@.len() ==> #[trigger] api_url@[i] == '/') && (kept
                > 0 ==> api_url@[kept - 1] != '/'),
{
    let kept = law_only_end_slashes_go(api_url@);
    if api_url@.len() > 0 && api_url@.last() != '/' {
        assert(kept == api_url@.len());
        assert(api_url@.take(kept) =~= api_url@);
    }
    assert(r@ == api_url@.take(kept) + "/responses"@);
}

/// A configured backend is sent the body that its own settings ask for, and refuses what that
/// body's maker refuses.
pub proof fn law_request_body_goes_by_the_settings(
    api_url: &str,
    require_web_search: bool,
    include_x_search: bool,
    provider: GrokResponsesProvider,
    request: &SearchRequest,
    made: Result<Json>,
    r: Result<Json>,
)
    requires
        call_ensures(
            GrokResponsesProvider::new,
            (api_url, require_web_search, include_x_search),
            provider,
        ),
        call_ensures(GrokResponsesProvider::request_body, (&provider, request), r),
        call_ensures(
            to_grok_responses_payload,
            (request, require_web_search, include_x_search),
            made,
        ),
    ensures
        r is Ok <==> made is Ok,
        r is Ok ==> (r->Ok_0)@ == (made->Ok_0)@,
        r is Err ==> (r->Err_0)@ == (made->Err_0)@,
{
}

/// A status is shown in decimal, and a dash where there is none.
pub proof fn law_status_is_shown(code: u16)
    ensures
        number_read(status_text(Some(code))) == code,
        status_text(None) == "-"@,
{
    law_decimal_reads_back(code as nat);
}

/// A failure that may pass leads to another attempt after a rest of two tenths of a second,
/// with a notice that tells how many attempts were made, the status and the error; any other
/// is given up as it is. Which it is, `should_retry_grok` says.
pub proof fn law_step_after_failure(
    run: SearchRun,
    attempts: u32,
    err: GrokSearchError,
    err_text: &str,
    status: Option<u16>,
    elapsed: u128,
    again: bool,
    r: SearchStep,
)
    requires
        call_ensures(SearchRun::attempts, (&run,), attempts),
        call_ensures(should_retry_grok, (&err, status, elapsed), again),
        call_ensures(SearchRun::after_failure, (&run, err, err_text, status, elapsed), r),
    ensures
        again ==> r is Retry,
        !again ==> r == SearchStep::Fail(err),
        r matches SearchStep::Retry(notice) ==> {
            &&& number_read(notice.attempt@) == attempts
            &&& match status {
                Some(code) => number_read(notice.status@) == code,
                None => notice.status@ == "-"@,
            }
            &&& notice.err@ == err_text@
            &&& notice.pause_millis == 200
        },
{
    law_decimal_reads_back(run.made());
    if let Some(code) = status {
        law_status_is_shown(code);
    }
}

/// A search begins without attempts.
pub proof fn law_search_begins_without_attempts(run: SearchRun, attempts: u32)
    requires
        call_ensures(SearchRun::new, (), run),
        call_ensures(SearchRun::attempts, (&run,), attempts),
    ensures
        attempts == 0,
{
}

/// Every attempt counts one.
pub proof fn law_attempt_counts_one()
    ensures
        forall|run: &mut SearchRun| #[trigger]
            call_ensures(SearchRun::begin_attempt, (run,), ()) ==> (*final(run)).made() == (
            *run).made() + 1,
{
}

/// A retry is logged for the current request under the phase `grok_retry`, with how many
/// attempts were made, the status and the error; where there is no current request, it is not.
pub proof fn law_retry_is_logged(notice: RetryNotice, trace: &RequestTrace)
    ensures
        forall|sink: &mut LogSink, r: Option<String>| #[trigger]
            call_ensures(RetryNotice::emit, (&notice, Some(trace), sink), r) ==> logged(
                *sink,
                *final(sink),
                r,
                log_line(
                    trace@,
                    "grok_retry"@,
                    seq![
                        ("attempt"@, notice.attempt@),
                        ("status"@, notice.status@),
                        ("err"@, notice.err@),
                    ],
                ),
            ),
        forall|sink: &mut LogSink, r: Option<String>| #[trigger]
            call_ensures(RetryNotice::emit, (&notice, None, sink), r) ==> (*final(sink))@
                == (*sink)@ && r is None,
{
}

/// The fields of the log line about a retry are `attempt`, `status` and
/// `err`, in that order.
pub proof fn law_retry_fields(attempt: Seq<char>, status: Seq<char>, err: Seq<char>)
    ensures
        retry_fields(attempt, status, err).len() == 3,
        retry_fields(attempt, status, err)[0] == ("attempt"@, attempt),
        retry_fields(attempt, status, err)[1] == ("status"@, status),
        retry_fields(attempt, status, err)[2] == ("err"@, err),
{
}

} // verus!
