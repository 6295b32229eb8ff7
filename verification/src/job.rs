use vstd::prelude::*;

verus! {

use crate::error::ClientError;
use crate::response::{decode_envelope, envelope_decodes_to, Response};
use crate::settings::AuthSettings;
use crate::strutil::{spec_decimal, u64_decimal};
use crate::urls::{next_page_url, spec_next_page_url, spec_stop_url, stop_url};

/// A handle on an in-flight or completed asynchronous execution. It owns a
/// copy of the session's token and its two URLs, so it keeps working even
/// if the owning session is discarded. It becomes inert once the gateway
/// reports a settled status or the job is stopped; there is no explicit
/// destroy.
#[derive(Debug, Clone)]
pub struct Job {
    pub next_page_url: String,
    pub stop_url: String,
    pub auth_token: String,
}

impl Job {
    /// Derive the polling and cancellation URLs of the job the gateway
    /// accepted under `job_id`, capturing the token by value.
    pub fn new(job_id: &str, settings: &AuthSettings, auth_token: String) -> (r: Job)
        ensures
            r.next_page_url@ == spec_next_page_url(*settings, job_id@),
            r.stop_url@ == spec_stop_url(*settings, job_id@),
            r.auth_token == auth_token,
    {
        Job {
            next_page_url: next_page_url(settings, job_id),
            stop_url: stop_url(settings, job_id),
            auth_token,
        }
    }

    /// The polling URL with the page-size limit as its query parameter.
    pub fn page_request_url(&self, limit: u64) -> (r: String)
        ensures
            r@ == self.next_page_url@ + "?limit="@ + spec_decimal(limit),
    {
        let mut out = self.next_page_url.clone();
        out.append("?limit=");
        let digits = u64_decimal(limit);
        out.append(digits.as_str());
        proof {
            assert(out@ =~= self.next_page_url@ + "?limit="@ + spec_decimal(limit));
        }
        out
    }
}

/// Whether `r` is the correct reading of a page request that returned HTTP
/// `status` with body `text`: 404 is "no page" (distinct from an empty
/// result set), 200 decodes the envelope, and anything else is a service
/// error carrying the body verbatim.
pub open spec fn page_outcome_matches(
    status: u16,
    text: Seq<char>,
    r: Result<Option<Response<String>>, ClientError>,
) -> bool {
    if status == 404 {
        r == Ok::<Option<Response<String>>, ClientError>(None)
    } else if status == 200 {
        match r {
            Ok(Some(resp)) => envelope_decodes_to(text, Ok(resp)),
            Ok(None) => false,
            Err(e) => envelope_decodes_to(text, Err(e)),
        }
    } else {
        r matches Err(e) && e matches ClientError::Service(t) && t@ == text
    }
}

/// Interpret what one page request came back with. The transport hands in
/// the HTTP status and the body text; no request is retried here.
pub fn current_page_outcome(status: u16, text: String) -> (r: Result<
    Option<Response<String>>,
    ClientError,
>)
    ensures
        page_outcome_matches(status, text@, r),
{
    if status == 404 {
        Ok(None)
    } else if status == 200 {
        match decode_envelope(text.as_str()) {
            Ok(resp) => Ok(Some(resp)),
            Err(e) => Err(e),
        }
    } else {
        Err(ClientError::Service(text))
    }
}

/// Whether `r` is the correct reading of a stop request that returned HTTP
/// `status` with body `text`: success is signaled by 204 exactly, and any
/// other status is a service error carrying the body verbatim.
pub open spec fn stop_outcome_matches(
    status: u16,
    text: Seq<char>,
    r: Result<(), ClientError>,
) -> bool {
    if status == 204 {
        r == Ok::<(), ClientError>(())
    } else {
        r matches Err(e) && e matches ClientError::Service(t) && t@ == text
    }
}

/// Interpret what a stop request came back with. Stopping transitions no
/// local state: the gateway is the source of truth, and later polls observe
/// whatever it now reports.
pub fn stop_outcome(status: u16, text: String) -> (r: Result<(), ClientError>)
    ensures
        stop_outcome_matches(status, text@, r),
{
    if status == 204 {
        Ok(())
    } else {
        Err(ClientError::Service(text))
    }
}

/// Whether two decoded pages agree structurally: same status, rows present
/// on the same side, and rows spelled the same.
pub open spec fn responses_agree(a: Response<String>, b: Response<String>) -> bool {
    &&& a.status == b.status
    &&& (a.results is Some) == (b.results is Some)
    &&& match (a.results, b.results) {
        (Some(x), Some(y)) => x.deep_view() == y.deep_view(),
        _ => true,
    }
}

/// Whether two page-request readings agree structurally in every case:
/// both succeed with "no page", both succeed with agreeing pages, or both
/// fail with the same error.
pub open spec fn page_outcomes_agree(
    r1: Result<Option<Response<String>>, ClientError>,
    r2: Result<Option<Response<String>>, ClientError>,
) -> bool {
    match (r1, r2) {
        (Ok(p1), Ok(p2)) => match (p1, p2) {
            (Some(a), Some(b)) => responses_agree(a, b),
            (None, None) => true,
            _ => false,
        },
        (Err(e1), Err(e2)) => match (e1, e2) {
            (ClientError::Decode, ClientError::Decode) => true,
            (ClientError::Service(t1), ClientError::Service(t2)) => t1@ == t2@,
            _ => false,
        },
        _ => false,
    }
}

/// Reading one unchanged page response twice is idempotent: any two correct
/// readings of the same status code and body text agree structurally.
pub proof fn lemma_current_page_idempotent(
    status: u16,
    text: Seq<char>,
    r1: Result<Option<Response<String>>, ClientError>,
    r2: Result<Option<Response<String>>, ClientError>,
)
    requires
        page_outcome_matches(status, text, r1),
        page_outcome_matches(status, text, r2),
    ensures
        page_outcomes_agree(r1, r2),
{
}

} // verus!
