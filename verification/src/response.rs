use vstd::prelude::*;

verus! {

use crate::error::ClientError;
use crate::status::{spec_status, Status};
use crate::wire::{array_field_of, json_array_field, json_u64_field, u64_field_of};

/// The wire envelope both direct synchronous calls and job polling return:
/// an integer status and, when the server has rows to hand over, an ordered
/// result set.
pub struct RawResponse<T> {
    pub job_status: u64,
    pub result_set: Option<Vec<T>>,
}

/// A decoded outcome: the job's status, and the result rows where the
/// status denotes data availability or completion (the server omits them
/// otherwise; that is its contract, not enforced here).
#[derive(Debug, Clone, PartialEq)]
pub struct Response<T> {
    pub status: Status,
    pub results: Option<Vec<T>>,
}

impl<T> Response<T> {
    /// Decode a raw envelope: the integer status becomes a `Status`, the
    /// rows pass through unchanged. An out-of-range status is a fatal
    /// decode error.
    pub fn from(raw: RawResponse<T>) -> (r: Result<Response<T>, ClientError>)
        ensures
            raw.job_status <= 5 ==> (r matches Ok(resp) && resp.status == spec_status(
                raw.job_status,
            ) && resp.results == raw.result_set),
            raw.job_status > 5 ==> r == Err::<Response<T>, ClientError>(ClientError::Decode),
    {
        match Status::from(raw.job_status) {
            Ok(status) => Ok(Response { status, results: raw.result_set }),
            Err(e) => Err(e),
        }
    }
}

/// The abstract content of an envelope text: the status decoded from its
/// `jobStatus` field and the rows under `resultSet`, each as its JSON text;
/// `None` when the envelope does not fit the expected shape.
pub open spec fn spec_envelope(text: Seq<char>) -> Option<(Status, Option<Seq<Seq<char>>>)> {
    match u64_field_of(text, "jobStatus"@) {
        Some(n) => if n <= 5 {
            Some((spec_status(n), array_field_of(text, "resultSet"@)))
        } else {
            None
        },
        None => None,
    }
}

/// Whether `r` is the correct decoding of envelope `text`: success exactly
/// when the envelope fits the expected shape, carrying its status and its
/// rows; a decode error otherwise.
pub open spec fn envelope_decodes_to(
    text: Seq<char>,
    r: Result<Response<String>, ClientError>,
) -> bool {
    match spec_envelope(text) {
        Some(content) => r matches Ok(resp) && resp.status == content.0 && (match content.1 {
            Some(rows) => resp.results matches Some(v) && v.deep_view() == rows,
            None => resp.results is None,
        }),
        None => r == Err::<Response<String>, ClientError>(ClientError::Decode),
    }
}

/// Decode an envelope text into a `Response` whose rows are the JSON texts
/// of the `resultSet` elements.
pub fn decode_envelope(text: &str) -> (r: Result<Response<String>, ClientError>)
    ensures
        envelope_decodes_to(text@, r),
{
    match json_u64_field(text, "jobStatus") {
        None => Err(ClientError::Decode),
        Some(n) => {
            let result_set = json_array_field(text, "resultSet");
            match Response::from(RawResponse { job_status: n, result_set }) {
                Ok(resp) => Ok(resp),
                Err(e) => Err(e),
            }
        },
    }
}

} // verus!
