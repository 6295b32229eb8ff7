use db2rest::error::ClientError;
use db2rest::job::{current_page_outcome, stop_outcome};
use db2rest::poll::{next_page_script, next_page_step, PollDecision, PollResult};
use db2rest::response::{decode_envelope, RawResponse, Response};
use db2rest::status::Status;

fn page(status: Status) -> Option<Response<String>> {
    Some(Response { status, results: None })
}

#[test]
fn status_table_in_order() {
    assert_eq!(Status::from(0), Ok(Status::Failed));
    assert_eq!(Status::from(1), Ok(Status::New));
    assert_eq!(Status::from(2), Ok(Status::Running));
    assert_eq!(Status::from(3), Ok(Status::DataAvailable));
    assert_eq!(Status::from(4), Ok(Status::Completed));
    assert_eq!(Status::from(5), Ok(Status::Stopping));
}

#[test]
fn status_out_of_range_fails() {
    assert_eq!(Status::from(6), Err(ClientError::Decode));
    assert_eq!(Status::from(7), Err(ClientError::Decode));
    assert_eq!(Status::from(100), Err(ClientError::Decode));
    assert_eq!(Status::from(u64::MAX), Err(ClientError::Decode));
}

#[test]
fn response_from_keeps_rows() {
    let raw = RawResponse { job_status: 3, result_set: Some(vec![10u8, 20u8]) };
    let resp = Response::from(raw).unwrap();
    assert_eq!(resp.status, Status::DataAvailable);
    assert_eq!(resp.results, Some(vec![10u8, 20u8]));
}

#[test]
fn response_from_out_of_range_fails() {
    let raw: RawResponse<u8> = RawResponse { job_status: 7, result_set: None };
    assert_eq!(Response::from(raw), Err(ClientError::Decode));
}

#[test]
fn next_page_polls_through_running() {
    let script = vec![
        page(Status::Running),
        page(Status::Running),
        Some(Response { status: Status::DataAvailable, results: Some(vec!["1".to_string()]) }),
    ];
    let (result, requests, sleeps) = next_page_script(script);
    assert_eq!(requests, 3);
    assert_eq!(sleeps, 2);
    assert_eq!(
        result,
        PollResult::Finished(Some(Response {
            status: Status::DataAvailable,
            results: Some(vec!["1".to_string()]),
        }))
    );
}

#[test]
fn next_page_no_page_without_sleeping() {
    let script: Vec<Option<Response<String>>> = vec![None];
    let (result, requests, sleeps) = next_page_script(script);
    assert_eq!(result, PollResult::Finished(None));
    assert_eq!(requests, 1);
    assert_eq!(sleeps, 0);
}

#[test]
fn next_page_skips_new_and_returns_failed() {
    let script = vec![page(Status::New), page(Status::Failed)];
    let (result, requests, sleeps) = next_page_script(script);
    assert_eq!(result, PollResult::Finished(page(Status::Failed)));
    assert_eq!(requests, 2);
    assert_eq!(sleeps, 1);
}

#[test]
fn next_page_exhausts_pending_script() {
    let script = vec![page(Status::Running), page(Status::New)];
    let (result, requests, sleeps) = next_page_script(script);
    assert_eq!(result, PollResult::<String>::Exhausted);
    assert_eq!(requests, 2);
    assert_eq!(sleeps, 2);
}

#[test]
fn next_page_step_decisions() {
    assert_eq!(next_page_step(page(Status::Running)), PollDecision::Retry);
    assert_eq!(next_page_step(page(Status::New)), PollDecision::Retry);
    assert_eq!(
        next_page_step(page(Status::Completed)),
        PollDecision::Done(page(Status::Completed))
    );
    let no_page: Option<Response<String>> = None;
    assert_eq!(next_page_step(no_page), PollDecision::Done(None));
}

#[test]
fn stop_succeeds_silently_on_204() {
    assert_eq!(stop_outcome(204, String::new()), Ok(()));
}

#[test]
fn stop_forbidden_carries_body() {
    let r = stop_outcome(403, "forbidden by policy".to_string());
    assert_eq!(r, Err(ClientError::Service("forbidden by policy".to_string())));
}

#[test]
fn decode_envelope_completed_with_rows() {
    let text = "{\"jobStatus\":4,\"resultSet\":[1,2]}";
    let resp = decode_envelope(text).unwrap();
    assert_eq!(resp.status, Status::Completed);
    assert_eq!(resp.results, Some(vec!["1".to_string(), "2".to_string()]));
}

#[test]
fn decode_envelope_without_rows() {
    let text = "{\"jobStatus\":2}";
    let resp = decode_envelope(text).unwrap();
    assert_eq!(resp.status, Status::Running);
    assert_eq!(resp.results, None);
}

#[test]
fn decode_envelope_object_rows_kept_as_json() {
    let text = "{\"jobStatus\":3,\"resultSet\":[{\"a\":1},\"x\"]}";
    let resp = decode_envelope(text).unwrap();
    assert_eq!(resp.status, Status::DataAvailable);
    assert_eq!(
        resp.results,
        Some(vec!["{\"a\":1}".to_string(), "\"x\"".to_string()])
    );
}

#[test]
fn decode_envelope_rejects_bad_shape() {
    assert_eq!(decode_envelope("not json"), Err(ClientError::Decode));
    assert_eq!(decode_envelope("{\"nope\":1}"), Err(ClientError::Decode));
    assert_eq!(decode_envelope("{\"jobStatus\":\"4\"}"), Err(ClientError::Decode));
    assert_eq!(decode_envelope("{\"jobStatus\":9}"), Err(ClientError::Decode));
    assert_eq!(decode_envelope("{\"jobStatus\":-1}"), Err(ClientError::Decode));
}

#[test]
fn current_page_404_means_no_page() {
    assert_eq!(current_page_outcome(404, String::new()), Ok(None));
}

#[test]
fn current_page_unexpected_status_is_service_error() {
    let r = current_page_outcome(500, "boom".to_string());
    assert_eq!(r, Err(ClientError::Service("boom".to_string())));
}

#[test]
fn current_page_twice_is_idempotent() {
    let text = "{\"jobStatus\":4,\"resultSet\":[\"r1\",\"r2\"]}";
    let first = current_page_outcome(200, text.to_string());
    let second = current_page_outcome(200, text.to_string());
    assert_eq!(first, second);
    let resp = first.unwrap().unwrap();
    assert_eq!(resp.status, Status::Completed);
    assert_eq!(resp.results, Some(vec!["\"r1\"".to_string(), "\"r2\"".to_string()]));
}

#[test]
fn client_error_detail() {
    assert_eq!(
        ClientError::Service("text".to_string()).detail(),
        Some(&"text".to_string())
    );
    assert_eq!(ClientError::Decode.detail(), None);
}
