use db2rest::auth::{auth_outcome, auth_request};
use db2rest::bodies::{json_string, sql_body};
use db2rest::error::ClientError;
use db2rest::job::Job;
use db2rest::session::{run_outcome, Db2REST, NoParameters};
use db2rest::settings::AuthSettings;
use db2rest::strutil::{bool_text, u64_decimal};
use db2rest::urls::base_url;

fn settings() -> AuthSettings {
    AuthSettings::new(
        false,
        "localhost".to_string(),
        50050,
        "testdb".to_string(),
        50000,
        false,
        "s3cret".to_string(),
        "db2inst1".to_string(),
        "300".to_string(),
    )
}

fn session() -> Db2REST {
    Db2REST::new(settings(), "tok123".to_string())
}

#[test]
fn decimal_rendering() {
    assert_eq!(u64_decimal(0), "0");
    assert_eq!(u64_decimal(7), "7");
    assert_eq!(u64_decimal(50050), "50050");
    assert_eq!(u64_decimal(65535), "65535");
    assert_eq!(u64_decimal(18446744073709551615), "18446744073709551615");
}

#[test]
fn bool_rendering() {
    assert_eq!(bool_text(true), "true");
    assert_eq!(bool_text(false), "false");
}

#[test]
fn base_url_uses_scheme_host_and_port() {
    assert_eq!(base_url(&settings()), "http://localhost:50050");
    let mut tls = settings();
    tls.rest_https = true;
    assert_eq!(base_url(&tls), "https://localhost:50050");
}

#[test]
fn json_string_escapes() {
    assert_eq!(json_string("plain"), "\"plain\"");
    assert_eq!(json_string("a\"b"), "\"a\\\"b\"");
    assert_eq!(json_string("a\\b"), "\"a\\\\b\"");
    assert_eq!(json_string("a\nb\tc\rd"), "\"a\\nb\\tc\\rd\"");
    assert_eq!(json_string("\u{8}\u{c}"), "\"\\b\\f\"");
    assert_eq!(json_string("\u{1}\u{1f}"), "\"\\u0001\\u001f\"");
    assert_eq!(json_string(""), "\"\"");
}

#[test]
fn auth_request_is_exact() {
    let (url, body) = auth_request(&settings());
    assert_eq!(url, "http://localhost:50050/v1/auth");
    assert_eq!(
        body,
        "{\"dbParms\":{\"dbHost\":\"localhost\",\"dbName\":\"testdb\",\"dbPort\":50000,\
         \"isSslConnection\":false,\"password\":\"s3cret\",\"username\":\"db2inst1\"},\
         \"expiryTime\":\"300\"}"
    );
}

#[test]
fn auth_outcome_decodes_token() {
    let r = auth_outcome(200, "{\"token\":\"abc123\"}".to_string());
    assert_eq!(r, Ok("abc123".to_string()));
}

#[test]
fn auth_outcome_rejects_bad_body() {
    assert_eq!(auth_outcome(200, "{}".to_string()), Err(ClientError::Decode));
}

#[test]
fn auth_outcome_non_200_is_authentication_error() {
    let r = auth_outcome(401, "bad credentials".to_string());
    assert_eq!(
        r,
        Err(ClientError::Authentication("bad credentials".to_string()))
    );
}

#[test]
fn sync_statement_sql_body_is_exact() {
    let s = session();
    let params = NoParameters {}.as_json();
    let (url, body) = s.run_sync_statement_sql_request("CREATE TABLE t (c INT)", params.as_str());
    assert_eq!(url, "http://localhost:50050/v1/services/execsql");
    assert_eq!(
        body,
        "{\"sqlStatement\":\"CREATE TABLE t (c INT)\",\"parameters\":{},\
         \"isQuery\":false,\"sync\":true}"
    );
}

#[test]
fn sql_body_flag_combinations() {
    assert_eq!(
        sql_body("SELECT 1", "{}", true, true),
        "{\"sqlStatement\":\"SELECT 1\",\"parameters\":{},\"isQuery\":true,\"sync\":true}"
    );
    assert_eq!(
        sql_body("SELECT 1", "{}", true, false),
        "{\"sqlStatement\":\"SELECT 1\",\"parameters\":{},\"isQuery\":true,\"sync\":false}"
    );
}

#[test]
fn sql_statement_is_escaped_in_body() {
    assert_eq!(
        sql_body("SELECT 'a\"b'", "{}", true, true),
        "{\"sqlStatement\":\"SELECT 'a\\\"b'\",\"parameters\":{},\"isQuery\":true,\"sync\":true}"
    );
}

#[test]
fn service_request_bodies() {
    let s = session();
    let (url, body) = s.run_sync_query_service_request("svc", "1.0", "{\"p\":1}");
    assert_eq!(url, "http://localhost:50050/v1/services/svc/1.0");
    assert_eq!(body, "{\"parameters\":{\"p\":1},\"sync\":true}");
    let (_, async_body) = s.run_async_service_request("svc", "1.0", "{\"p\":1}");
    assert_eq!(async_body, "{\"parameters\":{\"p\":1},\"sync\":false}");
}

#[test]
fn sync_query_sql_request_sets_both_flags() {
    let s = session();
    let (_, body) = s.run_sync_query_sql_request("SELECT 1", "{}");
    assert_eq!(
        body,
        "{\"sqlStatement\":\"SELECT 1\",\"parameters\":{},\"isQuery\":true,\"sync\":true}"
    );
}

#[test]
fn async_sql_request_clears_sync() {
    let s = session();
    let (_, body) = s.run_async_sql_request("SELECT 1", "{}");
    assert_eq!(
        body,
        "{\"sqlStatement\":\"SELECT 1\",\"parameters\":{},\"isQuery\":true,\"sync\":false}"
    );
}

#[test]
fn job_from_submission_derives_urls() {
    let s = session();
    let job = s.job_from_submission("{\"id\":\"J1\"}").unwrap();
    assert!(job.next_page_url.ends_with("/v1/services/J1"));
    assert!(job.stop_url.ends_with("/v1/services/stop/J1"));
    assert_eq!(job.next_page_url, "http://localhost:50050/v1/services/J1");
    assert_eq!(job.stop_url, "http://localhost:50050/v1/services/stop/J1");
    assert_eq!(job.auth_token, "tok123");
}

#[test]
fn job_from_submission_rejects_bad_body() {
    let s = session();
    assert!(matches!(
        s.job_from_submission("{\"jobid\":\"J1\"}"),
        Err(ClientError::Decode)
    ));
}

#[test]
fn job_new_builds_urls_from_settings() {
    let job = Job::new("abc", &settings(), "tok".to_string());
    assert_eq!(job.next_page_url, "http://localhost:50050/v1/services/abc");
    assert_eq!(job.stop_url, "http://localhost:50050/v1/services/stop/abc");
}

#[test]
fn page_request_url_carries_limit() {
    let job = Job::new("J1", &settings(), "tok".to_string());
    assert_eq!(
        job.page_request_url(25),
        "http://localhost:50050/v1/services/J1?limit=25"
    );
}

#[test]
fn run_outcome_accepts_200_and_202() {
    assert_eq!(run_outcome(200, "body".to_string()), Ok("body".to_string()));
    assert_eq!(run_outcome(202, "{\"id\":\"J1\"}".to_string()), Ok("{\"id\":\"J1\"}".to_string()));
}

#[test]
fn run_outcome_other_status_is_service_error() {
    assert_eq!(
        run_outcome(500, "oops".to_string()),
        Err(ClientError::Service("oops".to_string()))
    );
}

#[test]
fn no_parameters_encodes_empty_object() {
    assert_eq!(NoParameters {}.as_json(), "{}");
}

#[test]
fn default_settings_are_empty() {
    let d = AuthSettings::default();
    assert_eq!(d.hostname, "");
    assert_eq!(d.rest_port, 0);
    assert_eq!(base_url(&d), "http://:0");
}
