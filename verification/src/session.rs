use vstd::prelude::*;

verus! {

use crate::bodies::{query_body, spec_query_body, spec_sql_body, sql_body};
use crate::error::ClientError;
use crate::job::Job;
use crate::settings::AuthSettings;
use crate::urls::{
    service_url,
    execsql_url,
    spec_execsql_url,
    spec_next_page_url,
    spec_service_url,
    spec_stop_url,
};
use crate::wire::{json_string_field, string_field_of};

/// The empty parameter set, for statements and services that take none.
pub struct NoParameters {}

impl NoParameters {
    /// Its JSON encoding: an empty object.
    pub fn as_json(&self) -> (r: String)
        ensures
            r@ == "{}"@,
    {
        String::from_str("{}")
    }
}

/// A session against the gateway: the connection settings and the bearer
/// token the login produced. It exposes the request-building and
/// response-reading halves of the four execution modes; the transport in
/// between is the caller's.
pub struct Db2REST {
    pub auth_settings: AuthSettings,
    pub auth_token: String,
}

/// Whether `r` is the correct reading of an execution response, shared by
/// both primitives: 200 and 202 succeed with the body (202 signals
/// async-accepted), anything else is a service error carrying the body
/// verbatim — the server's text is the authoritative diagnostic.
pub open spec fn run_outcome_matches(
    status: u16,
    text: Seq<char>,
    r: Result<String, ClientError>,
) -> bool {
    if status == 200 || status == 202 {
        r matches Ok(t) && t@ == text
    } else {
        r matches Err(e) && e matches ClientError::Service(t) && t@ == text
    }
}

/// Interpret what an execution request came back with.
pub fn run_outcome(status: u16, text: String) -> (r: Result<String, ClientError>)
    ensures
        run_outcome_matches(status, text@, r),
{
    if status == 200 || status == 202 {
        Ok(text)
    } else {
        Err(ClientError::Service(text))
    }
}

impl Db2REST {
    /// Assemble a session from its settings and the token login returned.
    pub fn new(auth_settings: AuthSettings, auth_token: String) -> (r: Db2REST)
        ensures
            r.auth_settings == auth_settings,
            r.auth_token == auth_token,
    {
        Db2REST { auth_settings, auth_token }
    }

    /// Request half of the stored-service primitive: URL and body of a
    /// POST running `service` at `version`. `parameters_json` must already
    /// be the JSON encoding of the parameters.
    pub fn run_service_request(
        &self,
        service: &str,
        version: &str,
        parameters_json: &str,
        sync: bool,
    ) -> (r: (String, String))
        ensures
            r.0@ == spec_service_url(self.auth_settings, service@, version@),
            r.1@ == spec_query_body(parameters_json@, sync),
    {
        (
            service_url(&self.auth_settings, service, version),
            query_body(parameters_json, sync),
        )
    }

    /// Request half of the SQL primitive: URL and body of a POST executing
    /// `statement`. `parameters_json` must already be the JSON encoding of
    /// the parameters.
    pub fn run_sql_request(
        &self,
        statement: &str,
        parameters_json: &str,
        is_query: bool,
        sync: bool,
    ) -> (r: (String, String))
        ensures
            r.0@ == spec_execsql_url(self.auth_settings),
            r.1@ == spec_sql_body(statement@, parameters_json@, is_query, sync),
    {
        (execsql_url(&self.auth_settings), sql_body(statement, parameters_json, is_query, sync))
    }

    /// Request of a synchronous service query: `sync` set.
    pub fn run_sync_query_service_request(
        &self,
        service: &str,
        version: &str,
        parameters_json: &str,
    ) -> (r: (String, String))
        ensures
            r.0@ == spec_service_url(self.auth_settings, service@, version@),
            r.1@ == spec_query_body(parameters_json@, true),
    {
        self.run_service_request(service, version, parameters_json, true)
    }

    /// Request of a synchronous SQL query: `isQuery` and `sync` set.
    pub fn run_sync_query_sql_request(&self, statement: &str, parameters_json: &str) -> (r: (
        String,
        String,
    ))
        ensures
            r.0@ == spec_execsql_url(self.auth_settings),
            r.1@ == spec_sql_body(statement@, parameters_json@, true, true),
    {
        self.run_sql_request(statement, parameters_json, true, true)
    }

    /// Request of a synchronous service call whose results are not wanted:
    /// the same request as the query form, read for success only.
    pub fn run_sync_statement_service_request(
        &self,
        service: &str,
        version: &str,
        parameters_json: &str,
    ) -> (r: (String, String))
        ensures
            r.0@ == spec_service_url(self.auth_settings, service@, version@),
            r.1@ == spec_query_body(parameters_json@, true),
    {
        self.run_service_request(service, version, parameters_json, true)
    }

    /// Request of a synchronous SQL statement: `isQuery` clear, `sync` set.
    pub fn run_sync_statement_sql_request(&self, statement: &str, parameters_json: &str) -> (r: (
        String,
        String,
    ))
        ensures
            r.0@ == spec_execsql_url(self.auth_settings),
            r.1@ == spec_sql_body(statement@, parameters_json@, false, true),
    {
        self.run_sql_request(statement, parameters_json, false, true)
    }

    /// Request of an asynchronous service call: `sync` clear.
    pub fn run_async_service_request(
        &self,
        service: &str,
        version: &str,
        parameters_json: &str,
    ) -> (r: (String, String))
        ensures
            r.0@ == spec_service_url(self.auth_settings, service@, version@),
            r.1@ == spec_query_body(parameters_json@, false),
    {
        self.run_service_request(service, version, parameters_json, false)
    }

    /// Request of an asynchronous SQL query: `isQuery` set, `sync` clear.
    pub fn run_async_sql_request(&self, statement: &str, parameters_json: &str) -> (r: (
        String,
        String,
    ))
        ensures
            r.0@ == spec_execsql_url(self.auth_settings),
            r.1@ == spec_sql_body(statement@, parameters_json@, true, false),
    {
        self.run_sql_request(statement, parameters_json, true, false)
    }

    /// Decode the body an async-accepted submission returned, `{id}`, and
    /// derive the job handle: its polling and cancellation URLs under the
    /// accepted id, with this session's token captured by value, so the
    /// job outlives the session.
    pub fn job_from_submission(&self, text: &str) -> (r: Result<Job, ClientError>)
        ensures
            match string_field_of(text@, "id"@) {
                Some(id) => r matches Ok(job) && job.next_page_url@ == spec_next_page_url(
                    self.auth_settings,
                    id,
                ) && job.stop_url@ == spec_stop_url(self.auth_settings, id) && job.auth_token
                    == self.auth_token,
                None => r == Err::<Job, ClientError>(ClientError::Decode),
            },
    {
        match json_string_field(text, "id") {
            Some(id) => Ok(Job::new(id.as_str(), &self.auth_settings, self.auth_token.clone())),
            None => Err(ClientError::Decode),
        }
    }
}

} // verus!
