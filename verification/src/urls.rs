use vstd::prelude::*;

verus! {

use crate::settings::AuthSettings;
use crate::strutil::{spec_decimal, u64_decimal};

/// The URL scheme chosen by the TLS flag.
pub open spec fn spec_scheme(tls: bool) -> Seq<char> {
    if tls {
        "https"@
    } else {
        "http"@
    }
}

/// `{scheme}://{host}:{restPort}` — the prefix shared by every gateway URL.
pub open spec fn spec_base_url(s: AuthSettings) -> Seq<char> {
    spec_scheme(s.rest_https) + "://"@ + s.hostname@ + ":"@ + spec_decimal(s.rest_port as u64)
}

/// The login endpoint.
pub open spec fn spec_auth_url(s: AuthSettings) -> Seq<char> {
    spec_base_url(s) + "/v1/auth"@
}

/// The endpoint running a named stored service at a version.
pub open spec fn spec_service_url(s: AuthSettings, service: Seq<char>, version: Seq<char>) -> Seq<
    char,
> {
    spec_base_url(s) + "/v1/services/"@ + service + "/"@ + version
}

/// The endpoint executing a SQL statement.
pub open spec fn spec_execsql_url(s: AuthSettings) -> Seq<char> {
    spec_base_url(s) + "/v1/services/execsql"@
}

/// The polling endpoint of an asynchronous job.
pub open spec fn spec_next_page_url(s: AuthSettings, job_id: Seq<char>) -> Seq<char> {
    spec_base_url(s) + "/v1/services/"@ + job_id
}

/// The cancellation endpoint of an asynchronous job.
pub open spec fn spec_stop_url(s: AuthSettings, job_id: Seq<char>) -> Seq<char> {
    spec_base_url(s) + "/v1/services/stop/"@ + job_id
}

fn scheme_str(tls: bool) -> (r: &'static str)
    ensures
        r@ == spec_scheme(tls),
{
    if tls {
        "https"
    } else {
        "http"
    }
}

/// Build the shared `{scheme}://{host}:{restPort}` prefix.
pub fn base_url(s: &AuthSettings) -> (r: String)
    ensures
        r@ == spec_base_url(*s),
{
    let mut out = scheme_str(s.rest_https).to_owned();
    out.append("://");
    out.append(s.hostname.as_str());
    out.append(":");
    let port = u64_decimal(s.rest_port as u64);
    out.append(port.as_str());
    proof {
        assert(out@ =~= spec_base_url(*s));
    }
    out
}

/// Build the login URL.
pub fn auth_url(s: &AuthSettings) -> (r: String)
    ensures
        r@ == spec_auth_url(*s),
{
    let mut out = base_url(s);
    out.append("/v1/auth");
    out
}

/// Build the URL running `service` at `version`.
pub fn service_url(s: &AuthSettings, service: &str, version: &str) -> (r: String)
    ensures
        r@ == spec_service_url(*s, service@, version@),
{
    let mut out = base_url(s);
    out.append("/v1/services/");
    out.append(service);
    out.append("/");
    out.append(version);
    proof {
        assert(out@ =~= spec_service_url(*s, service@, version@));
    }
    out
}

/// Build the SQL execution URL.
pub fn execsql_url(s: &AuthSettings) -> (r: String)
    ensures
        r@ == spec_execsql_url(*s),
{
    let mut out = base_url(s);
    out.append("/v1/services/execsql");
    out
}

/// Build the polling URL of the job named by `job_id`.
pub fn next_page_url(s: &AuthSettings, job_id: &str) -> (r: String)
    ensures
        r@ == spec_next_page_url(*s, job_id@),
{
    let mut out = base_url(s);
    out.append("/v1/services/");
    out.append(job_id);
    proof {
        assert(out@ =~= spec_next_page_url(*s, job_id@));
    }
    out
}

/// Build the cancellation URL of the job named by `job_id`.
pub fn stop_url(s: &AuthSettings, job_id: &str) -> (r: String)
    ensures
        r@ == spec_stop_url(*s, job_id@),
{
    let mut out = base_url(s);
    out.append("/v1/services/stop/");
    out.append(job_id);
    proof {
        assert(out@ =~= spec_stop_url(*s, job_id@));
    }
    out
}

} // verus!
