use vstd::prelude::*;

verus! {

use crate::settings::AuthSettings;
use crate::strutil::{
    bool_text,
    json_escape,
    spec_bool_text,
    spec_decimal,
    spec_escape,
    u64_decimal,
};

/// A JSON string literal holding exactly the characters of `s`.
pub open spec fn spec_json_string(s: Seq<char>) -> Seq<char> {
    seq!['"'] + spec_escape(s) + seq!['"']
}

/// Render `s` as a JSON string literal.
pub fn json_string(s: &str) -> (r: String)
    ensures
        r@ == spec_json_string(s@),
{
    proof {
        reveal_strlit("\"");
        assert("\""@ =~= seq!['"']);
    }
    let mut out = String::from_str("\"");
    let escaped = json_escape(s);
    out.append(escaped.as_str());
    out.append("\"");
    proof {
        assert(out@ =~= spec_json_string(s@));
    }
    out
}

/// The login request body: the database coordinates and credentials under
/// `dbParms`, and the requested token lifetime under `expiryTime`.
pub open spec fn spec_auth_body(s: AuthSettings) -> Seq<char> {
    "{\"dbParms\":{\"dbHost\":"@ + spec_json_string(s.hostname@) + ",\"dbName\":"@
        + spec_json_string(s.database@) + ",\"dbPort\":"@ + spec_decimal(s.db_port as u64)
        + ",\"isSslConnection\":"@ + spec_bool_text(s.ssl_db2) + ",\"password\":"@
        + spec_json_string(s.password@) + ",\"username\":"@ + spec_json_string(s.username@)
        + "},\"expiryTime\":"@ + spec_json_string(s.expiry_time@) + "}"@
}

/// Build the login request body.
pub fn auth_body(s: &AuthSettings) -> (r: String)
    ensures
        r@ == spec_auth_body(*s),
{
    let mut out = String::from_str("{\"dbParms\":{\"dbHost\":");
    let host = json_string(s.hostname.as_str());
    out.append(host.as_str());
    out.append(",\"dbName\":");
    let name = json_string(s.database.as_str());
    out.append(name.as_str());
    out.append(",\"dbPort\":");
    let port = u64_decimal(s.db_port as u64);
    out.append(port.as_str());
    out.append(",\"isSslConnection\":");
    out.append(bool_text(s.ssl_db2));
    out.append(",\"password\":");
    let password = json_string(s.password.as_str());
    out.append(password.as_str());
    out.append(",\"username\":");
    let username = json_string(s.username.as_str());
    out.append(username.as_str());
    out.append("},\"expiryTime\":");
    let expiry = json_string(s.expiry_time.as_str());
    out.append(expiry.as_str());
    out.append("}");
    proof {
        assert(out@ =~= spec_auth_body(*s));
    }
    out
}

/// The body of a stored-service execution request: the caller's parameters,
/// already JSON-encoded, and the `sync` flag.
pub open spec fn spec_query_body(parameters: Seq<char>, sync: bool) -> Seq<char> {
    "{\"parameters\":"@ + parameters + ",\"sync\":"@ + spec_bool_text(sync) + "}"@
}

/// Build a stored-service execution body. `parameters_json` is spliced in
/// verbatim: it must already be the JSON encoding of the parameters.
pub fn query_body(parameters_json: &str, sync: bool) -> (r: String)
    ensures
        r@ == spec_query_body(parameters_json@, sync),
{
    let mut out = String::from_str("{\"parameters\":");
    out.append(parameters_json);
    out.append(",\"sync\":");
    out.append(bool_text(sync));
    out.append("}");
    proof {
        assert(out@ =~= spec_query_body(parameters_json@, sync));
    }
    out
}

/// The body of a SQL execution request: the statement as a JSON string, the
/// caller's parameters (already JSON-encoded), and the two routing flags.
pub open spec fn spec_sql_body(
    statement: Seq<char>,
    parameters: Seq<char>,
    is_query: bool,
    sync: bool,
) -> Seq<char> {
    "{\"sqlStatement\":"@ + spec_json_string(statement) + ",\"parameters\":"@ + parameters
        + ",\"isQuery\":"@ + spec_bool_text(is_query) + ",\"sync\":"@ + spec_bool_text(sync)
        + "}"@
}

/// Build a SQL execution body. `parameters_json` is spliced in verbatim:
/// it must already be the JSON encoding of the parameters.
pub fn sql_body(statement: &str, parameters_json: &str, is_query: bool, sync: bool) -> (r: String)
    ensures
        r@ == spec_sql_body(statement@, parameters_json@, is_query, sync),
{
    let mut out = String::from_str("{\"sqlStatement\":");
    let stmt = json_string(statement);
    out.append(stmt.as_str());
    out.append(",\"parameters\":");
    out.append(parameters_json);
    out.append(",\"isQuery\":");
    out.append(bool_text(is_query));
    out.append(",\"sync\":");
    out.append(bool_text(sync));
    out.append("}");
    proof {
        assert(out@ =~= spec_sql_body(statement@, parameters_json@, is_query, sync));
    }
    out
}

} // verus!
