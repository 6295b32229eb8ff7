use vstd::prelude::*;

verus! {

use crate::bodies::{auth_body, spec_auth_body};
use crate::error::ClientError;
use crate::settings::AuthSettings;
use crate::urls::{auth_url, spec_auth_url};
use crate::wire::{json_string_field, string_field_of};

/// Build the single login request: the URL of the auth endpoint and the
/// JSON body carrying the database coordinates, the credentials and the
/// requested token lifetime.
pub fn auth_request(settings: &AuthSettings) -> (r: (String, String))
    ensures
        r.0@ == spec_auth_url(*settings),
        r.1@ == spec_auth_body(*settings),
{
    (auth_url(settings), auth_body(settings))
}

/// Whether `r` is the correct reading of a login response: on 200 the
/// token out of the body (or a decode error when the body holds none), on
/// any other status an authentication error carrying the raw body text.
pub open spec fn auth_outcome_matches(
    status: u16,
    text: Seq<char>,
    r: Result<String, ClientError>,
) -> bool {
    if status == 200 {
        match string_field_of(text, "token"@) {
            Some(tok) => r matches Ok(t) && t@ == tok,
            None => r == Err::<String, ClientError>(ClientError::Decode),
        }
    } else {
        r matches Err(e) && e matches ClientError::Authentication(t) && t@ == text
    }
}

/// Interpret what the login request came back with. A single attempt:
/// retry policy is the caller's responsibility.
pub fn auth_outcome(status: u16, text: String) -> (r: Result<String, ClientError>)
    ensures
        auth_outcome_matches(status, text@, r),
{
    if status == 200 {
        match json_string_field(text.as_str(), "token") {
            Some(token) => Ok(token),
            None => Err(ClientError::Decode),
        }
    } else {
        Err(ClientError::Authentication(text))
    }
}

} // verus!
