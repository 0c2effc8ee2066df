//! Authentication against the identity provider: the token request and
//! the reading of its reply.

use vstd::prelude::*;
use crate::error::CopernicusError;
use crate::json::{member, JsonValue};
use crate::text::push_all;

verus! {

/// The token endpoint of the identity provider.
pub const AUTH_URL: &'static str =
    "https://identity.dataspace.copernicus.eu/auth/realms/CDSE/protocol/openid-connect/token";

/// The plain values of a list of form fields.
pub open spec fn form_view(fields: Seq<(String, String)>) -> Seq<(Seq<char>, Seq<char>)> {
    fields.map_values(|f: (String, String)| (f.0@, f.1@))
}

/// The form fields of a password-grant token request for the public client.
pub fn token_request_form(username: &str, password: &str) -> (r: Vec<(String, String)>)
    ensures
        form_view(r@) == seq![
            ("client_id"@, "cdse-public"@),
            ("username"@, username@),
            ("password"@, password@),
            ("grant_type"@, "password"@),
        ],
{
    let r = vec![
        ("client_id".to_owned(), "cdse-public".to_owned()),
        ("username".to_owned(), username.to_owned()),
        ("password".to_owned(), password.to_owned()),
        ("grant_type".to_owned(), "password".to_owned()),
    ];
    assert(form_view(r@) =~= seq![
        ("client_id"@, "cdse-public"@),
        ("username"@, username@),
        ("password"@, password@),
        ("grant_type"@, "password"@),
    ]);
    r
}

/// What a token reply yields: for a failure status, the
/// authentication-failed error naming it (`HTTP <status>`); otherwise the
/// body's string member `access_token`, or the authentication-failed
/// error saying it is missing.
pub open spec fn token_reply_spec(success: bool, status: Seq<char>, body: Option<JsonValue>) -> Result<
    Seq<char>,
    Seq<char>,
> {
    if !success {
        Err("HTTP "@ + status)
    } else {
        match body {
            Some(b) => match member(b, "access_token"@) {
                Some(JsonValue::Str(t)) => Ok(t@),
                _ => Err("response did not contain an access_token field"@),
            },
            None => Err("response did not contain an access_token field"@),
        }
    }
}

/// Reads the access token out of the identity provider's reply.
///
/// `success` tells whether the HTTP status was a success, `status` is its
/// text (e.g. `401 Unauthorized`); `body` is the parsed JSON body, which is
/// read only on success.
pub fn access_token_from_reply(success: bool, status: &str, body: Option<&JsonValue>) -> (r: Result<
    String,
    CopernicusError,
>)
    ensures
        match (r, token_reply_spec(success, status@, match body { Some(b) => Some(*b), None => None })) {
            (Ok(t), Ok(v)) => t@ == v,
            (Err(CopernicusError::AuthenticationFailed(m)), Err(v)) => m@ == v,
            _ => false,
        },
{
    if !success {
        let mut m = String::new();
        push_all(&mut m, "HTTP ");
        push_all(&mut m, status);
        return Err(CopernicusError::AuthenticationFailed(m));
    }
    match body {
        Some(b) => match b.get("access_token") {
            Some(JsonValue::Str(t)) => Ok(t.clone()),
            _ => Err(
                CopernicusError::AuthenticationFailed(
                    "response did not contain an access_token field".to_owned(),
                ),
            ),
        },
        None => Err(
            CopernicusError::AuthenticationFailed(
                "response did not contain an access_token field".to_owned(),
            ),
        ),
    }
}

/// The error for a missing credentials variable.
pub fn missing_credential(variable: &str) -> (e: CopernicusError)
    ensures
        e matches CopernicusError::AuthenticationFailed(m) && m@ == variable@
            + " environment variable not set"@,
{
    let mut m = String::new();
    push_all(&mut m, variable);
    push_all(&mut m, " environment variable not set");
    CopernicusError::AuthenticationFailed(m)
}

} // verus!
