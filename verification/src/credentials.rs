//! Credentials and the string shapes around them: the end-user bearer
//! token, the service-to-service token the corp client uses, the header
//! parsing that extracts the former, the namespaced session-cache key,
//! and the form body of the authorization-code exchange.
//!
//! The two token kinds are distinct types on purpose: an end-user
//! credential can never be handed to a call that expects the
//! service-to-service one, or the other way round.

use vstd::prelude::*;

verus! {

/// The opaque credential of an end user, as presented in the
/// `Authorization` header.
#[derive(Debug, PartialEq, Eq)]
pub struct BearerToken(pub String);

impl View for BearerToken {
    type V = Seq<char>;

    open spec fn view(&self) -> Seq<char> {
        self.0@
    }
}

impl Clone for BearerToken {
    fn clone(&self) -> (res: Self)
        ensures
            res@ == self@,
    {
        BearerToken(self.0.clone())
    }
}

impl BearerToken {
    pub fn is_empty(&self) -> (res: bool)
        ensures
            res == (self@.len() == 0),
    {
        self.0.as_str().is_empty()
    }
}

/// The credential the corp client acquires for itself through the
/// client-credentials grant; never an end-user token.
#[derive(Debug, PartialEq, Eq)]
pub struct ServiceToken(pub String);

impl View for ServiceToken {
    type V = Seq<char>;

    open spec fn view(&self) -> Seq<char> {
        self.0@
    }
}

/// The `Authorization` header value that carries a bearer token.
pub open spec fn spec_bearer_prefix() -> Seq<char> {
    "Bearer "@
}

/// Extracts the bearer token from an `Authorization` header value:
/// everything after the `"Bearer "` prefix. A header without that exact
/// prefix carries no token at all.
pub fn parse_bearer_header(header: &str) -> (res: Option<BearerToken>)
    ensures
        match res {
            Some(token) => header@.len() >= 7 && header@.subrange(0, 7) == spec_bearer_prefix()
                && token@ == header@.subrange(7, header@.len() as int),
            None => !(header@.len() >= 7 && header@.subrange(0, 7) == spec_bearer_prefix()),
        },
{
    let n = header.unicode_len();
    if n < 7 {
        return None;
    }
    let prefix = header.substring_char(0, 7);
    if prefix.to_owned() == String::from_str("Bearer ") {
        let token = header.substring_char(7, n);
        Some(BearerToken(token.to_owned()))
    } else {
        None
    }
}

/// The session-cache key for a token, namespaced so that session entries
/// can never collide with unrelated data in the same cache.
pub open spec fn spec_session_key(token: Seq<char>) -> Seq<char> {
    "session-token:"@ + ":"@ + token
}

pub fn session_key(token: &BearerToken) -> (res: String)
    ensures
        res@ == spec_session_key(token@),
{
    let mut key = String::from_str("session-token:");
    key.append(":");
    key.append(token.0.as_str());
    key
}

/// The form body of the authorization-code exchange at the identity
/// provider's token endpoint.
pub open spec fn spec_authorization_code_form(
    code: Seq<char>,
    client_id: Seq<char>,
    redirect_uri: Seq<char>,
) -> Seq<char> {
    "grant_type=authorization_code&code="@ + code + "&client_id="@ + client_id + "&redirect_uri="@
        + redirect_uri
}

pub fn authorization_code_form(code: &str, client_id: &str, redirect_uri: &str) -> (res: String)
    ensures
        res@ == spec_authorization_code_form(code@, client_id@, redirect_uri@),
{
    let mut body = String::from_str("grant_type=authorization_code&code=");
    body.append(code);
    body.append("&client_id=");
    body.append(client_id);
    body.append("&redirect_uri=");
    body.append(redirect_uri);
    body
}

} // verus!
