//! The corp data client's decisions. The HTTP calls themselves (the
//! client-credentials token grant, then the person lookup) happen at the
//! boundary; here stands what their outcomes mean.

use crate::credentials::ServiceToken;
use vstd::prelude::*;

verus! {

/// A person as the corp service describes one.
#[derive(Debug, PartialEq, Eq)]
pub struct PersonData {
    pub id: i32,
    pub dni: String,
    pub nombre: String,
    pub apellidos: String,
    pub email: String,
    pub telefono: String,
}

/// One application registered with the corp service.
#[derive(Debug, PartialEq, Eq)]
pub struct AppData {
    pub id: i32,
    pub client_id: String,
    pub client_url: String,
}

/// A person's membership in one application.
#[derive(Debug, PartialEq, Eq)]
pub struct PersonAppData {
    pub id: i32,
    pub person_id: i32,
    pub auth_client_id: i32,
    pub profile: String,
}

/// The denormalized person record the corp service answers with.
#[derive(Debug, PartialEq, Eq)]
pub struct UserData {
    pub person: PersonData,
    pub lapp: Vec<AppData>,
    pub lpersonapp: Vec<PersonAppData>,
}

/// What one corp person lookup came to. Absence is a legitimate answer;
/// failure is anything else that kept the record from being read, and it
/// is fatal to whatever needed the record.
#[derive(Debug)]
pub enum CorpLookup {
    Found(UserData),
    Absent,
    Failed,
}

/// Classifies the token endpoint's answer to the client-credentials
/// grant. Only a 2xx answer whose body carried an access token yields a
/// usable service credential.
pub fn corp_token_outcome(status: u16, access_token: Option<String>) -> (res: Option<ServiceToken>)
    ensures
        res is Some <==> 200 <= status < 300 && access_token is Some,
        res matches Some(t) ==> t.0 == access_token->Some_0,
{
    if 200 <= status && status < 300 {
        match access_token {
            Some(token) => Some(ServiceToken(token)),
            None => None,
        }
    } else {
        None
    }
}

/// Classifies the person lookup's answer. 200 with a well-formed body
/// finds the person; 404 means the person legitimately does not exist;
/// everything else, including a 200 whose body could not be read, is a
/// failure of the source.
pub fn corp_response_outcome(status: u16, body: Option<UserData>) -> (res: CorpLookup)
    ensures
        status == 200 && body is Some ==> res == CorpLookup::Found(body->Some_0),
        status == 200 && body is None ==> res is Failed,
        status == 404 ==> res is Absent,
        status != 200 && status != 404 ==> res is Failed,
{
    if status == 200 {
        match body {
            Some(data) => CorpLookup::Found(data),
            None => CorpLookup::Failed,
        }
    } else if status == 404 {
        CorpLookup::Absent
    } else {
        CorpLookup::Failed
    }
}

} // verus!
