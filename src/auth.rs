use crate::error::AuthError;
use vstd::prelude::*;

verus! {

/// Where the bearer token of a request comes from: its only `authorization`
/// header, else the token cookie; more than one header is refused.
pub open spec fn token_source(headers: Seq<String>, cookie: Option<String>) -> Result<String, AuthError> {
    if headers.len() == 0 {
        match cookie {
            Some(t) => Ok(t),
            None => Err(AuthError::Missing),
        }
    } else if headers.len() == 1 {
        Ok(headers[0])
    } else {
        Err(AuthError::BadCount)
    }
}

/// Picks the token that identifies the requester.
pub fn select_token(headers: Vec<String>, cookie: Option<String>) -> (r: Result<String, AuthError>)
    ensures
        r == token_source(headers@, cookie),
{
    let n = headers.len();
    if n == 0 {
        match cookie {
            Some(t) => Ok(t),
            None => Err(AuthError::Missing),
        }
    } else if n == 1 {
        let mut headers = headers;
        let t = headers.pop();
        match t {
            Some(t) => Ok(t),
            None => Err(AuthError::Missing),
        }
    } else {
        Err(AuthError::BadCount)
    }
}

impl AuthError {
    /// The HTTP status that turns the request away: a bad request for too
    /// many headers, unauthorized otherwise.
    pub fn status(&self) -> (r: u16)
        ensures
            r == (if *self is BadCount { 400u16 } else { 401u16 }),
    {
        match self {
            AuthError::BadCount => 400,
            _ => 401,
        }
    }
}

} // verus!
