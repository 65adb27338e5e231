use crate::error::Error;
use vstd::prelude::*;
use vstd::string::StringExecFns;

verus! {

/// The OAuth2 provider that users log in with.
#[derive(Debug, Clone, PartialEq, Eq)]
pub struct Gitea;

/// A user account about to be stored.
#[derive(Debug, Clone, PartialEq, Eq)]
pub struct NewUser {
    pub email: String,
    pub salutation: String,
    pub is_admin: bool,
    pub is_locked: bool,
    pub tier: i32,
}

impl NewUser {
    /// The account of someone who logged in through the provider for the
    /// first time: addressed by their full name, unlocked, on the first tier.
    pub fn from_provider(email: String, full_name: String, is_admin: bool) -> (r: NewUser)
        ensures
            r.email@ == email@,
            r.salutation@ == full_name@,
            r.is_admin == is_admin,
            !r.is_locked,
            r.tier == 0,
    {
        NewUser { email, salutation: full_name, is_admin, is_locked: false, tier: 0 }
    }
}

/// Only administrators of the provider may log in for now.
pub fn admit_login(provider_admin: bool) -> (r: Result<(), Error>)
    ensures
        r is Ok <==> provider_admin,
        r matches Err(e) ==> e matches Error::InternalServerError(m) && m@
            == "wasmcloud is not ready for general use yet sorry"@,
{
    if provider_admin {
        Ok(())
    } else {
        Err(Error::InternalServerError(String::from_str("wasmcloud is not ready for general use yet sorry")))
    }
}

} // verus!
