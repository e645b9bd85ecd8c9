use vstd::prelude::*;

use gcp_auth::{CustomServiceAccount, Error as AuthError};

use crate::error::Error;

verus! {

#[verifier::external_type_specification]
#[verifier::external_body]
pub struct ExCustomServiceAccount(gcp_auth::CustomServiceAccount);

#[verifier::external_type_specification]
#[verifier::external_body]
pub struct ExAuthError(AuthError);

/// Whether `CustomServiceAccount::from_json` accepts this text as a service-account key:
/// JSON with the required fields whose private key is a usable PKCS#8 RSA key in PEM form.
pub uninterp spec fn accepts_service_account_key(json: Seq<char>) -> bool;

/// Relies on `gcp_auth::CustomServiceAccount::from_json`, which parses the key file's JSON
/// and loads its private key; whether it succeeds depends on the text alone.
#[verifier::external_body]
fn parse_service_account(json: &str) -> (r: Result<CustomServiceAccount, AuthError>)
    ensures
        r is Ok <==> accepts_service_account_key(json@),
{
    CustomServiceAccount::from_json(json)
}

/// Loads a service account from the text of its key file. Text that is not a usable key
/// yields `ServiceAccountError`.
pub fn service_account_from_json(json: &str) -> (r: Result<CustomServiceAccount, Error>)
    ensures
        r is Ok <==> accepts_service_account_key(json@),
        r matches Err(e) ==> e == Error::ServiceAccountError,
{
    match parse_service_account(json) {
        Ok(account) => Ok(account),
        Err(_) => Err(Error::ServiceAccountError),
    }
}

} // verus!
