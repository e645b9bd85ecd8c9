use vstd::prelude::*;

verus! {

/// The errors returned by the client.
#[derive(Debug, Clone, Copy, PartialEq, Eq, Structural)]
pub enum Error {
    /// Loading a service account from a key file failed.
    ServiceAccountError,
    /// The authentication manager failed to produce a token.
    TokenError,
    /// Discovering credentials from the environment failed.
    EnvironmentError,
}

/// What a token request yields once the delegate's token call has returned: the token
/// itself, or `TokenError` whatever the delegate's own error was.
pub open spec fn fetch_outcome(fetched: bool) -> Result<(), Error> {
    if fetched {
        Ok(())
    } else {
        Err(Error::TokenError)
    }
}

/// Maps the result of the delegate's token call to the client's result: a token is
/// passed through unchanged, and any failure becomes `TokenError`.
pub fn token_outcome<T, E>(fetched: Result<T, E>) -> (r: Result<T, Error>)
    ensures
        fetched is Ok <==> r is Ok,
        fetched is Ok ==> r == Ok::<T, Error>(fetched->Ok_0),
        fetched is Err ==> r == Err::<T, Error>(Error::TokenError),
{
    match fetched {
        Ok(token) => Ok(token),
        Err(_) => Err(Error::TokenError),
    }
}

} // verus!
