//! Where a program keeps the tokens of an OAuth session; the program supplies
//! the storage.
use vstd::prelude::*;
use crate::client::{ApiClient, ApiError};

verus! {

/// A client for calls made on behalf of a signed-in user.
pub struct OAuthClient {
    pub client: ApiClient,
}

/// Told of each new token.
pub trait NewTokenEvent {
    fn set_access_token(token: String);

    fn set_refresh_token(token: String);
}

/// Asked for the tokens kept from an earlier session.
pub trait GetOldTokens {
    fn get_access_token() -> Result<Option<String>, ApiError>;

    fn get_refresh_token() -> Result<Option<String>, ApiError>;
}

} // verus!
