//! What a session is configured from.

use crate::credentials::{AccountCredentials, ApplicationCredentials};
use vstd::prelude::*;

verus! {

/// Credentials and the server's URL.
#[derive(Debug, Clone, PartialEq, Eq)]
pub struct SessionConfig {
    pub application_credentials: ApplicationCredentials,
    pub account_credentials: AccountCredentials,
    pub server_url: String,
}

} // verus!
