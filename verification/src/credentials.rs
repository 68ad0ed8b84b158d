//! Credentials of the application and of the trading account.

use vstd::prelude::*;

verus! {

/// Credentials of a trading account. The tokens change when they are refreshed.
#[derive(Debug, Clone, PartialEq, Eq)]
pub struct AccountCredentials {
    pub account_id: i64,
    pub access_token: String,
    pub token_type: String,
    pub expires_in: u64,
    pub refresh_token: String,
}

/// Mathematical value of [`AccountCredentials`].
pub struct AccountView {
    pub account_id: i64,
    pub access_token: Seq<char>,
    pub token_type: Seq<char>,
    pub expires_in: u64,
    pub refresh_token: Seq<char>,
}

impl View for AccountCredentials {
    type V = AccountView;

    open spec fn view(&self) -> AccountView {
        AccountView {
            account_id: self.account_id,
            access_token: self.access_token@,
            token_type: self.token_type@,
            expires_in: self.expires_in,
            refresh_token: self.refresh_token@,
        }
    }
}

/// The tokens that a refresh returns.
#[derive(Debug, Clone, PartialEq, Eq)]
pub struct RefreshedTokens {
    pub access_token: String,
    pub token_type: String,
    pub expires_in: i64,
    pub refresh_token: String,
}

impl AccountCredentials {
    /// The credentials after a refresh: all four token fields are
    /// replaced, the account stays.
    pub open spec fn refreshed(v: AccountView, tokens: RefreshedTokens) -> AccountView {
        AccountView {
            account_id: v.account_id,
            access_token: tokens.access_token@,
            token_type: tokens.token_type@,
            expires_in: tokens.expires_in as u64,
            refresh_token: tokens.refresh_token@,
        }
    }

    /// A copy of the credentials.
    pub fn duplicate(&self) -> (c: AccountCredentials)
        ensures
            c == *self,
    {
        AccountCredentials {
            account_id: self.account_id,
            access_token: self.access_token.clone(),
            token_type: self.token_type.clone(),
            expires_in: self.expires_in,
            refresh_token: self.refresh_token.clone(),
        }
    }

    /// Replaces the four token fields by those of a refresh. A negative
    /// `expires_in` wraps, as the conversion to unsigned does.
    pub fn apply_refresh(&mut self, tokens: RefreshedTokens)
        ensures
            final(self)@ == AccountCredentials::refreshed(old(self)@, tokens),
    {
        self.access_token = tokens.access_token;
        self.refresh_token = tokens.refresh_token;
        self.expires_in = tokens.expires_in as u64;
        self.token_type = tokens.token_type;
    }
}

/// Credentials of the client application.
#[derive(Debug, Clone, PartialEq, Eq)]
pub struct ApplicationCredentials {
    pub client_id: String,
    pub client_secret: String,
}

/// Mathematical value of [`ApplicationCredentials`].
pub struct ApplicationView {
    pub client_id: Seq<char>,
    pub client_secret: Seq<char>,
}

impl View for ApplicationCredentials {
    type V = ApplicationView;

    open spec fn view(&self) -> ApplicationView {
        ApplicationView { client_id: self.client_id@, client_secret: self.client_secret@ }
    }
}

impl ApplicationCredentials {
    /// A copy of the credentials.
    pub fn duplicate(&self) -> (c: ApplicationCredentials)
        ensures
            c == *self,
    {
        ApplicationCredentials {
            client_id: self.client_id.clone(),
            client_secret: self.client_secret.clone(),
        }
    }
}

} // verus!
