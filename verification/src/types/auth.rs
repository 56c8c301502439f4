//! Auth-related request types.

use vstd::prelude::*;
use crate::error::text_of;
use crate::types::SecretString;

verus! {

/// Parameters for `config.auth.createAccount`.
#[derive(Clone, Debug)]
#[non_exhaustive]
pub struct CreateAccountParams {
    /// Developer-defined virtual account id (must be unique within the app).
    pub account_id: String,
    /// Optional remark.
    pub remark: Option<String>,
    /// Whether access/refresh tokens should be returned.
    pub need_access_token: Option<bool>,
    /// Access token validity duration string (e.g. `"7d"`).
    pub access_token_validity: Option<String>,
}

impl CreateAccountParams {
    /// Create params with required fields.
    pub fn new(account_id: &str) -> (r: CreateAccountParams)
        ensures
            r.account_id@ == account_id@,
            r.remark is None,
            r.need_access_token is None,
            r.access_token_validity is None,
    {
        CreateAccountParams {
            account_id: account_id.to_owned(),
            remark: None,
            need_access_token: None,
            access_token_validity: None,
        }
    }

    /// Set remark.
    pub fn with_remark(self, remark: &str) -> (r: CreateAccountParams)
        ensures
            text_of(r.remark) == Some(remark@),
            r.account_id == self.account_id,
            r.need_access_token == self.need_access_token,
            r.access_token_validity == self.access_token_validity,
    {
        let mut r = self;
        r.remark = Some(remark.to_owned());
        r
    }

    /// Set whether access/refresh tokens should be returned.
    pub fn with_need_access_token(self, need_access_token: bool) -> (r: CreateAccountParams)
        ensures
            r.need_access_token == Some(need_access_token),
            r.account_id == self.account_id,
            r.remark == self.remark,
            r.access_token_validity == self.access_token_validity,
    {
        let mut r = self;
        r.need_access_token = Some(need_access_token);
        r
    }

    /// Set access token validity duration string (e.g. `"7d"`).
    pub fn with_access_token_validity(self, validity: &str) -> (r: CreateAccountParams)
        ensures
            text_of(r.access_token_validity) == Some(validity@),
            r.account_id == self.account_id,
            r.remark == self.remark,
            r.need_access_token == self.need_access_token,
    {
        let mut r = self;
        r.access_token_validity = Some(validity.to_owned());
        r
    }
}

/// Parameters for `config.auth.getAuthCode`.
#[derive(Clone, Debug)]
#[non_exhaustive]
pub struct GetAuthCodeParams {
    /// User account.
    pub account: String,
    /// Account type, as defined by Aqara.
    pub account_type: i32,
    /// Access token validity duration string (e.g. `"7d"`).
    pub access_token_validity: Option<String>,
}

impl GetAuthCodeParams {
    /// Create params with required fields.
    pub fn new(account: &str, account_type: i32) -> (r: GetAuthCodeParams)
        ensures
            r.account@ == account@,
            r.account_type == account_type,
            r.access_token_validity is None,
    {
        GetAuthCodeParams { account: account.to_owned(), account_type, access_token_validity: None }
    }

    /// Set access token validity duration string (e.g. `"7d"`).
    pub fn with_access_token_validity(self, validity: &str) -> (r: GetAuthCodeParams)
        ensures
            text_of(r.access_token_validity) == Some(validity@),
            r.account == self.account,
            r.account_type == self.account_type,
    {
        let mut r = self;
        r.access_token_validity = Some(validity.to_owned());
        r
    }
}

/// Parameters for `config.auth.getToken`.
#[derive(Clone, Debug)]
#[non_exhaustive]
pub struct GetTokenParams {
    /// Authorization code (secret).
    pub auth_code: SecretString,
    /// User account.
    pub account: String,
    /// Account type, as defined by Aqara.
    pub account_type: i32,
}

impl GetTokenParams {
    /// Create params with required fields.
    pub fn new(auth_code: &str, account: &str, account_type: i32) -> (r: GetTokenParams)
        ensures
            r.auth_code@ == auth_code@,
            r.account@ == account@,
            r.account_type == account_type,
    {
        GetTokenParams {
            auth_code: SecretString::new(auth_code),
            account: account.to_owned(),
            account_type,
        }
    }
}

/// Parameters for `config.auth.refreshToken`.
#[derive(Clone, Debug)]
#[non_exhaustive]
pub struct RefreshTokenParams {
    /// Refresh token (secret).
    pub refresh_token: SecretString,
}

impl RefreshTokenParams {
    /// Create params.
    pub fn new(refresh_token: &str) -> (r: RefreshTokenParams)
        ensures
            r.refresh_token@ == refresh_token@,
    {
        RefreshTokenParams { refresh_token: SecretString::new(refresh_token) }
    }
}

} // verus!
