//! Auth-related APIs: the calls of this group.

use vstd::prelude::*;
use crate::api::{
    IntentCall, Fields, ObjectBuilder, number, number_model, opt_bool, opt_text, some_bool,
    some_text, text, text_or, text_or_else,
};
use crate::types::auth::{
    CreateAccountParams, GetAuthCodeParams, GetTokenParams, RefreshTokenParams,
};
use crate::util::json::{JsonModel};

verus! {

/// Auth-related APIs.
pub struct AuthService;

impl AuthService {
    /// `config.auth.createAccount`.
    pub fn create_account(params: &CreateAccountParams) -> (r: IntentCall)
        ensures
            r.intent@ == "config.auth.createAccount"@,
            !r.include_access_token,
            !r.idempotent,
            r.data@ == Fields::new()
                .with("accountId"@, JsonModel::Text(params.account_id@))
                .with_some("remark"@, opt_text(params.remark))
                .with_some("needAccessToken"@, opt_bool(params.need_access_token))
                .with_some("accessTokenValidity"@, opt_text(params.access_token_validity))
                .object(),
    {
        IntentCall {
            intent: "config.auth.createAccount".to_owned(),
            data: ObjectBuilder::new()
                .with("accountId", text(params.account_id.as_str()))
                .with_some("remark", some_text(&params.remark))
                .with_some("needAccessToken", some_bool(params.need_access_token))
                .with_some("accessTokenValidity", some_text(&params.access_token_validity))
                .build(),
            include_access_token: false,
            idempotent: false,
        }
    }

    /// `config.auth.getAuthCode`.
    pub fn get_auth_code(params: &GetAuthCodeParams) -> (r: IntentCall)
        ensures
            r.intent@ == "config.auth.getAuthCode"@,
            !r.include_access_token,
            !r.idempotent,
            r.data@ == Fields::new()
                .with("account"@, JsonModel::Text(params.account@))
                .with("accountType"@, number_model(params.account_type as int))
                .with("accessTokenValidity"@, JsonModel::Text(text_or(params.access_token_validity, "7d"@)))
                .object(),
    {
        IntentCall {
            intent: "config.auth.getAuthCode".to_owned(),
            data: ObjectBuilder::new()
                .with("account", text(params.account.as_str()))
                .with("accountType", number(params.account_type as i64))
                .with("accessTokenValidity", text_or_else(&params.access_token_validity, "7d"))
                .build(),
            include_access_token: false,
            idempotent: false,
        }
    }

    /// `config.auth.getToken`.
    pub fn get_token(params: &GetTokenParams) -> (r: IntentCall)
        ensures
            r.intent@ == "config.auth.getToken"@,
            !r.include_access_token,
            !r.idempotent,
            r.data@ == Fields::new()
                .with("authCode"@, JsonModel::Text(params.auth_code@))
                .with("account"@, JsonModel::Text(params.account@))
                .with("accountType"@, number_model(params.account_type as int))
                .object(),
    {
        IntentCall {
            intent: "config.auth.getToken".to_owned(),
            data: ObjectBuilder::new()
                .with("authCode", text(params.auth_code.expose()))
                .with("account", text(params.account.as_str()))
                .with("accountType", number(params.account_type as i64))
                .build(),
            include_access_token: false,
            idempotent: false,
        }
    }

    /// `config.auth.refreshToken`.
    pub fn refresh_token(params: &RefreshTokenParams) -> (r: IntentCall)
        ensures
            r.intent@ == "config.auth.refreshToken"@,
            !r.include_access_token,
            !r.idempotent,
            r.data@ == Fields::new()
                .with("refreshToken"@, JsonModel::Text(params.refresh_token@))
                .object(),
    {
        IntentCall {
            intent: "config.auth.refreshToken".to_owned(),
            data: ObjectBuilder::new()
                .with("refreshToken", text(params.refresh_token.expose()))
                .build(),
            include_access_token: false,
            idempotent: false,
        }
    }
}

} // verus!
