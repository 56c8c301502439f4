//! The basic client of the Open API: one configuration with the access token in it,
//! and a handful of calls. It signs as the engine does; it neither retries nor reads
//! the envelope.

use vstd::prelude::*;
use crate::api::{number, number_model, text, Fields, ObjectBuilder};
use crate::auth::{generate_nonce, generate_signature, is_lower_hex, is_nonce, signature_of};
use crate::types::{Credentials, CredentialsView, SecretString};
use crate::util::json::{items_model, json_text, lemma_items_model, Json, JsonModel};

verus! {

/// What the basic client is configured with.
#[derive(Debug)]
pub struct AqaraConfig {
    /// The access token; empty where there is none.
    pub access_token: String,
    /// App id.
    pub app_id: String,
    /// Key id.
    pub key_id: String,
    /// App key.
    pub app_key: String,
}

/// The basic client, without its transport.
pub struct AqaraClient {
    /// What the client is configured with.
    pub config: AqaraConfig,
    /// The URL that requests go to.
    pub base_url: String,
}

/// One call of the basic client: the intent, its data, and whether the access token
/// goes with it.
pub struct ApiCall {
    /// The name of the remote operation.
    pub intent: &'static str,
    /// The data of the call.
    pub data: Json,
    /// Whether the access token goes with the call and is signed.
    pub include_access_token: bool,
}

/// The request of one call of the basic client: a `POST` of `body` to `url`, with
/// `headers` in this order.
pub struct ApiRequest {
    /// Where the request goes.
    pub url: String,
    /// The headers, each with its value.
    pub headers: Vec<(&'static str, String)>,
    /// The JSON text of the body.
    pub body: String,
}

/// The credentials in a configuration.
pub open spec fn credentials_of(config: AqaraConfig) -> CredentialsView {
    CredentialsView { app_id: config.app_id@, key_id: config.key_id@, app_key: config.app_key@ }
}

/// The JSON array of the strings `items`.
pub open spec fn str_array(items: Seq<&str>) -> JsonModel {
    JsonModel::Array(Seq::new(items.len(), |i: int| JsonModel::Text(items[i]@)))
}

fn strs(items: &[&str]) -> (r: Json)
    ensures
        r@ == str_array(items@),
{
    let mut out: Vec<Json> = Vec::new();
    let mut i: usize = 0;
    while i < items.len()
        invariant
            i <= items.len(),
            out.len() == i,
            forall|k: int| 0 <= k < i ==> out@[k]@ == JsonModel::Text(items@[k]@),
        decreases items.len() - i,
    {
        out.push(text(items[i]));
        i += 1;
    }
    proof {
        lemma_items_model(out@);
        assert(items_model(out@) =~= Seq::new(items@.len(), |i: int| JsonModel::Text(items@[i]@)));
    }
    Json::Array(out)
}

/// The text of the body of a call of the basic client: the data, then the intent.
pub open spec fn call_body(intent: Seq<char>, data: JsonModel) -> Seq<char> {
    json_text(Fields::new().with("intent"@, JsonModel::Text(intent)).with("data"@, data).object())
}

/// The value of an optional text, or `fallback`.
pub open spec fn text_or(value: Option<&str>, fallback: Seq<char>) -> Seq<char> {
    match value {
        Some(s) => s@,
        None => fallback,
    }
}

/// The whole number, or `fallback`.
pub open spec fn number_or(value: Option<i32>, fallback: int) -> int {
    match value {
        Some(n) => n as int,
        None => fallback,
    }
}

impl AqaraClient {
    /// A client of the endpoint in mainland China.
    pub fn new(config: AqaraConfig) -> (r: AqaraClient)
        ensures
            r.config == config,
            r.base_url@ == "https://open-cn.aqara.com/v3.0/open/api"@,
    {
        AqaraClient { config, base_url: "https://open-cn.aqara.com/v3.0/open/api".to_owned() }
    }

    /// A fresh nonce for one request.
    pub fn generate_nonce(&self) -> (r: String)
        ensures
            is_nonce(r@),
    {
        generate_nonce()
    }

    /// The signature of one request. The access token is signed where the call
    /// includes it and it is not empty.
    pub fn generate_signature(&self, nonce: &str, time: &str, include_access_token: bool) -> (r:
        String)
        ensures
            r@ == signature_of(
                credentials_of(self.config),
                Some(self.config.access_token@),
                include_access_token,
                nonce@,
                time@,
            ),
            r@.len() == 32,
            forall|i: int| 0 <= i < r@.len() ==> is_lower_hex(#[trigger] r@[i]),
    {
        let credentials = Credentials::new(
            self.config.app_id.as_str(),
            self.config.key_id.as_str(),
            self.config.app_key.as_str(),
        );
        let token = SecretString::new(self.config.access_token.as_str());
        generate_signature(&credentials, Some(&token), nonce, time, include_access_token)
    }

    /// The request of one call, signed with the nonce and the time that are given:
    /// its headers in their order, the access token last and only where the call
    /// includes it.
    pub fn request(&self, call: &ApiCall, nonce: &str, time: &str) -> (r: ApiRequest)
        ensures
            r.url@ == self.base_url@,
            r.body@ == call_body(call.intent@, call.data@),
            r.headers@.len() == if call.include_access_token {
                9int
            } else {
                8int
            },
            r.headers@[0].0@ == "Appid"@ && r.headers@[0].1@ == self.config.app_id@,
            r.headers@[1].0@ == "Keyid"@ && r.headers@[1].1@ == self.config.key_id@,
            r.headers@[2].0@ == "Nonce"@ && r.headers@[2].1@ == nonce@,
            r.headers@[3].0@ == "Time"@ && r.headers@[3].1@ == time@,
            r.headers@[4].0@ == "Sign"@ && r.headers@[4].1@ == signature_of(
                credentials_of(self.config),
                Some(self.config.access_token@),
                call.include_access_token,
                nonce@,
                time@,
            ),
            r.headers@[5].0@ == "Lang"@ && r.headers@[5].1@ == "en"@,
            r.headers@[6].0@ == "Content-Type"@ && r.headers@[6].1@ == "application/json"@,
            r.headers@[7].0@ == "User-Agent"@ && r.headers@[7].1@ == "AqaraSDK/1.0"@,
            call.include_access_token ==> r.headers@[8].0@ == "Accesstoken"@ && r.headers@[8].1@
                == self.config.access_token@,
    {
        let sign = self.generate_signature(nonce, time, call.include_access_token);
        let mut headers: Vec<(&'static str, String)> = Vec::new();
        headers.push(("Appid", self.config.app_id.clone()));
        headers.push(("Keyid", self.config.key_id.clone()));
        headers.push(("Nonce", nonce.to_owned()));
        headers.push(("Time", time.to_owned()));
        headers.push(("Sign", sign));
        headers.push(("Lang", "en".to_owned()));
        headers.push(("Content-Type", "application/json".to_owned()));
        headers.push(("User-Agent", "AqaraSDK/1.0".to_owned()));
        if call.include_access_token {
            headers.push(("Accesstoken", self.config.access_token.clone()));
        }
        let body = ObjectBuilder::new().with("intent", text(call.intent)).with(
            "data",
            call.data.clone(),
        ).build();
        ApiRequest { url: self.base_url.clone(), headers, body: body.to_text() }
    }

    /// `config.auth.getAuthCode`.
    pub fn config_auth_get_auth_code(
        account: &str,
        account_type: i32,
        access_token_validity: Option<&str>,
    ) -> (r: ApiCall)
        ensures
            r.intent@ == "config.auth.getAuthCode"@,
            r.include_access_token,
            r.data@ == Fields::new().with("account"@, JsonModel::Text(account@)).with(
                "accountType"@,
                number_model(account_type as int),
            ).with(
                "accessTokenValidity"@,
                JsonModel::Text(text_or(access_token_validity, "7d"@)),
            ).object(),
    {
        let validity = match access_token_validity {
            Some(v) => v,
            None => "7d",
        };
        ApiCall {
            intent: "config.auth.getAuthCode",
            data: ObjectBuilder::new().with("account", text(account)).with(
                "accountType",
                number(account_type as i64),
            ).with("accessTokenValidity", text(validity)).build(),
            include_access_token: true,
        }
    }

    /// `config.auth.refreshToken`.
    pub fn config_auth_refresh_token(refresh_token: &str) -> (r: ApiCall)
        ensures
            r.intent@ == "config.auth.refreshToken"@,
            !r.include_access_token,
            r.data@ == Fields::new().with("refreshToken"@, JsonModel::Text(refresh_token@)).object(),
    {
        ApiCall {
            intent: "config.auth.refreshToken",
            data: ObjectBuilder::new().with("refreshToken", text(refresh_token)).build(),
            include_access_token: false,
        }
    }

    /// `query.device.subInfo`.
    pub fn query_device_sub_info(gateway_did: &str) -> (r: ApiCall)
        ensures
            r.intent@ == "query.device.subInfo"@,
            r.include_access_token,
            r.data@ == Fields::new().with("did"@, JsonModel::Text(gateway_did@)).object(),
    {
        ApiCall {
            intent: "query.device.subInfo",
            data: ObjectBuilder::new().with("did", text(gateway_did)).build(),
            include_access_token: true,
        }
    }

    /// `query.resource.info`.
    pub fn query_resource_info(model: &str, resource_id: Option<&str>) -> (r: ApiCall)
        ensures
            r.intent@ == "query.resource.info"@,
            r.include_access_token,
            r.data@ == Fields::new().with("model"@, JsonModel::Text(model@)).with_some(
                "resourceId"@,
                match resource_id {
                    Some(id) => Some(JsonModel::Text(id@)),
                    None => None,
                },
            ).object(),
    {
        let id = match resource_id {
            Some(id) => Some(text(id)),
            None => None,
        };
        ApiCall {
            intent: "query.resource.info",
            data: ObjectBuilder::new().with("model", text(model)).with_some("resourceId", id).build(),
            include_access_token: true,
        }
    }

    /// `command.device.resource`.
    pub fn command_device_resource(position_id: &str, query_text: &str) -> (r: ApiCall)
        ensures
            r.intent@ == "command.device.resource"@,
            r.include_access_token,
            r.data@ == Fields::new().with("positionId"@, JsonModel::Text(position_id@)).with(
                "queryText"@,
                JsonModel::Text(query_text@),
            ).object(),
    {
        ApiCall {
            intent: "command.device.resource",
            data: ObjectBuilder::new().with("positionId", text(position_id)).with(
                "queryText",
                text(query_text),
            ).build(),
            include_access_token: true,
        }
    }

    /// `query.position.info`.
    pub fn query_position_info(
        parent_position_id: Option<&str>,
        page_num: Option<i32>,
        page_size: Option<i32>,
    ) -> (r: ApiCall)
        ensures
            r.intent@ == "query.position.info"@,
            r.include_access_token,
            r.data@ == Fields::new().with(
                "parentPositionId"@,
                JsonModel::Text(text_or(parent_position_id, ""@)),
            ).with("pageNum"@, number_model(number_or(page_num, 1))).with(
                "pageSize"@,
                number_model(number_or(page_size, 30)),
            ).object(),
    {
        let parent = match parent_position_id {
            Some(p) => p,
            None => "",
        };
        let num: i32 = match page_num {
            Some(n) => n,
            None => 1,
        };
        let size: i32 = match page_size {
            Some(n) => n,
            None => 30,
        };
        ApiCall {
            intent: "query.position.info",
            data: ObjectBuilder::new().with("parentPositionId", text(parent)).with(
                "pageNum",
                number(num as i64),
            ).with("pageSize", number(size as i64)).build(),
            include_access_token: true,
        }
    }

    /// `query.position.detail`.
    pub fn query_position_detail(position_ids: &[&str]) -> (r: ApiCall)
        ensures
            r.intent@ == "query.position.detail"@,
            r.include_access_token,
            r.data@ == Fields::new().with("positionIds"@, str_array(position_ids@)).object(),
    {
        ApiCall {
            intent: "query.position.detail",
            data: ObjectBuilder::new().with("positionIds", strs(position_ids)).build(),
            include_access_token: true,
        }
    }

    /// `query.ota.firmware`.
    pub fn query_ota_firmware(model: &str) -> (r: ApiCall)
        ensures
            r.intent@ == "query.ota.firmware"@,
            r.include_access_token,
            r.data@ == Fields::new().with("model"@, JsonModel::Text(model@)).object(),
    {
        ApiCall {
            intent: "query.ota.firmware",
            data: ObjectBuilder::new().with("model", text(model)).build(),
            include_access_token: true,
        }
    }

    /// `write.ota.upgrade`.
    pub fn write_ota_upgrade(dids: &[&str]) -> (r: ApiCall)
        ensures
            r.intent@ == "write.ota.upgrade"@,
            r.include_access_token,
            r.data@ == Fields::new().with("dids"@, str_array(dids@)).object(),
    {
        ApiCall {
            intent: "write.ota.upgrade",
            data: ObjectBuilder::new().with("dids", strs(dids)).build(),
            include_access_token: true,
        }
    }

    /// `query.ota.upgrade`.
    pub fn query_ota_upgrade(dids: &[&str]) -> (r: ApiCall)
        ensures
            r.intent@ == "query.ota.upgrade"@,
            r.include_access_token,
            r.data@ == Fields::new().with("dids"@, str_array(dids@)).object(),
    {
        ApiCall {
            intent: "query.ota.upgrade",
            data: ObjectBuilder::new().with("dids", strs(dids)).build(),
            include_access_token: true,
        }
    }
}

} // verus!
