//! Device networking / pairing related APIs: the calls of this group.

use vstd::prelude::*;
use crate::api::{IntentCall, Fields, ObjectBuilder, decimal_text, text, text_or, text_or_else};
use crate::types::networking::{
    CloseConnectParams, OpenConnectParams, QueryBindKeyParams, QueryBindParams,
    QueryDeviceSupportGatewayParams, QueryPositionSupportGatewayParams,
};
use crate::util::json::{JsonModel};
use crate::util::text::decimal;

verus! {

/// Device networking / pairing related APIs.
pub struct NetworkingService;

impl NetworkingService {
    /// `query.device.bindKey`.
    pub fn bind_key(params: &QueryBindKeyParams) -> (r: IntentCall)
        ensures
            r.intent@ == "query.device.bindKey"@,
            r.include_access_token,
            r.idempotent,
            r.data@ == Fields::new()
                .with("positionId"@, JsonModel::Text(text_or(params.position_id, ""@)))
                .with("connectType"@, JsonModel::Text(text_or(params.connect_type, "lumi"@)))
                .object(),
    {
        IntentCall {
            intent: "query.device.bindKey".to_owned(),
            data: ObjectBuilder::new()
                .with("positionId", text_or_else(&params.position_id, ""))
                .with("connectType", text_or_else(&params.connect_type, "lumi"))
                .build(),
            include_access_token: true,
            idempotent: true,
        }
    }

    /// `query.device.bind`.
    pub fn bind(params: &QueryBindParams) -> (r: IntentCall)
        ensures
            r.intent@ == "query.device.bind"@,
            r.include_access_token,
            r.idempotent,
            r.data@ == Fields::new()
                .with("bindKey"@, JsonModel::Text(params.bind_key@))
                .object(),
    {
        IntentCall {
            intent: "query.device.bind".to_owned(),
            data: ObjectBuilder::new()
                .with("bindKey", text(params.bind_key.expose()))
                .build(),
            include_access_token: true,
            idempotent: true,
        }
    }

    /// `write.device.openConnect`.
    pub fn open_connect(params: &OpenConnectParams) -> (r: IntentCall)
        ensures
            r.intent@ == "write.device.openConnect"@,
            r.include_access_token,
            !r.idempotent,
            r.data@ == Fields::new()
                .with("did"@, JsonModel::Text(params.did@))
                .object(),
    {
        IntentCall {
            intent: "write.device.openConnect".to_owned(),
            data: ObjectBuilder::new()
                .with("did", text(params.did.as_str()))
                .build(),
            include_access_token: true,
            idempotent: false,
        }
    }

    /// `write.device.closeConnect`.
    pub fn close_connect(params: &CloseConnectParams) -> (r: IntentCall)
        ensures
            r.intent@ == "write.device.closeConnect"@,
            r.include_access_token,
            !r.idempotent,
            r.data@ == Fields::new()
                .with("did"@, JsonModel::Text(params.did@))
                .object(),
    {
        IntentCall {
            intent: "write.device.closeConnect".to_owned(),
            data: ObjectBuilder::new()
                .with("did", text(params.did.as_str()))
                .build(),
            include_access_token: true,
            idempotent: false,
        }
    }

    /// `query.device.supportGateway`.
    pub fn support_gateway(params: &QueryDeviceSupportGatewayParams) -> (r: IntentCall)
        ensures
            r.intent@ == "query.device.supportGateway"@,
            r.include_access_token,
            r.idempotent,
            r.data@ == Fields::new()
                .with("model"@, JsonModel::Text(params.model@))
                .object(),
    {
        IntentCall {
            intent: "query.device.supportGateway".to_owned(),
            data: ObjectBuilder::new()
                .with("model", text(params.model.as_str()))
                .build(),
            include_access_token: true,
            idempotent: true,
        }
    }

    /// `query.position.supportGateway`.
    pub fn support_gateway_by_position(params: &QueryPositionSupportGatewayParams) -> (r: IntentCall)
        ensures
            r.intent@ == "query.position.supportGateway"@,
            r.include_access_token,
            r.idempotent,
            r.data@ == Fields::new()
                .with("positionId"@, JsonModel::Text(text_or(params.position_id, ""@)))
                .with("model"@, JsonModel::Text(params.model@))
                .with("pageNum"@, JsonModel::Text(decimal(params.page_num as nat)))
                .with("pageSize"@, JsonModel::Text(decimal(params.page_size as nat)))
                .object(),
    {
        IntentCall {
            intent: "query.position.supportGateway".to_owned(),
            data: ObjectBuilder::new()
                .with("positionId", text_or_else(&params.position_id, ""))
                .with("model", text(params.model.as_str()))
                .with("pageNum", decimal_text(params.page_num))
                .with("pageSize", decimal_text(params.page_size))
                .build(),
            include_access_token: true,
            idempotent: true,
        }
    }
}

} // verus!
