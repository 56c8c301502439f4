//! Device-related APIs: the calls of this group.

use vstd::prelude::*;
use crate::api::{
    IntentCall, Fields, ObjectBuilder, number, number_model, opt_text_array, some_texts, text,
    text_array, text_or, text_or_else, texts,
};
use crate::types::devices::{
    QueryDeviceInfoParams, QuerySubDevicesParams, UnbindDeviceParams, UpdateDeviceNameParams,
    UpdateDevicePositionParams,
};
use crate::util::json::{JsonModel};

verus! {

/// Device-related APIs.
pub struct DeviceService;

impl DeviceService {
    /// `query.device.info`.
    pub fn info(params: &QueryDeviceInfoParams) -> (r: IntentCall)
        ensures
            r.intent@ == "query.device.info"@,
            r.include_access_token,
            r.idempotent,
            r.data@ == Fields::new()
                .with("positionId"@, JsonModel::Text(text_or(params.position_id, ""@)))
                .with("pageNum"@, number_model(params.page_num as int))
                .with("pageSize"@, number_model(params.page_size as int))
                .with_some("dids"@, opt_text_array(params.dids))
                .object(),
    {
        IntentCall {
            intent: "query.device.info".to_owned(),
            data: ObjectBuilder::new()
                .with("positionId", text_or_else(&params.position_id, ""))
                .with("pageNum", number(params.page_num as i64))
                .with("pageSize", number(params.page_size as i64))
                .with_some("dids", some_texts(&params.dids))
                .build(),
            include_access_token: true,
            idempotent: true,
        }
    }

    /// `query.device.subInfo`.
    pub fn sub_info(params: &QuerySubDevicesParams) -> (r: IntentCall)
        ensures
            r.intent@ == "query.device.subInfo"@,
            r.include_access_token,
            r.idempotent,
            r.data@ == Fields::new()
                .with("did"@, JsonModel::Text(params.gateway_did@))
                .object(),
    {
        IntentCall {
            intent: "query.device.subInfo".to_owned(),
            data: ObjectBuilder::new()
                .with("did", text(params.gateway_did.as_str()))
                .build(),
            include_access_token: true,
            idempotent: true,
        }
    }

    /// `config.device.name`.
    pub fn update_name(params: &UpdateDeviceNameParams) -> (r: IntentCall)
        ensures
            r.intent@ == "config.device.name"@,
            r.include_access_token,
            !r.idempotent,
            r.data@ == Fields::new()
                .with("did"@, JsonModel::Text(params.did@))
                .with("name"@, JsonModel::Text(params.name@))
                .object(),
    {
        IntentCall {
            intent: "config.device.name".to_owned(),
            data: ObjectBuilder::new()
                .with("did", text(params.did.as_str()))
                .with("name", text(params.name.as_str()))
                .build(),
            include_access_token: true,
            idempotent: false,
        }
    }

    /// `config.device.position`.
    pub fn update_position(params: &UpdateDevicePositionParams) -> (r: IntentCall)
        ensures
            r.intent@ == "config.device.position"@,
            r.include_access_token,
            !r.idempotent,
            r.data@ == Fields::new()
                .with("dids"@, text_array(params.dids@))
                .with("positionId"@, JsonModel::Text(params.position_id@))
                .object(),
    {
        IntentCall {
            intent: "config.device.position".to_owned(),
            data: ObjectBuilder::new()
                .with("dids", texts(&params.dids))
                .with("positionId", text(params.position_id.as_str()))
                .build(),
            include_access_token: true,
            idempotent: false,
        }
    }

    /// `write.device.unbind`.
    pub fn unbind(params: &UnbindDeviceParams) -> (r: IntentCall)
        ensures
            r.intent@ == "write.device.unbind"@,
            r.include_access_token,
            !r.idempotent,
            r.data@ == Fields::new()
                .with("did"@, JsonModel::Text(params.did@))
                .object(),
    {
        IntentCall {
            intent: "write.device.unbind".to_owned(),
            data: ObjectBuilder::new()
                .with("did", text(params.did.as_str()))
                .build(),
            include_access_token: true,
            idempotent: false,
        }
    }
}

} // verus!
