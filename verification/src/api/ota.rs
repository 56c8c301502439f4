//! OTA-related APIs: the calls of this group.

use vstd::prelude::*;
use crate::api::{IntentCall, Fields, ObjectBuilder, text, text_array, texts};
use crate::types::ota::{OtaFirmwareParams, OtaUpgradeParams, OtaUpgradeStatusParams};
use crate::util::json::{JsonModel};

verus! {

/// OTA-related APIs.
pub struct OtaService;

impl OtaService {
    /// `query.ota.firmware`.
    pub fn firmware(params: &OtaFirmwareParams) -> (r: IntentCall)
        ensures
            r.intent@ == "query.ota.firmware"@,
            r.include_access_token,
            r.idempotent,
            r.data@ == Fields::new()
                .with("model"@, JsonModel::Text(params.model@))
                .object(),
    {
        IntentCall {
            intent: "query.ota.firmware".to_owned(),
            data: ObjectBuilder::new()
                .with("model", text(params.model.as_str()))
                .build(),
            include_access_token: true,
            idempotent: true,
        }
    }

    /// `write.ota.upgrade`.
    pub fn upgrade(params: &OtaUpgradeParams) -> (r: IntentCall)
        ensures
            r.intent@ == "write.ota.upgrade"@,
            r.include_access_token,
            !r.idempotent,
            r.data@ == Fields::new()
                .with("dids"@, text_array(params.dids@))
                .object(),
    {
        IntentCall {
            intent: "write.ota.upgrade".to_owned(),
            data: ObjectBuilder::new()
                .with("dids", texts(&params.dids))
                .build(),
            include_access_token: true,
            idempotent: false,
        }
    }

    /// `query.ota.upgrade`.
    pub fn upgrade_status(params: &OtaUpgradeStatusParams) -> (r: IntentCall)
        ensures
            r.intent@ == "query.ota.upgrade"@,
            r.include_access_token,
            r.idempotent,
            r.data@ == Fields::new()
                .with("dids"@, text_array(params.dids@))
                .object(),
    {
        IntentCall {
            intent: "query.ota.upgrade".to_owned(),
            data: ObjectBuilder::new()
                .with("dids", texts(&params.dids))
                .build(),
            include_access_token: true,
            idempotent: true,
        }
    }
}

} // verus!
