//! Voice command APIs: the calls of this group.

use vstd::prelude::*;
use crate::api::{IntentCall, Fields, ObjectBuilder, text};
use crate::types::resources::{CommandDeviceResourceParams};
use crate::util::json::{JsonModel};

verus! {

/// Voice command APIs.
pub struct VoiceService;

impl VoiceService {
    /// `command.device.resource`.
    pub fn command_device_resource(params: &CommandDeviceResourceParams) -> (r: IntentCall)
        ensures
            r.intent@ == "command.device.resource"@,
            r.include_access_token,
            !r.idempotent,
            r.data@ == Fields::new()
                .with("positionId"@, JsonModel::Text(params.position_id@))
                .with("queryText"@, JsonModel::Text(params.query_text@))
                .object(),
    {
        IntentCall {
            intent: "command.device.resource".to_owned(),
            data: ObjectBuilder::new()
                .with("positionId", text(params.position_id.as_str()))
                .with("queryText", text(params.query_text.as_str()))
                .build(),
            include_access_token: true,
            idempotent: false,
        }
    }
}

} // verus!
