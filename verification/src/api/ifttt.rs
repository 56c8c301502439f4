//! IFTTT metadata query APIs: the calls of this group.

use vstd::prelude::*;
use crate::api::{IntentCall, Fields, ObjectBuilder, text_array, texts};
use crate::types::ifttt::{IftttModelsParams};
use crate::util::json::{};

verus! {

/// IFTTT metadata query APIs.
pub struct IftttService;

impl IftttService {
    /// `query.ifttt.trigger`.
    pub fn trigger(params: &IftttModelsParams) -> (r: IntentCall)
        ensures
            r.intent@ == "query.ifttt.trigger"@,
            r.include_access_token,
            r.idempotent,
            r.data@ == Fields::new()
                .with("models"@, text_array(params.models@))
                .object(),
    {
        IntentCall {
            intent: "query.ifttt.trigger".to_owned(),
            data: ObjectBuilder::new()
                .with("models", texts(&params.models))
                .build(),
            include_access_token: true,
            idempotent: true,
        }
    }

    /// `query.ifttt.action`.
    pub fn action(params: &IftttModelsParams) -> (r: IntentCall)
        ensures
            r.intent@ == "query.ifttt.action"@,
            r.include_access_token,
            r.idempotent,
            r.data@ == Fields::new()
                .with("models"@, text_array(params.models@))
                .object(),
    {
        IntentCall {
            intent: "query.ifttt.action".to_owned(),
            data: ObjectBuilder::new()
                .with("models", texts(&params.models))
                .build(),
            include_access_token: true,
            idempotent: true,
        }
    }
}

} // verus!
