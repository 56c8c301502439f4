//! Position-related APIs: the calls of this group.

use vstd::prelude::*;
use crate::api::{
    IntentCall, Fields, ObjectBuilder, number, number_model, opt_text, some_text, text, text_array,
    text_or, text_or_else, texts,
};
use crate::types::positions::{
    CreatePositionParams, DeletePositionParams, ListPositionsParams, PositionDetailParams,
    SetPositionTimeZoneParams, UpdatePositionParams,
};
use crate::util::json::{JsonModel};

verus! {

/// Position-related APIs.
pub struct PositionService;

impl PositionService {
    /// `config.position.create`.
    pub fn create(params: &CreatePositionParams) -> (r: IntentCall)
        ensures
            r.intent@ == "config.position.create"@,
            r.include_access_token,
            !r.idempotent,
            r.data@ == Fields::new()
                .with("positionName"@, JsonModel::Text(params.position_name@))
                .with_some("description"@, opt_text(params.description))
                .with_some("parentPositionId"@, opt_text(params.parent_position_id))
                .object(),
    {
        IntentCall {
            intent: "config.position.create".to_owned(),
            data: ObjectBuilder::new()
                .with("positionName", text(params.position_name.as_str()))
                .with_some("description", some_text(&params.description))
                .with_some("parentPositionId", some_text(&params.parent_position_id))
                .build(),
            include_access_token: true,
            idempotent: false,
        }
    }

    /// `config.position.update`.
    pub fn update(params: &UpdatePositionParams) -> (r: IntentCall)
        ensures
            r.intent@ == "config.position.update"@,
            r.include_access_token,
            !r.idempotent,
            r.data@ == Fields::new()
                .with("positionId"@, JsonModel::Text(params.position_id@))
                .with("positionName"@, JsonModel::Text(params.position_name@))
                .with_some("description"@, opt_text(params.description))
                .object(),
    {
        IntentCall {
            intent: "config.position.update".to_owned(),
            data: ObjectBuilder::new()
                .with("positionId", text(params.position_id.as_str()))
                .with("positionName", text(params.position_name.as_str()))
                .with_some("description", some_text(&params.description))
                .build(),
            include_access_token: true,
            idempotent: false,
        }
    }

    /// `config.position.delete`.
    pub fn delete(params: &DeletePositionParams) -> (r: IntentCall)
        ensures
            r.intent@ == "config.position.delete"@,
            r.include_access_token,
            !r.idempotent,
            r.data@ == Fields::new()
                .with("positionId"@, JsonModel::Text(params.position_id@))
                .object(),
    {
        IntentCall {
            intent: "config.position.delete".to_owned(),
            data: ObjectBuilder::new()
                .with("positionId", text(params.position_id.as_str()))
                .build(),
            include_access_token: true,
            idempotent: false,
        }
    }

    /// `config.position.timeZone`.
    pub fn set_time_zone(params: &SetPositionTimeZoneParams) -> (r: IntentCall)
        ensures
            r.intent@ == "config.position.timeZone"@,
            r.include_access_token,
            !r.idempotent,
            r.data@ == Fields::new()
                .with("positionId"@, JsonModel::Text(params.position_id@))
                .with_some("timeZone"@, opt_text(params.time_zone))
                .object(),
    {
        IntentCall {
            intent: "config.position.timeZone".to_owned(),
            data: ObjectBuilder::new()
                .with("positionId", text(params.position_id.as_str()))
                .with_some("timeZone", some_text(&params.time_zone))
                .build(),
            include_access_token: true,
            idempotent: false,
        }
    }

    /// `query.position.info`.
    pub fn list(params: &ListPositionsParams) -> (r: IntentCall)
        ensures
            r.intent@ == "query.position.info"@,
            r.include_access_token,
            r.idempotent,
            r.data@ == Fields::new()
                .with("parentPositionId"@, JsonModel::Text(text_or(params.parent_position_id, ""@)))
                .with("pageNum"@, number_model(params.page_num as int))
                .with("pageSize"@, number_model(params.page_size as int))
                .object(),
    {
        IntentCall {
            intent: "query.position.info".to_owned(),
            data: ObjectBuilder::new()
                .with("parentPositionId", text_or_else(&params.parent_position_id, ""))
                .with("pageNum", number(params.page_num as i64))
                .with("pageSize", number(params.page_size as i64))
                .build(),
            include_access_token: true,
            idempotent: true,
        }
    }

    /// `query.position.detail`.
    pub fn detail(params: &PositionDetailParams) -> (r: IntentCall)
        ensures
            r.intent@ == "query.position.detail"@,
            r.include_access_token,
            r.idempotent,
            r.data@ == Fields::new()
                .with("positionIds"@, text_array(params.position_ids@))
                .object(),
    {
        IntentCall {
            intent: "query.position.detail".to_owned(),
            data: ObjectBuilder::new()
                .with("positionIds", texts(&params.position_ids))
                .build(),
            include_access_token: true,
            idempotent: true,
        }
    }
}

} // verus!
