//! Automation (linkage) APIs: the calls of this group.

use vstd::prelude::*;
use crate::api::{
    IntentCall, Fields, ObjectBuilder, number, number_model, text, text_or, text_or_else,
};
use crate::types::linkages::{
    CreateLinkageParams, DeleteLinkageParams, EnableLinkageParams, QueryLinkageDetailParams,
    QueryLinkagesByPositionIdParams, QueryLinkagesBySubjectIdParams, UpdateLinkageParams,
};
use crate::util::json::{JsonModel};

verus! {

/// Automation (linkage) APIs.
pub struct LinkageService;

impl LinkageService {
    /// `config.linkage.create`.
    pub fn create(params: &CreateLinkageParams) -> (r: IntentCall)
        ensures
            r.intent@ == "config.linkage.create"@,
            r.include_access_token,
            !r.idempotent,
            r.data@ == Fields::new()
                .with("name"@, JsonModel::Text(params.name@))
                .with("positionId"@, JsonModel::Text(text_or(params.position_id, ""@)))
                .with("conditions"@, params.conditions@)
                .with("actions"@, params.actions@)
                .object(),
    {
        IntentCall {
            intent: "config.linkage.create".to_owned(),
            data: ObjectBuilder::new()
                .with("name", text(params.name.as_str()))
                .with("positionId", text_or_else(&params.position_id, ""))
                .with("conditions", params.conditions.clone())
                .with("actions", params.actions.clone())
                .build(),
            include_access_token: true,
            idempotent: false,
        }
    }

    /// `config.linkage.update`.
    pub fn update(params: &UpdateLinkageParams) -> (r: IntentCall)
        ensures
            r.intent@ == "config.linkage.update"@,
            r.include_access_token,
            !r.idempotent,
            r.data@ == Fields::new()
                .with("linkageId"@, JsonModel::Text(params.linkage_id@))
                .with("name"@, JsonModel::Text(params.name@))
                .with("positionId"@, JsonModel::Text(text_or(params.position_id, ""@)))
                .with("conditions"@, params.conditions@)
                .with("actions"@, params.actions@)
                .object(),
    {
        IntentCall {
            intent: "config.linkage.update".to_owned(),
            data: ObjectBuilder::new()
                .with("linkageId", text(params.linkage_id.as_str()))
                .with("name", text(params.name.as_str()))
                .with("positionId", text_or_else(&params.position_id, ""))
                .with("conditions", params.conditions.clone())
                .with("actions", params.actions.clone())
                .build(),
            include_access_token: true,
            idempotent: false,
        }
    }

    /// `config.linkage.delete`.
    pub fn delete(params: &DeleteLinkageParams) -> (r: IntentCall)
        ensures
            r.intent@ == "config.linkage.delete"@,
            r.include_access_token,
            !r.idempotent,
            r.data@ == Fields::new()
                .with("linkageId"@, JsonModel::Text(params.linkage_id@))
                .object(),
    {
        IntentCall {
            intent: "config.linkage.delete".to_owned(),
            data: ObjectBuilder::new()
                .with("linkageId", text(params.linkage_id.as_str()))
                .build(),
            include_access_token: true,
            idempotent: false,
        }
    }

    /// `config.linkage.enable`.
    pub fn enable(params: &EnableLinkageParams) -> (r: IntentCall)
        ensures
            r.intent@ == "config.linkage.enable"@,
            r.include_access_token,
            !r.idempotent,
            r.data@ == Fields::new()
                .with("linkageId"@, JsonModel::Text(params.linkage_id@))
                .with("enable"@, number_model(params.enable as int))
                .object(),
    {
        IntentCall {
            intent: "config.linkage.enable".to_owned(),
            data: ObjectBuilder::new()
                .with("linkageId", text(params.linkage_id.as_str()))
                .with("enable", number(params.enable as i64))
                .build(),
            include_access_token: true,
            idempotent: false,
        }
    }

    /// `query.linkage.detail`.
    pub fn detail(params: &QueryLinkageDetailParams) -> (r: IntentCall)
        ensures
            r.intent@ == "query.linkage.detail"@,
            r.include_access_token,
            r.idempotent,
            r.data@ == Fields::new()
                .with("linkageId"@, JsonModel::Text(params.linkage_id@))
                .object(),
    {
        IntentCall {
            intent: "query.linkage.detail".to_owned(),
            data: ObjectBuilder::new()
                .with("linkageId", text(params.linkage_id.as_str()))
                .build(),
            include_access_token: true,
            idempotent: true,
        }
    }

    /// `query.linkage.listBySubjectId`.
    pub fn list_by_subject_id(params: &QueryLinkagesBySubjectIdParams) -> (r: IntentCall)
        ensures
            r.intent@ == "query.linkage.listBySubjectId"@,
            r.include_access_token,
            r.idempotent,
            r.data@ == Fields::new()
                .with("subjectId"@, JsonModel::Text(params.subject_id@))
                .object(),
    {
        IntentCall {
            intent: "query.linkage.listBySubjectId".to_owned(),
            data: ObjectBuilder::new()
                .with("subjectId", text(params.subject_id.as_str()))
                .build(),
            include_access_token: true,
            idempotent: true,
        }
    }

    /// `query.linkage.listByPositionId`.
    pub fn list_by_position_id(params: &QueryLinkagesByPositionIdParams) -> (r: IntentCall)
        ensures
            r.intent@ == "query.linkage.listByPositionId"@,
            r.include_access_token,
            r.idempotent,
            r.data@ == Fields::new()
                .with("positionId"@, JsonModel::Text(text_or(params.position_id, ""@)))
                .with("pageNum"@, number_model(params.page_num as int))
                .with("pageSize"@, number_model(params.page_size as int))
                .object(),
    {
        IntentCall {
            intent: "query.linkage.listByPositionId".to_owned(),
            data: ObjectBuilder::new()
                .with("positionId", text_or_else(&params.position_id, ""))
                .with("pageNum", number(params.page_num as i64))
                .with("pageSize", number(params.page_size as i64))
                .build(),
            include_access_token: true,
            idempotent: true,
        }
    }
}

} // verus!
