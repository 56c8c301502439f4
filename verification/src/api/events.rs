//! Event set (condition set) APIs: the calls of this group.

use vstd::prelude::*;
use crate::api::{
    IntentCall, Fields, ObjectBuilder, number, number_model, opt_text, some_text, text, text_or,
    text_or_else,
};
use crate::types::events::{
    CreateEventParams, DeleteEventParams, EventCondition, EventConditionParam,
    QueryEventDetailParams, QueryEventsByPositionIdParams, QueryEventsBySubjectIdParams,
    UpdateEventParams,
};
use crate::util::json::{Json, JsonModel, items_model, lemma_items_model};

verus! {

/// The JSON of one `EventConditionParam`.
pub open spec fn event_condition_param_model(item: EventConditionParam) -> JsonModel {
    Fields::new()
        .with_some("paramId"@, opt_text(item.param_id))
        .with_some("value"@, opt_text(item.value))
        .with_some("paramType"@, opt_text(item.param_type))
        .with_some("paramUnit"@, opt_text(item.param_unit))
        .object()
}

/// The JSON array of a list of `EventConditionParam`.
pub open spec fn event_condition_param_list_model(items: Seq<EventConditionParam>) -> JsonModel {
    JsonModel::Array(Seq::new(items.len(), |i: int| event_condition_param_model(items[i])))
}

fn event_condition_param_json(item: &EventConditionParam) -> (r: Json)
    ensures
        r@ == event_condition_param_model(*item),
{
    ObjectBuilder::new()
        .with_some("paramId", some_text(&item.param_id))
        .with_some("value", some_text(&item.value))
        .with_some("paramType", some_text(&item.param_type))
        .with_some("paramUnit", some_text(&item.param_unit))
        .build()
}

fn event_condition_param_list(items: &Vec<EventConditionParam>) -> (r: Json)
    ensures
        r@ == event_condition_param_list_model(items@),
{
    let mut out: Vec<Json> = Vec::new();
    let mut i: usize = 0;
    while i < items.len()
        invariant
            i <= items.len(),
            out.len() == i,
            forall|k: int| 0 <= k < i ==> out@[k]@ == event_condition_param_model(items@[k]),
        decreases items.len() - i,
    {
        out.push(event_condition_param_json(&items[i]));
        i += 1;
    }
    proof {
        lemma_items_model(out@);
        assert(items_model(out@) =~= Seq::new(items@.len(), |i: int| event_condition_param_model(items@[i])));
    }
    Json::Array(out)
}

/// The JSON of one `EventCondition`.
pub open spec fn event_condition_model(item: EventCondition) -> JsonModel {
    Fields::new()
        .with("triggerDefinitionId"@, JsonModel::Text(item.trigger_definition_id@))
        .with_some("subjectId"@, opt_text(item.subject_id))
        .with_some("model"@, opt_text(item.model))
        .with_some("beginTime"@, opt_text(item.begin_time))
        .with_some("endTime"@, opt_text(item.end_time))
        .with_some("params"@, match item.params { Some(items) => Some(event_condition_param_list_model(items@)), None => None })
        .object()
}

/// The JSON array of a list of `EventCondition`.
pub open spec fn event_condition_list_model(items: Seq<EventCondition>) -> JsonModel {
    JsonModel::Array(Seq::new(items.len(), |i: int| event_condition_model(items[i])))
}

fn event_condition_json(item: &EventCondition) -> (r: Json)
    ensures
        r@ == event_condition_model(*item),
{
    ObjectBuilder::new()
        .with("triggerDefinitionId", text(item.trigger_definition_id.as_str()))
        .with_some("subjectId", some_text(&item.subject_id))
        .with_some("model", some_text(&item.model))
        .with_some("beginTime", some_text(&item.begin_time))
        .with_some("endTime", some_text(&item.end_time))
        .with_some("params", match &item.params { Some(items) => Some(event_condition_param_list(items)), None => None })
        .build()
}

fn event_condition_list(items: &Vec<EventCondition>) -> (r: Json)
    ensures
        r@ == event_condition_list_model(items@),
{
    let mut out: Vec<Json> = Vec::new();
    let mut i: usize = 0;
    while i < items.len()
        invariant
            i <= items.len(),
            out.len() == i,
            forall|k: int| 0 <= k < i ==> out@[k]@ == event_condition_model(items@[k]),
        decreases items.len() - i,
    {
        out.push(event_condition_json(&items[i]));
        i += 1;
    }
    proof {
        lemma_items_model(out@);
        assert(items_model(out@) =~= Seq::new(items@.len(), |i: int| event_condition_model(items@[i])));
    }
    Json::Array(out)
}

/// Event set (condition set) APIs.
pub struct EventService;

impl EventService {
    /// `config.event.create`.
    pub fn create(params: &CreateEventParams) -> (r: IntentCall)
        ensures
            r.intent@ == "config.event.create"@,
            r.include_access_token,
            !r.idempotent,
            r.data@ == Fields::new()
                .with("positionId"@, JsonModel::Text(text_or(params.position_id, ""@)))
                .with("name"@, JsonModel::Text(params.name@))
                .with("relation"@, number_model(params.relation as int))
                .with("condition"@, event_condition_list_model(params.condition@))
                .object(),
    {
        IntentCall {
            intent: "config.event.create".to_owned(),
            data: ObjectBuilder::new()
                .with("positionId", text_or_else(&params.position_id, ""))
                .with("name", text(params.name.as_str()))
                .with("relation", number(params.relation as i64))
                .with("condition", event_condition_list(&params.condition))
                .build(),
            include_access_token: true,
            idempotent: false,
        }
    }

    /// `config.event.update`.
    pub fn update(params: &UpdateEventParams) -> (r: IntentCall)
        ensures
            r.intent@ == "config.event.update"@,
            r.include_access_token,
            !r.idempotent,
            r.data@ == Fields::new()
                .with("eventId"@, JsonModel::Text(params.event_id@))
                .with("enable"@, number_model(params.enable as int))
                .with("positionId"@, JsonModel::Text(text_or(params.position_id, ""@)))
                .with("name"@, JsonModel::Text(params.name@))
                .with("relation"@, number_model(params.relation as int))
                .with("condition"@, event_condition_list_model(params.condition@))
                .object(),
    {
        IntentCall {
            intent: "config.event.update".to_owned(),
            data: ObjectBuilder::new()
                .with("eventId", text(params.event_id.as_str()))
                .with("enable", number(params.enable as i64))
                .with("positionId", text_or_else(&params.position_id, ""))
                .with("name", text(params.name.as_str()))
                .with("relation", number(params.relation as i64))
                .with("condition", event_condition_list(&params.condition))
                .build(),
            include_access_token: true,
            idempotent: false,
        }
    }

    /// `config.event.delete`.
    pub fn delete(params: &DeleteEventParams) -> (r: IntentCall)
        ensures
            r.intent@ == "config.event.delete"@,
            r.include_access_token,
            !r.idempotent,
            r.data@ == Fields::new()
                .with("eventId"@, JsonModel::Text(params.event_id@))
                .object(),
    {
        IntentCall {
            intent: "config.event.delete".to_owned(),
            data: ObjectBuilder::new()
                .with("eventId", text(params.event_id.as_str()))
                .build(),
            include_access_token: true,
            idempotent: false,
        }
    }

    /// `query.event.detail`.
    pub fn detail(params: &QueryEventDetailParams) -> (r: IntentCall)
        ensures
            r.intent@ == "query.event.detail"@,
            r.include_access_token,
            r.idempotent,
            r.data@ == Fields::new()
                .with("eventId"@, JsonModel::Text(params.event_id@))
                .object(),
    {
        IntentCall {
            intent: "query.event.detail".to_owned(),
            data: ObjectBuilder::new()
                .with("eventId", text(params.event_id.as_str()))
                .build(),
            include_access_token: true,
            idempotent: true,
        }
    }

    /// `query.event.listBySubjectId`.
    pub fn list_by_subject_id(params: &QueryEventsBySubjectIdParams) -> (r: IntentCall)
        ensures
            r.intent@ == "query.event.listBySubjectId"@,
            r.include_access_token,
            r.idempotent,
            r.data@ == Fields::new()
                .with("subjectId"@, JsonModel::Text(params.subject_id@))
                .object(),
    {
        IntentCall {
            intent: "query.event.listBySubjectId".to_owned(),
            data: ObjectBuilder::new()
                .with("subjectId", text(params.subject_id.as_str()))
                .build(),
            include_access_token: true,
            idempotent: true,
        }
    }

    /// `query.event.listByPositionId`.
    pub fn list_by_position_id(params: &QueryEventsByPositionIdParams) -> (r: IntentCall)
        ensures
            r.intent@ == "query.event.listByPositionId"@,
            r.include_access_token,
            r.idempotent,
            r.data@ == Fields::new()
                .with("positionId"@, JsonModel::Text(text_or(params.position_id, ""@)))
                .with("pageSize"@, number_model(params.page_size as int))
                .with("pageNum"@, number_model(params.page_num as int))
                .object(),
    {
        IntentCall {
            intent: "query.event.listByPositionId".to_owned(),
            data: ObjectBuilder::new()
                .with("positionId", text_or_else(&params.position_id, ""))
                .with("pageSize", number(params.page_size as i64))
                .with("pageNum", number(params.page_num as i64))
                .build(),
            include_access_token: true,
            idempotent: true,
        }
    }
}

} // verus!
