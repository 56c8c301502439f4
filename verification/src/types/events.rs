//! Event set (condition set) related request types.

use vstd::prelude::*;
use crate::error::text_of;

verus! {

/// A condition parameter entry.
#[derive(Clone, Debug, Default)]
#[non_exhaustive]
pub struct EventConditionParam {
    /// Parameter id.
    pub param_id: Option<String>,
    /// Parameter value.
    pub value: Option<String>,
    /// Optional parameter type.
    pub param_type: Option<String>,
    /// Optional parameter unit.
    pub param_unit: Option<String>,
}

impl EventConditionParam {
    /// Create param with id and value.
    pub fn new(param_id: &str, value: &str) -> (r: EventConditionParam)
        ensures
            text_of(r.param_id) == Some(param_id@),
            text_of(r.value) == Some(value@),
            r.param_type is None,
            r.param_unit is None,
    {
        EventConditionParam {
            param_id: Some(param_id.to_owned()),
            value: Some(value.to_owned()),
            param_type: None,
            param_unit: None,
        }
    }

    /// Set parameter type.
    pub fn with_param_type(self, param_type: &str) -> (r: EventConditionParam)
        ensures
            text_of(r.param_type) == Some(param_type@),
            r.param_id == self.param_id,
            r.value == self.value,
            r.param_unit == self.param_unit,
    {
        let mut r = self;
        r.param_type = Some(param_type.to_owned());
        r
    }

    /// Set parameter unit.
    pub fn with_param_unit(self, param_unit: &str) -> (r: EventConditionParam)
        ensures
            text_of(r.param_unit) == Some(param_unit@),
            r.param_id == self.param_id,
            r.value == self.value,
            r.param_type == self.param_type,
    {
        let mut r = self;
        r.param_unit = Some(param_unit.to_owned());
        r
    }
}

/// A single event (condition set) condition.
#[derive(Clone, Debug)]
#[non_exhaustive]
pub struct EventCondition {
    /// Optional subject id (e.g. device id / scene id). At least one of subject_id/model must be present.
    pub subject_id: Option<String>,
    /// Optional model.
    pub model: Option<String>,
    /// Trigger definition id.
    pub trigger_definition_id: String,
    /// Optional begin time.
    pub begin_time: Option<String>,
    /// Optional end time.
    pub end_time: Option<String>,
    /// Optional parameter list.
    pub params: Option<Vec<EventConditionParam>>,
}

impl EventCondition {
    /// Create params with required fields.
    pub fn new(trigger_definition_id: &str) -> (r: EventCondition)
        ensures
            r.subject_id is None,
            r.model is None,
            r.trigger_definition_id@ == trigger_definition_id@,
            r.begin_time is None,
            r.end_time is None,
            r.params is None,
    {
        EventCondition {
            subject_id: None,
            model: None,
            trigger_definition_id: trigger_definition_id.to_owned(),
            begin_time: None,
            end_time: None,
            params: None,
        }
    }

    /// Set subject id.
    pub fn with_subject_id(self, subject_id: &str) -> (r: EventCondition)
        ensures
            text_of(r.subject_id) == Some(subject_id@),
            r.model == self.model,
            r.trigger_definition_id == self.trigger_definition_id,
            r.begin_time == self.begin_time,
            r.end_time == self.end_time,
            r.params == self.params,
    {
        let mut r = self;
        r.subject_id = Some(subject_id.to_owned());
        r
    }

    /// Set model.
    pub fn with_model(self, model: &str) -> (r: EventCondition)
        ensures
            text_of(r.model) == Some(model@),
            r.subject_id == self.subject_id,
            r.trigger_definition_id == self.trigger_definition_id,
            r.begin_time == self.begin_time,
            r.end_time == self.end_time,
            r.params == self.params,
    {
        let mut r = self;
        r.model = Some(model.to_owned());
        r
    }

    /// Set begin time.
    pub fn with_begin_time(self, begin_time: &str) -> (r: EventCondition)
        ensures
            text_of(r.begin_time) == Some(begin_time@),
            r.subject_id == self.subject_id,
            r.model == self.model,
            r.trigger_definition_id == self.trigger_definition_id,
            r.end_time == self.end_time,
            r.params == self.params,
    {
        let mut r = self;
        r.begin_time = Some(begin_time.to_owned());
        r
    }

    /// Set end time.
    pub fn with_end_time(self, end_time: &str) -> (r: EventCondition)
        ensures
            text_of(r.end_time) == Some(end_time@),
            r.subject_id == self.subject_id,
            r.model == self.model,
            r.trigger_definition_id == self.trigger_definition_id,
            r.begin_time == self.begin_time,
            r.params == self.params,
    {
        let mut r = self;
        r.end_time = Some(end_time.to_owned());
        r
    }

    /// Set params.
    pub fn with_params(self, params: Vec<EventConditionParam>) -> (r: EventCondition)
        ensures
            r.params == Some(params),
            r.subject_id == self.subject_id,
            r.model == self.model,
            r.trigger_definition_id == self.trigger_definition_id,
            r.begin_time == self.begin_time,
            r.end_time == self.end_time,
    {
        let mut r = self;
        r.params = Some(params);
        r
    }
}

/// Parameters for `config.event.create`.
#[derive(Clone, Debug)]
#[non_exhaustive]
pub struct CreateEventParams {
    /// Event set name.
    pub name: String,
    /// Optional position id. Empty means default position.
    pub position_id: Option<String>,
    /// Relation (0: AND, 1: OR).
    pub relation: i32,
    /// Condition list.
    pub condition: Vec<EventCondition>,
}

impl CreateEventParams {
    /// Create params with required fields.
    pub fn new(name: &str, relation: i32, condition: Vec<EventCondition>) -> (r: CreateEventParams)
        ensures
            r.name@ == name@,
            r.position_id is None,
            r.relation == relation,
            r.condition == condition,
    {
        CreateEventParams { name: name.to_owned(), position_id: None, relation, condition }
    }

    /// Set position id.
    pub fn with_position_id(self, position_id: &str) -> (r: CreateEventParams)
        ensures
            text_of(r.position_id) == Some(position_id@),
            r.name == self.name,
            r.relation == self.relation,
            r.condition == self.condition,
    {
        let mut r = self;
        r.position_id = Some(position_id.to_owned());
        r
    }
}

/// Parameters for `config.event.update`.
#[derive(Clone, Debug)]
#[non_exhaustive]
pub struct UpdateEventParams {
    /// Event set id.
    pub event_id: String,
    /// Enable flag (`0` or `1`).
    pub enable: i32,
    /// Event set name.
    pub name: String,
    /// Optional position id.
    pub position_id: Option<String>,
    /// Relation (0: AND, 1: OR).
    pub relation: i32,
    /// Condition list.
    pub condition: Vec<EventCondition>,
}

impl UpdateEventParams {
    /// Create params with required fields.
    pub fn new(
        event_id: &str,
        enable: i32,
        name: &str,
        relation: i32,
        condition: Vec<EventCondition>,
    ) -> (r: UpdateEventParams)
        ensures
            r.event_id@ == event_id@,
            r.enable == enable,
            r.name@ == name@,
            r.position_id is None,
            r.relation == relation,
            r.condition == condition,
    {
        UpdateEventParams {
            event_id: event_id.to_owned(),
            enable,
            name: name.to_owned(),
            position_id: None,
            relation,
            condition,
        }
    }

    /// Set position id.
    pub fn with_position_id(self, position_id: &str) -> (r: UpdateEventParams)
        ensures
            text_of(r.position_id) == Some(position_id@),
            r.event_id == self.event_id,
            r.enable == self.enable,
            r.name == self.name,
            r.relation == self.relation,
            r.condition == self.condition,
    {
        let mut r = self;
        r.position_id = Some(position_id.to_owned());
        r
    }
}

/// Parameters for `config.event.delete`.
#[derive(Clone, Debug)]
#[non_exhaustive]
pub struct DeleteEventParams {
    /// Event set id.
    pub event_id: String,
}

impl DeleteEventParams {
    /// Create params.
    pub fn new(event_id: &str) -> (r: DeleteEventParams)
        ensures
            r.event_id@ == event_id@,
    {
        DeleteEventParams { event_id: event_id.to_owned() }
    }
}

/// Parameters for `query.event.detail`.
#[derive(Clone, Debug)]
#[non_exhaustive]
pub struct QueryEventDetailParams {
    /// Event set id.
    pub event_id: String,
}

impl QueryEventDetailParams {
    /// Create params.
    pub fn new(event_id: &str) -> (r: QueryEventDetailParams)
        ensures
            r.event_id@ == event_id@,
    {
        QueryEventDetailParams { event_id: event_id.to_owned() }
    }
}

/// Parameters for `query.event.listBySubjectId`.
#[derive(Clone, Debug)]
#[non_exhaustive]
pub struct QueryEventsBySubjectIdParams {
    /// Subject id.
    pub subject_id: String,
}

impl QueryEventsBySubjectIdParams {
    /// Create params.
    pub fn new(subject_id: &str) -> (r: QueryEventsBySubjectIdParams)
        ensures
            r.subject_id@ == subject_id@,
    {
        QueryEventsBySubjectIdParams { subject_id: subject_id.to_owned() }
    }
}

/// Parameters for `query.event.listByPositionId`.
#[derive(Clone, Debug)]
#[non_exhaustive]
pub struct QueryEventsByPositionIdParams {
    /// Optional position id (empty for all).
    pub position_id: Option<String>,
    /// Page number (1-based).
    pub page_num: u32,
    /// Page size.
    pub page_size: u32,
}

impl Default for QueryEventsByPositionIdParams {
    fn default() -> (r: QueryEventsByPositionIdParams)
        ensures
            r.position_id is None,
            r.page_num == 1,
            r.page_size == 50,
    {
        QueryEventsByPositionIdParams { position_id: None, page_num: 1, page_size: 50 }
    }
}

impl QueryEventsByPositionIdParams {
    /// Set position id.
    pub fn with_position_id(self, position_id: &str) -> (r: QueryEventsByPositionIdParams)
        ensures
            text_of(r.position_id) == Some(position_id@),
            r.page_num == self.page_num,
            r.page_size == self.page_size,
    {
        let mut r = self;
        r.position_id = Some(position_id.to_owned());
        r
    }

    /// Set page number.
    pub fn with_page_num(self, page_num: u32) -> (r: QueryEventsByPositionIdParams)
        ensures
            r.page_num == page_num,
            r.position_id == self.position_id,
            r.page_size == self.page_size,
    {
        let mut r = self;
        r.page_num = page_num;
        r
    }

    /// Set page size.
    pub fn with_page_size(self, page_size: u32) -> (r: QueryEventsByPositionIdParams)
        ensures
            r.page_size == page_size,
            r.position_id == self.position_id,
            r.page_num == self.page_num,
    {
        let mut r = self;
        r.page_size = page_size;
        r
    }
}

} // verus!
