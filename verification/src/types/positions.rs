//! Position-related request types.

use vstd::prelude::*;
use crate::error::text_of;

verus! {

/// Parameters for `config.position.create`.
#[derive(Clone, Debug)]
#[non_exhaustive]
pub struct CreatePositionParams {
    /// Position name.
    pub position_name: String,
    /// Optional description.
    pub description: Option<String>,
    /// Optional parent position id (empty for top-level).
    pub parent_position_id: Option<String>,
}

impl CreatePositionParams {
    /// Create params with required fields.
    pub fn new(position_name: &str) -> (r: CreatePositionParams)
        ensures
            r.position_name@ == position_name@,
            r.description is None,
            r.parent_position_id is None,
    {
        CreatePositionParams {
            position_name: position_name.to_owned(),
            description: None,
            parent_position_id: None,
        }
    }

    /// Set description.
    pub fn with_description(self, description: &str) -> (r: CreatePositionParams)
        ensures
            text_of(r.description) == Some(description@),
            r.position_name == self.position_name,
            r.parent_position_id == self.parent_position_id,
    {
        let mut r = self;
        r.description = Some(description.to_owned());
        r
    }

    /// Set parent position id.
    pub fn with_parent_position_id(self, parent_position_id: &str) -> (r: CreatePositionParams)
        ensures
            text_of(r.parent_position_id) == Some(parent_position_id@),
            r.position_name == self.position_name,
            r.description == self.description,
    {
        let mut r = self;
        r.parent_position_id = Some(parent_position_id.to_owned());
        r
    }
}

/// Parameters for `config.position.update`.
#[derive(Clone, Debug)]
#[non_exhaustive]
pub struct UpdatePositionParams {
    /// Position id.
    pub position_id: String,
    /// Updated position name.
    pub position_name: String,
    /// Optional updated description.
    pub description: Option<String>,
}

impl UpdatePositionParams {
    /// Create params with required fields.
    pub fn new(position_id: &str, position_name: &str) -> (r: UpdatePositionParams)
        ensures
            r.position_id@ == position_id@,
            r.position_name@ == position_name@,
            r.description is None,
    {
        UpdatePositionParams {
            position_id: position_id.to_owned(),
            position_name: position_name.to_owned(),
            description: None,
        }
    }

    /// Set updated description.
    pub fn with_description(self, description: &str) -> (r: UpdatePositionParams)
        ensures
            text_of(r.description) == Some(description@),
            r.position_id == self.position_id,
            r.position_name == self.position_name,
    {
        let mut r = self;
        r.description = Some(description.to_owned());
        r
    }
}

/// Parameters for `config.position.delete`.
#[derive(Clone, Debug)]
#[non_exhaustive]
pub struct DeletePositionParams {
    /// Position id.
    pub position_id: String,
}

impl DeletePositionParams {
    /// Create params.
    pub fn new(position_id: &str) -> (r: DeletePositionParams)
        ensures
            r.position_id@ == position_id@,
    {
        DeletePositionParams { position_id: position_id.to_owned() }
    }
}

/// Parameters for `config.position.timeZone`.
#[derive(Clone, Debug)]
#[non_exhaustive]
pub struct SetPositionTimeZoneParams {
    /// Top-level position id.
    pub position_id: String,
    /// Optional timezone string (e.g. `"GMT+08:00"`).
    pub time_zone: Option<String>,
}

impl SetPositionTimeZoneParams {
    /// Create params with required fields.
    pub fn new(position_id: &str) -> (r: SetPositionTimeZoneParams)
        ensures
            r.position_id@ == position_id@,
            r.time_zone is None,
    {
        SetPositionTimeZoneParams { position_id: position_id.to_owned(), time_zone: None }
    }

    /// Set timezone string (e.g. `"GMT+08:00"`).
    pub fn with_time_zone(self, time_zone: &str) -> (r: SetPositionTimeZoneParams)
        ensures
            text_of(r.time_zone) == Some(time_zone@),
            r.position_id == self.position_id,
    {
        let mut r = self;
        r.time_zone = Some(time_zone.to_owned());
        r
    }
}

/// Parameters for `query.position.info`.
#[derive(Clone, Debug)]
#[non_exhaustive]
pub struct ListPositionsParams {
    /// Optional parent position id.
    pub parent_position_id: Option<String>,
    /// Page number (1-based).
    pub page_num: u32,
    /// Page size.
    pub page_size: u32,
}

impl Default for ListPositionsParams {
    fn default() -> (r: ListPositionsParams)
        ensures
            r.parent_position_id is None,
            r.page_num == 1,
            r.page_size == 30,
    {
        ListPositionsParams { parent_position_id: None, page_num: 1, page_size: 30 }
    }
}

impl ListPositionsParams {
    /// Set parent position id.
    pub fn with_parent_position_id(self, parent_position_id: &str) -> (r: ListPositionsParams)
        ensures
            text_of(r.parent_position_id) == Some(parent_position_id@),
            r.page_num == self.page_num,
            r.page_size == self.page_size,
    {
        let mut r = self;
        r.parent_position_id = Some(parent_position_id.to_owned());
        r
    }

    /// Set page number (1-based).
    pub fn with_page_num(self, page_num: u32) -> (r: ListPositionsParams)
        ensures
            r.page_num == page_num,
            r.parent_position_id == self.parent_position_id,
            r.page_size == self.page_size,
    {
        let mut r = self;
        r.page_num = page_num;
        r
    }

    /// Set page size.
    pub fn with_page_size(self, page_size: u32) -> (r: ListPositionsParams)
        ensures
            r.page_size == page_size,
            r.parent_position_id == self.parent_position_id,
            r.page_num == self.page_num,
    {
        let mut r = self;
        r.page_size = page_size;
        r
    }
}

/// Parameters for `query.position.detail`.
#[derive(Clone, Debug)]
#[non_exhaustive]
pub struct PositionDetailParams {
    /// Position id list (max 50).
    pub position_ids: Vec<String>,
}

impl PositionDetailParams {
    /// Create params.
    pub fn new(position_ids: Vec<String>) -> (r: PositionDetailParams)
        ensures
            r.position_ids == position_ids,
    {
        PositionDetailParams { position_ids }
    }
}

} // verus!
