//! Automation (linkage) related request types.

use vstd::prelude::*;
use crate::error::text_of;
use crate::util::json::Json;

verus! {

/// Parameters for `config.linkage.create`.
#[derive(Clone, Debug)]
#[non_exhaustive]
pub struct CreateLinkageParams {
    /// Automation name.
    pub name: String,
    /// Optional position id. Empty means default position.
    pub position_id: Option<String>,
    /// Conditions object (see Aqara docs for structure).
    pub conditions: Json,
    /// Actions object (see Aqara docs for structure).
    pub actions: Json,
}

impl CreateLinkageParams {
    /// Create params with required fields.
    pub fn new(name: &str, conditions: Json, actions: Json) -> (r: CreateLinkageParams)
        ensures
            r.name@ == name@,
            r.position_id is None,
            r.conditions == conditions,
            r.actions == actions,
    {
        CreateLinkageParams { name: name.to_owned(), position_id: None, conditions, actions }
    }

    /// Set position id.
    pub fn with_position_id(self, position_id: &str) -> (r: CreateLinkageParams)
        ensures
            text_of(r.position_id) == Some(position_id@),
            r.name == self.name,
            r.conditions == self.conditions,
            r.actions == self.actions,
    {
        let mut r = self;
        r.position_id = Some(position_id.to_owned());
        r
    }
}

/// Parameters for `config.linkage.update`.
#[derive(Clone, Debug)]
#[non_exhaustive]
pub struct UpdateLinkageParams {
    /// Automation id.
    pub linkage_id: String,
    /// Automation name.
    pub name: String,
    /// Optional position id.
    pub position_id: Option<String>,
    /// Conditions object (see Aqara docs for structure).
    pub conditions: Json,
    /// Actions object (see Aqara docs for structure).
    pub actions: Json,
}

impl UpdateLinkageParams {
    /// Create params with required fields.
    pub fn new(
        linkage_id: &str,
        name: &str,
        conditions: Json,
        actions: Json,
    ) -> (r: UpdateLinkageParams)
        ensures
            r.linkage_id@ == linkage_id@,
            r.name@ == name@,
            r.position_id is None,
            r.conditions == conditions,
            r.actions == actions,
    {
        UpdateLinkageParams {
            linkage_id: linkage_id.to_owned(),
            name: name.to_owned(),
            position_id: None,
            conditions,
            actions,
        }
    }

    /// Set position id.
    pub fn with_position_id(self, position_id: &str) -> (r: UpdateLinkageParams)
        ensures
            text_of(r.position_id) == Some(position_id@),
            r.linkage_id == self.linkage_id,
            r.name == self.name,
            r.conditions == self.conditions,
            r.actions == self.actions,
    {
        let mut r = self;
        r.position_id = Some(position_id.to_owned());
        r
    }
}

/// Parameters for `config.linkage.delete`.
#[derive(Clone, Debug)]
#[non_exhaustive]
pub struct DeleteLinkageParams {
    /// Automation id.
    pub linkage_id: String,
}

impl DeleteLinkageParams {
    /// Create params.
    pub fn new(linkage_id: &str) -> (r: DeleteLinkageParams)
        ensures
            r.linkage_id@ == linkage_id@,
    {
        DeleteLinkageParams { linkage_id: linkage_id.to_owned() }
    }
}

/// Parameters for `config.linkage.enable`.
#[derive(Clone, Debug)]
#[non_exhaustive]
pub struct EnableLinkageParams {
    /// Automation id.
    pub linkage_id: String,
    /// Enable flag (`0` or `1`).
    pub enable: i32,
}

impl EnableLinkageParams {
    /// Create params.
    pub fn new(linkage_id: &str, enable: i32) -> (r: EnableLinkageParams)
        ensures
            r.linkage_id@ == linkage_id@,
            r.enable == enable,
    {
        EnableLinkageParams { linkage_id: linkage_id.to_owned(), enable }
    }
}

/// Parameters for `query.linkage.detail`.
#[derive(Clone, Debug)]
#[non_exhaustive]
pub struct QueryLinkageDetailParams {
    /// Automation id.
    pub linkage_id: String,
}

impl QueryLinkageDetailParams {
    /// Create params.
    pub fn new(linkage_id: &str) -> (r: QueryLinkageDetailParams)
        ensures
            r.linkage_id@ == linkage_id@,
    {
        QueryLinkageDetailParams { linkage_id: linkage_id.to_owned() }
    }
}

/// Parameters for `query.linkage.listBySubjectId`.
#[derive(Clone, Debug)]
#[non_exhaustive]
pub struct QueryLinkagesBySubjectIdParams {
    /// Subject id.
    pub subject_id: String,
}

impl QueryLinkagesBySubjectIdParams {
    /// Create params.
    pub fn new(subject_id: &str) -> (r: QueryLinkagesBySubjectIdParams)
        ensures
            r.subject_id@ == subject_id@,
    {
        QueryLinkagesBySubjectIdParams { subject_id: subject_id.to_owned() }
    }
}

/// Parameters for `query.linkage.listByPositionId`.
#[derive(Clone, Debug)]
#[non_exhaustive]
pub struct QueryLinkagesByPositionIdParams {
    /// Optional position id (empty for all).
    pub position_id: Option<String>,
    /// Page number (1-based).
    pub page_num: u32,
    /// Page size.
    pub page_size: u32,
}

impl Default for QueryLinkagesByPositionIdParams {
    fn default() -> (r: QueryLinkagesByPositionIdParams)
        ensures
            r.position_id is None,
            r.page_num == 1,
            r.page_size == 50,
    {
        QueryLinkagesByPositionIdParams { position_id: None, page_num: 1, page_size: 50 }
    }
}

impl QueryLinkagesByPositionIdParams {
    /// Set position id.
    pub fn with_position_id(self, position_id: &str) -> (r: QueryLinkagesByPositionIdParams)
        ensures
            text_of(r.position_id) == Some(position_id@),
            r.page_num == self.page_num,
            r.page_size == self.page_size,
    {
        let mut r = self;
        r.position_id = Some(position_id.to_owned());
        r
    }

    /// Set page number (1-based).
    pub fn with_page_num(self, page_num: u32) -> (r: QueryLinkagesByPositionIdParams)
        ensures
            r.page_num == page_num,
            r.position_id == self.position_id,
            r.page_size == self.page_size,
    {
        let mut r = self;
        r.page_num = page_num;
        r
    }

    /// Set page size.
    pub fn with_page_size(self, page_size: u32) -> (r: QueryLinkagesByPositionIdParams)
        ensures
            r.page_size == page_size,
            r.position_id == self.position_id,
            r.page_num == self.page_num,
    {
        let mut r = self;
        r.page_size = page_size;
        r
    }
}

} // verus!
