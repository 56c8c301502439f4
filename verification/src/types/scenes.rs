//! Scene-related request types.

use vstd::prelude::*;
use crate::error::text_of;

verus! {

/// A single scene action parameter.
#[derive(Clone, Debug)]
#[non_exhaustive]
pub struct SceneActionParam {
    /// Parameter id.
    pub param_id: String,
    /// Parameter value.
    pub value: String,
    /// Optional parameter type.
    pub param_type: Option<String>,
    /// Optional parameter unit.
    pub param_unit: Option<String>,
}

impl SceneActionParam {
    /// Create params with required fields.
    pub fn new(param_id: &str, value: &str) -> (r: SceneActionParam)
        ensures
            r.param_id@ == param_id@,
            r.value@ == value@,
            r.param_type is None,
            r.param_unit is None,
    {
        SceneActionParam {
            param_id: param_id.to_owned(),
            value: value.to_owned(),
            param_type: None,
            param_unit: None,
        }
    }

    /// Set parameter type.
    pub fn with_param_type(self, param_type: &str) -> (r: SceneActionParam)
        ensures
            text_of(r.param_type) == Some(param_type@),
            r.param_id == self.param_id,
            r.value == self.value,
            r.param_unit == self.param_unit,
    {
        let mut r = self;
        r.param_type = Some(param_type.to_owned());
        r
    }

    /// Set parameter unit.
    pub fn with_param_unit(self, param_unit: &str) -> (r: SceneActionParam)
        ensures
            text_of(r.param_unit) == Some(param_unit@),
            r.param_id == self.param_id,
            r.value == self.value,
            r.param_type == self.param_type,
    {
        let mut r = self;
        r.param_unit = Some(param_unit.to_owned());
        r
    }
}

/// A single scene action.
#[derive(Clone, Debug)]
#[non_exhaustive]
pub struct SceneAction {
    /// Subject id.
    pub subject_id: String,
    /// Action definition id.
    pub action_definition_id: String,
    /// Action parameter list.
    pub params: Vec<SceneActionParam>,
    /// Optional delay time.
    pub delay_time: Option<String>,
    /// Optional delay time unit.
    pub delay_time_unit: Option<String>,
}

impl SceneAction {
    /// Create params with required fields.
    pub fn new(
        subject_id: &str,
        action_definition_id: &str,
        params: Vec<SceneActionParam>,
    ) -> (r: SceneAction)
        ensures
            r.subject_id@ == subject_id@,
            r.action_definition_id@ == action_definition_id@,
            r.params == params,
            r.delay_time is None,
            r.delay_time_unit is None,
    {
        SceneAction {
            subject_id: subject_id.to_owned(),
            action_definition_id: action_definition_id.to_owned(),
            params,
            delay_time: None,
            delay_time_unit: None,
        }
    }

    /// Set delay time.
    pub fn with_delay_time(self, delay_time: &str) -> (r: SceneAction)
        ensures
            text_of(r.delay_time) == Some(delay_time@),
            r.subject_id == self.subject_id,
            r.action_definition_id == self.action_definition_id,
            r.params == self.params,
            r.delay_time_unit == self.delay_time_unit,
    {
        let mut r = self;
        r.delay_time = Some(delay_time.to_owned());
        r
    }

    /// Set delay time unit.
    pub fn with_delay_time_unit(self, delay_time_unit: &str) -> (r: SceneAction)
        ensures
            text_of(r.delay_time_unit) == Some(delay_time_unit@),
            r.subject_id == self.subject_id,
            r.action_definition_id == self.action_definition_id,
            r.params == self.params,
            r.delay_time == self.delay_time,
    {
        let mut r = self;
        r.delay_time_unit = Some(delay_time_unit.to_owned());
        r
    }
}

/// Parameters for `config.scene.create`.
#[derive(Clone, Debug)]
#[non_exhaustive]
pub struct CreateSceneParams {
    /// Scene name.
    pub name: String,
    /// Optional position id. Empty means default position.
    pub position_id: Option<String>,
    /// Scene action list.
    pub action: Vec<SceneAction>,
}

impl CreateSceneParams {
    /// Create params with required fields.
    pub fn new(name: &str, action: Vec<SceneAction>) -> (r: CreateSceneParams)
        ensures
            r.name@ == name@,
            r.position_id is None,
            r.action == action,
    {
        CreateSceneParams { name: name.to_owned(), position_id: None, action }
    }

    /// Set position id.
    pub fn with_position_id(self, position_id: &str) -> (r: CreateSceneParams)
        ensures
            text_of(r.position_id) == Some(position_id@),
            r.name == self.name,
            r.action == self.action,
    {
        let mut r = self;
        r.position_id = Some(position_id.to_owned());
        r
    }
}

/// Parameters for `config.scene.update`.
#[derive(Clone, Debug)]
#[non_exhaustive]
pub struct UpdateSceneParams {
    /// Scene id.
    pub scene_id: String,
    /// Scene name.
    pub name: String,
    /// Optional position id. Empty means default position.
    pub position_id: Option<String>,
    /// Scene action list.
    pub action: Vec<SceneAction>,
}

impl UpdateSceneParams {
    /// Create params with required fields.
    pub fn new(scene_id: &str, name: &str, action: Vec<SceneAction>) -> (r: UpdateSceneParams)
        ensures
            r.scene_id@ == scene_id@,
            r.name@ == name@,
            r.position_id is None,
            r.action == action,
    {
        UpdateSceneParams {
            scene_id: scene_id.to_owned(),
            name: name.to_owned(),
            position_id: None,
            action,
        }
    }

    /// Set position id.
    pub fn with_position_id(self, position_id: &str) -> (r: UpdateSceneParams)
        ensures
            text_of(r.position_id) == Some(position_id@),
            r.scene_id == self.scene_id,
            r.name == self.name,
            r.action == self.action,
    {
        let mut r = self;
        r.position_id = Some(position_id.to_owned());
        r
    }
}

/// Parameters for `config.scene.delete`.
#[derive(Clone, Debug)]
#[non_exhaustive]
pub struct DeleteSceneParams {
    /// Scene id.
    pub scene_id: String,
}

impl DeleteSceneParams {
    /// Create params.
    pub fn new(scene_id: &str) -> (r: DeleteSceneParams)
        ensures
            r.scene_id@ == scene_id@,
    {
        DeleteSceneParams { scene_id: scene_id.to_owned() }
    }
}

/// Parameters for `config.scene.run`.
#[derive(Clone, Debug)]
#[non_exhaustive]
pub struct RunSceneParams {
    /// Scene id.
    pub scene_id: String,
}

impl RunSceneParams {
    /// Create params.
    pub fn new(scene_id: &str) -> (r: RunSceneParams)
        ensures
            r.scene_id@ == scene_id@,
    {
        RunSceneParams { scene_id: scene_id.to_owned() }
    }
}

/// Parameters for `query.scene.detail`.
#[derive(Clone, Debug)]
#[non_exhaustive]
pub struct QuerySceneDetailParams {
    /// Scene id.
    pub scene_id: String,
}

impl QuerySceneDetailParams {
    /// Create params.
    pub fn new(scene_id: &str) -> (r: QuerySceneDetailParams)
        ensures
            r.scene_id@ == scene_id@,
    {
        QuerySceneDetailParams { scene_id: scene_id.to_owned() }
    }
}

/// Parameters for `query.scene.listBySubjectId`.
#[derive(Clone, Debug)]
#[non_exhaustive]
pub struct QueryScenesBySubjectIdParams {
    /// Subject id (e.g. device id / event id).
    pub subject_id: String,
}

impl QueryScenesBySubjectIdParams {
    /// Create params.
    pub fn new(subject_id: &str) -> (r: QueryScenesBySubjectIdParams)
        ensures
            r.subject_id@ == subject_id@,
    {
        QueryScenesBySubjectIdParams { subject_id: subject_id.to_owned() }
    }
}

/// Parameters for `query.scene.listByPositionId`.
#[derive(Clone, Debug)]
#[non_exhaustive]
pub struct QueryScenesByPositionIdParams {
    /// Optional position id (empty for all).
    pub position_id: Option<String>,
    /// Page number (1-based).
    pub page_num: u32,
    /// Page size.
    pub page_size: u32,
}

impl Default for QueryScenesByPositionIdParams {
    fn default() -> (r: QueryScenesByPositionIdParams)
        ensures
            r.position_id is None,
            r.page_num == 1,
            r.page_size == 50,
    {
        QueryScenesByPositionIdParams { position_id: None, page_num: 1, page_size: 50 }
    }
}

impl QueryScenesByPositionIdParams {
    /// Set position id.
    pub fn with_position_id(self, position_id: &str) -> (r: QueryScenesByPositionIdParams)
        ensures
            text_of(r.position_id) == Some(position_id@),
            r.page_num == self.page_num,
            r.page_size == self.page_size,
    {
        let mut r = self;
        r.position_id = Some(position_id.to_owned());
        r
    }

    /// Set page number.
    pub fn with_page_num(self, page_num: u32) -> (r: QueryScenesByPositionIdParams)
        ensures
            r.page_num == page_num,
            r.position_id == self.position_id,
            r.page_size == self.page_size,
    {
        let mut r = self;
        r.page_num = page_num;
        r
    }

    /// Set page size.
    pub fn with_page_size(self, page_size: u32) -> (r: QueryScenesByPositionIdParams)
        ensures
            r.page_size == page_size,
            r.position_id == self.position_id,
            r.page_num == self.page_num,
    {
        let mut r = self;
        r.page_size = page_size;
        r
    }
}

} // verus!
