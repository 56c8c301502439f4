//! Scene APIs: the calls of this group.

use vstd::prelude::*;
use crate::api::{
    IntentCall, Fields, ObjectBuilder, number, number_model, opt_text, some_text, text, text_or,
    text_or_else,
};
use crate::types::scenes::{
    CreateSceneParams, DeleteSceneParams, QuerySceneDetailParams, QueryScenesByPositionIdParams,
    QueryScenesBySubjectIdParams, RunSceneParams, SceneAction, SceneActionParam, UpdateSceneParams,
};
use crate::util::json::{Json, JsonModel, items_model, lemma_items_model};

verus! {

/// The JSON of one `SceneActionParam`.
pub open spec fn scene_action_param_model(item: SceneActionParam) -> JsonModel {
    Fields::new()
        .with("paramId"@, JsonModel::Text(item.param_id@))
        .with("value"@, JsonModel::Text(item.value@))
        .with_some("paramType"@, opt_text(item.param_type))
        .with_some("paramUnit"@, opt_text(item.param_unit))
        .object()
}

/// The JSON array of a list of `SceneActionParam`.
pub open spec fn scene_action_param_list_model(items: Seq<SceneActionParam>) -> JsonModel {
    JsonModel::Array(Seq::new(items.len(), |i: int| scene_action_param_model(items[i])))
}

fn scene_action_param_json(item: &SceneActionParam) -> (r: Json)
    ensures
        r@ == scene_action_param_model(*item),
{
    ObjectBuilder::new()
        .with("paramId", text(item.param_id.as_str()))
        .with("value", text(item.value.as_str()))
        .with_some("paramType", some_text(&item.param_type))
        .with_some("paramUnit", some_text(&item.param_unit))
        .build()
}

fn scene_action_param_list(items: &Vec<SceneActionParam>) -> (r: Json)
    ensures
        r@ == scene_action_param_list_model(items@),
{
    let mut out: Vec<Json> = Vec::new();
    let mut i: usize = 0;
    while i < items.len()
        invariant
            i <= items.len(),
            out.len() == i,
            forall|k: int| 0 <= k < i ==> out@[k]@ == scene_action_param_model(items@[k]),
        decreases items.len() - i,
    {
        out.push(scene_action_param_json(&items[i]));
        i += 1;
    }
    proof {
        lemma_items_model(out@);
        assert(items_model(out@) =~= Seq::new(items@.len(), |i: int| scene_action_param_model(items@[i])));
    }
    Json::Array(out)
}

/// The JSON of one `SceneAction`.
pub open spec fn scene_action_model(item: SceneAction) -> JsonModel {
    Fields::new()
        .with("subjectId"@, JsonModel::Text(item.subject_id@))
        .with("actionDefinitionId"@, JsonModel::Text(item.action_definition_id@))
        .with("params"@, scene_action_param_list_model(item.params@))
        .with_some("delayTime"@, opt_text(item.delay_time))
        .with_some("delayTimeUnit"@, opt_text(item.delay_time_unit))
        .object()
}

/// The JSON array of a list of `SceneAction`.
pub open spec fn scene_action_list_model(items: Seq<SceneAction>) -> JsonModel {
    JsonModel::Array(Seq::new(items.len(), |i: int| scene_action_model(items[i])))
}

fn scene_action_json(item: &SceneAction) -> (r: Json)
    ensures
        r@ == scene_action_model(*item),
{
    ObjectBuilder::new()
        .with("subjectId", text(item.subject_id.as_str()))
        .with("actionDefinitionId", text(item.action_definition_id.as_str()))
        .with("params", scene_action_param_list(&item.params))
        .with_some("delayTime", some_text(&item.delay_time))
        .with_some("delayTimeUnit", some_text(&item.delay_time_unit))
        .build()
}

fn scene_action_list(items: &Vec<SceneAction>) -> (r: Json)
    ensures
        r@ == scene_action_list_model(items@),
{
    let mut out: Vec<Json> = Vec::new();
    let mut i: usize = 0;
    while i < items.len()
        invariant
            i <= items.len(),
            out.len() == i,
            forall|k: int| 0 <= k < i ==> out@[k]@ == scene_action_model(items@[k]),
        decreases items.len() - i,
    {
        out.push(scene_action_json(&items[i]));
        i += 1;
    }
    proof {
        lemma_items_model(out@);
        assert(items_model(out@) =~= Seq::new(items@.len(), |i: int| scene_action_model(items@[i])));
    }
    Json::Array(out)
}

/// Scene APIs.
pub struct SceneService;

impl SceneService {
    /// `config.scene.create`.
    pub fn create(params: &CreateSceneParams) -> (r: IntentCall)
        ensures
            r.intent@ == "config.scene.create"@,
            r.include_access_token,
            !r.idempotent,
            r.data@ == Fields::new()
                .with("name"@, JsonModel::Text(params.name@))
                .with("positionId"@, JsonModel::Text(text_or(params.position_id, ""@)))
                .with("action"@, scene_action_list_model(params.action@))
                .object(),
    {
        IntentCall {
            intent: "config.scene.create".to_owned(),
            data: ObjectBuilder::new()
                .with("name", text(params.name.as_str()))
                .with("positionId", text_or_else(&params.position_id, ""))
                .with("action", scene_action_list(&params.action))
                .build(),
            include_access_token: true,
            idempotent: false,
        }
    }

    /// `config.scene.update`.
    pub fn update(params: &UpdateSceneParams) -> (r: IntentCall)
        ensures
            r.intent@ == "config.scene.update"@,
            r.include_access_token,
            !r.idempotent,
            r.data@ == Fields::new()
                .with("sceneId"@, JsonModel::Text(params.scene_id@))
                .with("name"@, JsonModel::Text(params.name@))
                .with("positionId"@, JsonModel::Text(text_or(params.position_id, ""@)))
                .with("action"@, scene_action_list_model(params.action@))
                .object(),
    {
        IntentCall {
            intent: "config.scene.update".to_owned(),
            data: ObjectBuilder::new()
                .with("sceneId", text(params.scene_id.as_str()))
                .with("name", text(params.name.as_str()))
                .with("positionId", text_or_else(&params.position_id, ""))
                .with("action", scene_action_list(&params.action))
                .build(),
            include_access_token: true,
            idempotent: false,
        }
    }

    /// `config.scene.delete`.
    pub fn delete(params: &DeleteSceneParams) -> (r: IntentCall)
        ensures
            r.intent@ == "config.scene.delete"@,
            r.include_access_token,
            !r.idempotent,
            r.data@ == Fields::new()
                .with("sceneId"@, JsonModel::Text(params.scene_id@))
                .object(),
    {
        IntentCall {
            intent: "config.scene.delete".to_owned(),
            data: ObjectBuilder::new()
                .with("sceneId", text(params.scene_id.as_str()))
                .build(),
            include_access_token: true,
            idempotent: false,
        }
    }

    /// `config.scene.run`.
    pub fn run(params: &RunSceneParams) -> (r: IntentCall)
        ensures
            r.intent@ == "config.scene.run"@,
            r.include_access_token,
            !r.idempotent,
            r.data@ == Fields::new()
                .with("sceneId"@, JsonModel::Text(params.scene_id@))
                .object(),
    {
        IntentCall {
            intent: "config.scene.run".to_owned(),
            data: ObjectBuilder::new()
                .with("sceneId", text(params.scene_id.as_str()))
                .build(),
            include_access_token: true,
            idempotent: false,
        }
    }

    /// `config.scene.try` (undocumented).
    pub fn try_run_raw(data: Json) -> (r: IntentCall)
        ensures
            r.intent@ == "config.scene.try"@,
            r.include_access_token,
            !r.idempotent,
            r.data@ == data@,
    {
        IntentCall {
            intent: "config.scene.try".to_owned(),
            data: data,
            include_access_token: true,
            idempotent: false,
        }
    }

    /// `query.scene.detail`.
    pub fn detail(params: &QuerySceneDetailParams) -> (r: IntentCall)
        ensures
            r.intent@ == "query.scene.detail"@,
            r.include_access_token,
            r.idempotent,
            r.data@ == Fields::new()
                .with("sceneId"@, JsonModel::Text(params.scene_id@))
                .object(),
    {
        IntentCall {
            intent: "query.scene.detail".to_owned(),
            data: ObjectBuilder::new()
                .with("sceneId", text(params.scene_id.as_str()))
                .build(),
            include_access_token: true,
            idempotent: true,
        }
    }

    /// `query.scene.listBySubjectId`.
    pub fn list_by_subject_id(params: &QueryScenesBySubjectIdParams) -> (r: IntentCall)
        ensures
            r.intent@ == "query.scene.listBySubjectId"@,
            r.include_access_token,
            r.idempotent,
            r.data@ == Fields::new()
                .with("subjectId"@, JsonModel::Text(params.subject_id@))
                .object(),
    {
        IntentCall {
            intent: "query.scene.listBySubjectId".to_owned(),
            data: ObjectBuilder::new()
                .with("subjectId", text(params.subject_id.as_str()))
                .build(),
            include_access_token: true,
            idempotent: true,
        }
    }

    /// `query.scene.listByPositionId`.
    pub fn list_by_position_id(params: &QueryScenesByPositionIdParams) -> (r: IntentCall)
        ensures
            r.intent@ == "query.scene.listByPositionId"@,
            r.include_access_token,
            r.idempotent,
            r.data@ == Fields::new()
                .with("positionId"@, JsonModel::Text(text_or(params.position_id, ""@)))
                .with("pageSize"@, number_model(params.page_size as int))
                .with("pageNum"@, number_model(params.page_num as int))
                .object(),
    {
        IntentCall {
            intent: "query.scene.listByPositionId".to_owned(),
            data: ObjectBuilder::new()
                .with("positionId", text_or_else(&params.position_id, ""))
                .with("pageSize", number(params.page_size as i64))
                .with("pageNum", number(params.page_num as i64))
                .build(),
            include_access_token: true,
            idempotent: true,
        }
    }
}

} // verus!
