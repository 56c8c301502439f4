//! Resource-related APIs: the calls of this group.

use vstd::prelude::*;
use crate::api::{
    IntentCall, Fields, ObjectBuilder, number_array, numbers, opt_number, opt_text, opt_text_array,
    opt_u32, some_text, some_texts, some_u32, text, text_array, texts,
};
use crate::types::resources::{
    CommandDeviceResourceParams, ConfigResourceInfoParams, FetchResourceHistoryParams,
    FetchResourceStatisticsParams, QueryResourceNameParams, QueryResourceValueParams,
    ResourceInfoParams, ResourceValueQuery, WriteResource, WriteResourceDeviceItem,
    WriteResourceDeviceParams,
};
use crate::util::json::{Json, JsonModel, items_model, lemma_items_model};

verus! {

/// The JSON of one `ResourceValueQuery`.
pub open spec fn resource_value_query_model(item: ResourceValueQuery) -> JsonModel {
    Fields::new()
        .with("subjectId"@, JsonModel::Text(item.subject_id@))
        .with_some("resourceIds"@, opt_text_array(item.resource_ids))
        .object()
}

/// The JSON array of a list of `ResourceValueQuery`.
pub open spec fn resource_value_query_list_model(items: Seq<ResourceValueQuery>) -> JsonModel {
    JsonModel::Array(Seq::new(items.len(), |i: int| resource_value_query_model(items[i])))
}

fn resource_value_query_json(item: &ResourceValueQuery) -> (r: Json)
    ensures
        r@ == resource_value_query_model(*item),
{
    ObjectBuilder::new()
        .with("subjectId", text(item.subject_id.as_str()))
        .with_some("resourceIds", some_texts(&item.resource_ids))
        .build()
}

fn resource_value_query_list(items: &Vec<ResourceValueQuery>) -> (r: Json)
    ensures
        r@ == resource_value_query_list_model(items@),
{
    let mut out: Vec<Json> = Vec::new();
    let mut i: usize = 0;
    while i < items.len()
        invariant
            i <= items.len(),
            out.len() == i,
            forall|k: int| 0 <= k < i ==> out@[k]@ == resource_value_query_model(items@[k]),
        decreases items.len() - i,
    {
        out.push(resource_value_query_json(&items[i]));
        i += 1;
    }
    proof {
        lemma_items_model(out@);
        assert(items_model(out@) =~= Seq::new(items@.len(), |i: int| resource_value_query_model(items@[i])));
    }
    Json::Array(out)
}

/// The JSON of one `WriteResource`.
pub open spec fn write_resource_model(item: WriteResource) -> JsonModel {
    Fields::new()
        .with("resourceId"@, JsonModel::Text(item.resource_id@))
        .with("value"@, JsonModel::Text(item.value@))
        .object()
}

/// The JSON array of a list of `WriteResource`.
pub open spec fn write_resource_list_model(items: Seq<WriteResource>) -> JsonModel {
    JsonModel::Array(Seq::new(items.len(), |i: int| write_resource_model(items[i])))
}

fn write_resource_json(item: &WriteResource) -> (r: Json)
    ensures
        r@ == write_resource_model(*item),
{
    ObjectBuilder::new()
        .with("resourceId", text(item.resource_id.as_str()))
        .with("value", text(item.value.as_str()))
        .build()
}

fn write_resource_list(items: &Vec<WriteResource>) -> (r: Json)
    ensures
        r@ == write_resource_list_model(items@),
{
    let mut out: Vec<Json> = Vec::new();
    let mut i: usize = 0;
    while i < items.len()
        invariant
            i <= items.len(),
            out.len() == i,
            forall|k: int| 0 <= k < i ==> out@[k]@ == write_resource_model(items@[k]),
        decreases items.len() - i,
    {
        out.push(write_resource_json(&items[i]));
        i += 1;
    }
    proof {
        lemma_items_model(out@);
        assert(items_model(out@) =~= Seq::new(items@.len(), |i: int| write_resource_model(items@[i])));
    }
    Json::Array(out)
}

/// The JSON of one `WriteResourceDeviceItem`.
pub open spec fn write_resource_device_item_model(item: WriteResourceDeviceItem) -> JsonModel {
    Fields::new()
        .with("subjectId"@, JsonModel::Text(item.subject_id@))
        .with("resources"@, write_resource_list_model(item.resources@))
        .object()
}

/// The JSON array of a list of `WriteResourceDeviceItem`.
pub open spec fn write_resource_device_item_list_model(items: Seq<WriteResourceDeviceItem>) -> JsonModel {
    JsonModel::Array(Seq::new(items.len(), |i: int| write_resource_device_item_model(items[i])))
}

fn write_resource_device_item_json(item: &WriteResourceDeviceItem) -> (r: Json)
    ensures
        r@ == write_resource_device_item_model(*item),
{
    ObjectBuilder::new()
        .with("subjectId", text(item.subject_id.as_str()))
        .with("resources", write_resource_list(&item.resources))
        .build()
}

fn write_resource_device_item_list(items: &Vec<WriteResourceDeviceItem>) -> (r: Json)
    ensures
        r@ == write_resource_device_item_list_model(items@),
{
    let mut out: Vec<Json> = Vec::new();
    let mut i: usize = 0;
    while i < items.len()
        invariant
            i <= items.len(),
            out.len() == i,
            forall|k: int| 0 <= k < i ==> out@[k]@ == write_resource_device_item_model(items@[k]),
        decreases items.len() - i,
    {
        out.push(write_resource_device_item_json(&items[i]));
        i += 1;
    }
    proof {
        lemma_items_model(out@);
        assert(items_model(out@) =~= Seq::new(items@.len(), |i: int| write_resource_device_item_model(items@[i])));
    }
    Json::Array(out)
}

/// Resource-related APIs.
pub struct ResourceService;

impl ResourceService {
    /// `query.resource.info`.
    pub fn info(params: &ResourceInfoParams) -> (r: IntentCall)
        ensures
            r.intent@ == "query.resource.info"@,
            r.include_access_token,
            r.idempotent,
            r.data@ == Fields::new()
                .with("model"@, JsonModel::Text(params.model@))
                .with_some("resourceId"@, opt_text(params.resource_id))
                .object(),
    {
        IntentCall {
            intent: "query.resource.info".to_owned(),
            data: ObjectBuilder::new()
                .with("model", text(params.model.as_str()))
                .with_some("resourceId", some_text(&params.resource_id))
                .build(),
            include_access_token: true,
            idempotent: true,
        }
    }

    /// `query.resource.name`.
    pub fn name(params: &QueryResourceNameParams) -> (r: IntentCall)
        ensures
            r.intent@ == "query.resource.name"@,
            r.include_access_token,
            r.idempotent,
            r.data@ == Fields::new()
                .with("subjectIds"@, text_array(params.subject_ids@))
                .object(),
    {
        IntentCall {
            intent: "query.resource.name".to_owned(),
            data: ObjectBuilder::new()
                .with("subjectIds", texts(&params.subject_ids))
                .build(),
            include_access_token: true,
            idempotent: true,
        }
    }

    /// `config.resource.info`.
    pub fn set_info(params: &ConfigResourceInfoParams) -> (r: IntentCall)
        ensures
            r.intent@ == "config.resource.info"@,
            r.include_access_token,
            !r.idempotent,
            r.data@ == Fields::new()
                .with("subjectId"@, JsonModel::Text(params.subject_id@))
                .with("resourceId"@, JsonModel::Text(params.resource_id@))
                .with("name"@, JsonModel::Text(params.name@))
                .object(),
    {
        IntentCall {
            intent: "config.resource.info".to_owned(),
            data: ObjectBuilder::new()
                .with("subjectId", text(params.subject_id.as_str()))
                .with("resourceId", text(params.resource_id.as_str()))
                .with("name", text(params.name.as_str()))
                .build(),
            include_access_token: true,
            idempotent: false,
        }
    }

    /// `query.resource.value`.
    pub fn value(params: &QueryResourceValueParams) -> (r: IntentCall)
        ensures
            r.intent@ == "query.resource.value"@,
            r.include_access_token,
            r.idempotent,
            r.data@ == Fields::new()
                .with("resources"@, resource_value_query_list_model(params.resources@))
                .object(),
    {
        IntentCall {
            intent: "query.resource.value".to_owned(),
            data: ObjectBuilder::new()
                .with("resources", resource_value_query_list(&params.resources))
                .build(),
            include_access_token: true,
            idempotent: true,
        }
    }

    /// `write.resource.device`.
    pub fn write_device(params: &WriteResourceDeviceParams) -> (r: IntentCall)
        ensures
            r.intent@ == "write.resource.device"@,
            r.include_access_token,
            !r.idempotent,
            r.data@ == write_resource_device_item_list_model(params.data@),
    {
        IntentCall {
            intent: "write.resource.device".to_owned(),
            data: write_resource_device_item_list(&params.data),
            include_access_token: true,
            idempotent: false,
        }
    }

    /// `fetch.resource.history`.
    pub fn history(params: &FetchResourceHistoryParams) -> (r: IntentCall)
        ensures
            r.intent@ == "fetch.resource.history"@,
            r.include_access_token,
            r.idempotent,
            r.data@ == Fields::new()
                .with("subjectId"@, JsonModel::Text(params.subject_id@))
                .with("resourceIds"@, text_array(params.resource_ids@))
                .with("startTime"@, JsonModel::Text(params.start_time@))
                .with_some("endTime"@, opt_text(params.end_time))
                .with_some("size"@, opt_number(opt_u32(params.size)))
                .with_some("scanId"@, opt_text(params.scan_id))
                .object(),
    {
        IntentCall {
            intent: "fetch.resource.history".to_owned(),
            data: ObjectBuilder::new()
                .with("subjectId", text(params.subject_id.as_str()))
                .with("resourceIds", texts(&params.resource_ids))
                .with("startTime", text(params.start_time.as_str()))
                .with_some("endTime", some_text(&params.end_time))
                .with_some("size", some_u32(params.size))
                .with_some("scanId", some_text(&params.scan_id))
                .build(),
            include_access_token: true,
            idempotent: true,
        }
    }

    /// `fetch.resource.statistics`.
    pub fn statistics(params: &FetchResourceStatisticsParams) -> (r: IntentCall)
        ensures
            r.intent@ == "fetch.resource.statistics"@,
            r.include_access_token,
            r.idempotent,
            r.data@ == Fields::new()
                .with("resources"@, Fields::new().with("subjectId"@, JsonModel::Text(params.resources.subject_id@)).with("aggrTypes"@, number_array(params.resources.aggr_types@)).with("resourceIds"@, text_array(params.resources.resource_ids@)).object())
                .with("startTime"@, JsonModel::Text(params.start_time@))
                .with("dimension"@, JsonModel::Text(params.dimension@))
                .with_some("endTime"@, opt_text(params.end_time))
                .with_some("size"@, opt_number(opt_u32(params.size)))
                .with_some("scanId"@, opt_text(params.scan_id))
                .object(),
    {
        IntentCall {
            intent: "fetch.resource.statistics".to_owned(),
            data: ObjectBuilder::new()
                .with("resources", ObjectBuilder::new().with("subjectId", text(params.resources.subject_id.as_str())).with("aggrTypes", numbers(&params.resources.aggr_types)).with("resourceIds", texts(&params.resources.resource_ids)).build())
                .with("startTime", text(params.start_time.as_str()))
                .with("dimension", text(params.dimension.as_str()))
                .with_some("endTime", some_text(&params.end_time))
                .with_some("size", some_u32(params.size))
                .with_some("scanId", some_text(&params.scan_id))
                .build(),
            include_access_token: true,
            idempotent: true,
        }
    }

    /// `command.device.resource`.
    pub fn command_device_resource(params: &CommandDeviceResourceParams) -> (r: IntentCall)
        ensures
            r.intent@ == "command.device.resource"@,
            r.include_access_token,
            !r.idempotent,
            r.data@ == Fields::new()
                .with("positionId"@, JsonModel::Text(params.position_id@))
                .with("queryText"@, JsonModel::Text(params.query_text@))
                .object(),
    {
        IntentCall {
            intent: "command.device.resource".to_owned(),
            data: ObjectBuilder::new()
                .with("positionId", text(params.position_id.as_str()))
                .with("queryText", text(params.query_text.as_str()))
                .build(),
            include_access_token: true,
            idempotent: false,
        }
    }
}

} // verus!
