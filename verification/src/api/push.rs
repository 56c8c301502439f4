//! Push subscription APIs: the calls of this group.

use vstd::prelude::*;
use crate::api::{
    IntentCall, Fields, ObjectBuilder, opt_i64, opt_number, opt_text, opt_u32, some_i64, some_text,
    some_u32, text, text_array, texts,
};
use crate::types::push::{
    QueryPushErrorMsgParams, ResourceSubscription, SubscribeResourceParams, TraitSubscribeParams,
    TraitSubscription, TraitUnsubscribeParams, UnsubscribeResourceParams,
};
use crate::util::json::{Json, JsonModel, items_model, lemma_items_model};

verus! {

/// The JSON of one `ResourceSubscription`.
pub open spec fn resource_subscription_model(item: ResourceSubscription) -> JsonModel {
    Fields::new()
        .with("subjectId"@, JsonModel::Text(item.subject_id@))
        .with("resourceIds"@, text_array(item.resource_ids@))
        .with_some("attach"@, opt_text(item.attach))
        .object()
}

/// The JSON array of a list of `ResourceSubscription`.
pub open spec fn resource_subscription_list_model(items: Seq<ResourceSubscription>) -> JsonModel {
    JsonModel::Array(Seq::new(items.len(), |i: int| resource_subscription_model(items[i])))
}

fn resource_subscription_json(item: &ResourceSubscription) -> (r: Json)
    ensures
        r@ == resource_subscription_model(*item),
{
    ObjectBuilder::new()
        .with("subjectId", text(item.subject_id.as_str()))
        .with("resourceIds", texts(&item.resource_ids))
        .with_some("attach", some_text(&item.attach))
        .build()
}

fn resource_subscription_list(items: &Vec<ResourceSubscription>) -> (r: Json)
    ensures
        r@ == resource_subscription_list_model(items@),
{
    let mut out: Vec<Json> = Vec::new();
    let mut i: usize = 0;
    while i < items.len()
        invariant
            i <= items.len(),
            out.len() == i,
            forall|k: int| 0 <= k < i ==> out@[k]@ == resource_subscription_model(items@[k]),
        decreases items.len() - i,
    {
        out.push(resource_subscription_json(&items[i]));
        i += 1;
    }
    proof {
        lemma_items_model(out@);
        assert(items_model(out@) =~= Seq::new(items@.len(), |i: int| resource_subscription_model(items@[i])));
    }
    Json::Array(out)
}

/// The JSON of one `ResourceSubscription`.
pub open spec fn resource_subscription_for_unsubscribe_model(item: ResourceSubscription) -> JsonModel {
    Fields::new()
        .with("subjectId"@, JsonModel::Text(item.subject_id@))
        .with("resourceIds"@, text_array(item.resource_ids@))
        .object()
}

/// The JSON array of a list of `ResourceSubscription`.
pub open spec fn resource_subscription_for_unsubscribe_list_model(items: Seq<ResourceSubscription>) -> JsonModel {
    JsonModel::Array(Seq::new(items.len(), |i: int| resource_subscription_for_unsubscribe_model(items[i])))
}

fn resource_subscription_for_unsubscribe_json(item: &ResourceSubscription) -> (r: Json)
    ensures
        r@ == resource_subscription_for_unsubscribe_model(*item),
{
    ObjectBuilder::new()
        .with("subjectId", text(item.subject_id.as_str()))
        .with("resourceIds", texts(&item.resource_ids))
        .build()
}

fn resource_subscription_for_unsubscribe_list(items: &Vec<ResourceSubscription>) -> (r: Json)
    ensures
        r@ == resource_subscription_for_unsubscribe_list_model(items@),
{
    let mut out: Vec<Json> = Vec::new();
    let mut i: usize = 0;
    while i < items.len()
        invariant
            i <= items.len(),
            out.len() == i,
            forall|k: int| 0 <= k < i ==> out@[k]@ == resource_subscription_for_unsubscribe_model(items@[k]),
        decreases items.len() - i,
    {
        out.push(resource_subscription_for_unsubscribe_json(&items[i]));
        i += 1;
    }
    proof {
        lemma_items_model(out@);
        assert(items_model(out@) =~= Seq::new(items@.len(), |i: int| resource_subscription_for_unsubscribe_model(items@[i])));
    }
    Json::Array(out)
}

/// The JSON of one `TraitSubscription`.
pub open spec fn trait_subscription_model(item: TraitSubscription) -> JsonModel {
    Fields::new()
        .with("subjectId"@, JsonModel::Text(item.subject_id@))
        .with("codePaths"@, text_array(item.code_paths@))
        .with_some("attach"@, opt_text(item.attach))
        .object()
}

/// The JSON array of a list of `TraitSubscription`.
pub open spec fn trait_subscription_list_model(items: Seq<TraitSubscription>) -> JsonModel {
    JsonModel::Array(Seq::new(items.len(), |i: int| trait_subscription_model(items[i])))
}

fn trait_subscription_json(item: &TraitSubscription) -> (r: Json)
    ensures
        r@ == trait_subscription_model(*item),
{
    ObjectBuilder::new()
        .with("subjectId", text(item.subject_id.as_str()))
        .with("codePaths", texts(&item.code_paths))
        .with_some("attach", some_text(&item.attach))
        .build()
}

fn trait_subscription_list(items: &Vec<TraitSubscription>) -> (r: Json)
    ensures
        r@ == trait_subscription_list_model(items@),
{
    let mut out: Vec<Json> = Vec::new();
    let mut i: usize = 0;
    while i < items.len()
        invariant
            i <= items.len(),
            out.len() == i,
            forall|k: int| 0 <= k < i ==> out@[k]@ == trait_subscription_model(items@[k]),
        decreases items.len() - i,
    {
        out.push(trait_subscription_json(&items[i]));
        i += 1;
    }
    proof {
        lemma_items_model(out@);
        assert(items_model(out@) =~= Seq::new(items@.len(), |i: int| trait_subscription_model(items@[i])));
    }
    Json::Array(out)
}

/// The JSON of one `TraitSubscription`.
pub open spec fn trait_subscription_for_unsubscribe_traits_model(item: TraitSubscription) -> JsonModel {
    Fields::new()
        .with("subjectId"@, JsonModel::Text(item.subject_id@))
        .with("codePaths"@, text_array(item.code_paths@))
        .object()
}

/// The JSON array of a list of `TraitSubscription`.
pub open spec fn trait_subscription_for_unsubscribe_traits_list_model(items: Seq<TraitSubscription>) -> JsonModel {
    JsonModel::Array(Seq::new(items.len(), |i: int| trait_subscription_for_unsubscribe_traits_model(items[i])))
}

fn trait_subscription_for_unsubscribe_traits_json(item: &TraitSubscription) -> (r: Json)
    ensures
        r@ == trait_subscription_for_unsubscribe_traits_model(*item),
{
    ObjectBuilder::new()
        .with("subjectId", text(item.subject_id.as_str()))
        .with("codePaths", texts(&item.code_paths))
        .build()
}

fn trait_subscription_for_unsubscribe_traits_list(items: &Vec<TraitSubscription>) -> (r: Json)
    ensures
        r@ == trait_subscription_for_unsubscribe_traits_list_model(items@),
{
    let mut out: Vec<Json> = Vec::new();
    let mut i: usize = 0;
    while i < items.len()
        invariant
            i <= items.len(),
            out.len() == i,
            forall|k: int| 0 <= k < i ==> out@[k]@ == trait_subscription_for_unsubscribe_traits_model(items@[k]),
        decreases items.len() - i,
    {
        out.push(trait_subscription_for_unsubscribe_traits_json(&items[i]));
        i += 1;
    }
    proof {
        lemma_items_model(out@);
        assert(items_model(out@) =~= Seq::new(items@.len(), |i: int| trait_subscription_for_unsubscribe_traits_model(items@[i])));
    }
    Json::Array(out)
}

/// Push subscription APIs.
pub struct PushService;

impl PushService {
    /// `config.resource.subscribe`.
    pub fn subscribe(params: &SubscribeResourceParams) -> (r: IntentCall)
        ensures
            r.intent@ == "config.resource.subscribe"@,
            r.include_access_token,
            !r.idempotent,
            r.data@ == Fields::new()
                .with("resources"@, resource_subscription_list_model(params.resources@))
                .object(),
    {
        IntentCall {
            intent: "config.resource.subscribe".to_owned(),
            data: ObjectBuilder::new()
                .with("resources", resource_subscription_list(&params.resources))
                .build(),
            include_access_token: true,
            idempotent: false,
        }
    }

    /// `config.resource.unsubscribe`.
    pub fn unsubscribe(params: &UnsubscribeResourceParams) -> (r: IntentCall)
        ensures
            r.intent@ == "config.resource.unsubscribe"@,
            r.include_access_token,
            !r.idempotent,
            r.data@ == Fields::new()
                .with("resources"@, resource_subscription_for_unsubscribe_list_model(params.resources@))
                .object(),
    {
        IntentCall {
            intent: "config.resource.unsubscribe".to_owned(),
            data: ObjectBuilder::new()
                .with("resources", resource_subscription_for_unsubscribe_list(&params.resources))
                .build(),
            include_access_token: true,
            idempotent: false,
        }
    }

    /// `query.push.errorMsg`.
    pub fn error_msg(params: &QueryPushErrorMsgParams) -> (r: IntentCall)
        ensures
            r.intent@ == "query.push.errorMsg"@,
            r.include_access_token,
            r.idempotent,
            r.data@ == Fields::new()
                .with("appId"@, JsonModel::Text(params.app_id@))
                .with_some("openId"@, opt_text(params.open_id))
                .with_some("msgType"@, opt_text(params.msg_type))
                .with_some("startTime"@, opt_number(opt_i64(params.start_time)))
                .with_some("endTime"@, opt_number(opt_i64(params.end_time)))
                .with_some("size"@, opt_number(opt_u32(params.size)))
                .with_some("scanId"@, opt_text(params.scan_id))
                .object(),
    {
        IntentCall {
            intent: "query.push.errorMsg".to_owned(),
            data: ObjectBuilder::new()
                .with("appId", text(params.app_id.as_str()))
                .with_some("openId", some_text(&params.open_id))
                .with_some("msgType", some_text(&params.msg_type))
                .with_some("startTime", some_i64(params.start_time))
                .with_some("endTime", some_i64(params.end_time))
                .with_some("size", some_u32(params.size))
                .with_some("scanId", some_text(&params.scan_id))
                .build(),
            include_access_token: true,
            idempotent: true,
        }
    }

    /// `spec.config.trait.subscribe`.
    pub fn subscribe_traits(params: &TraitSubscribeParams) -> (r: IntentCall)
        ensures
            r.intent@ == "spec.config.trait.subscribe"@,
            r.include_access_token,
            !r.idempotent,
            r.data@ == Fields::new()
                .with("traits"@, trait_subscription_list_model(params.traits@))
                .object(),
    {
        IntentCall {
            intent: "spec.config.trait.subscribe".to_owned(),
            data: ObjectBuilder::new()
                .with("traits", trait_subscription_list(&params.traits))
                .build(),
            include_access_token: true,
            idempotent: false,
        }
    }

    /// `spec.config.trait.unsubscribe`.
    pub fn unsubscribe_traits(params: &TraitUnsubscribeParams) -> (r: IntentCall)
        ensures
            r.intent@ == "spec.config.trait.unsubscribe"@,
            r.include_access_token,
            !r.idempotent,
            r.data@ == Fields::new()
                .with("traits"@, trait_subscription_for_unsubscribe_traits_list_model(params.traits@))
                .object(),
    {
        IntentCall {
            intent: "spec.config.trait.unsubscribe".to_owned(),
            data: ObjectBuilder::new()
                .with("traits", trait_subscription_for_unsubscribe_traits_list(&params.traits))
                .build(),
            include_access_token: true,
            idempotent: false,
        }
    }
}

} // verus!
