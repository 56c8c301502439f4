//! Push subscription related request types.

use vstd::prelude::*;
use crate::error::text_of;

verus! {

/// A resource subscription entry.
#[derive(Clone, Debug)]
#[non_exhaustive]
pub struct ResourceSubscription {
    /// Subject id.
    pub subject_id: String,
    /// Resource id list.
    pub resource_ids: Vec<String>,
    /// Optional attach string echoed in push payload.
    pub attach: Option<String>,
}

impl ResourceSubscription {
    /// Create params with required fields.
    pub fn new(subject_id: &str, resource_ids: Vec<String>) -> (r: ResourceSubscription)
        ensures
            r.subject_id@ == subject_id@,
            r.resource_ids == resource_ids,
            r.attach is None,
    {
        ResourceSubscription { subject_id: subject_id.to_owned(), resource_ids, attach: None }
    }

    /// Set attach string echoed in push payload.
    pub fn with_attach(self, attach: &str) -> (r: ResourceSubscription)
        ensures
            text_of(r.attach) == Some(attach@),
            r.subject_id == self.subject_id,
            r.resource_ids == self.resource_ids,
    {
        let mut r = self;
        r.attach = Some(attach.to_owned());
        r
    }
}

/// Parameters for `config.resource.subscribe`.
#[derive(Clone, Debug)]
#[non_exhaustive]
pub struct SubscribeResourceParams {
    /// Resource subscriptions.
    pub resources: Vec<ResourceSubscription>,
}

impl SubscribeResourceParams {
    /// Create params.
    pub fn new(resources: Vec<ResourceSubscription>) -> (r: SubscribeResourceParams)
        ensures
            r.resources == resources,
    {
        SubscribeResourceParams { resources }
    }
}

/// Parameters for `config.resource.unsubscribe`.
#[derive(Clone, Debug)]
#[non_exhaustive]
pub struct UnsubscribeResourceParams {
    /// Resource subscriptions to remove.
    pub resources: Vec<ResourceSubscription>,
}

impl UnsubscribeResourceParams {
    /// Create params.
    pub fn new(resources: Vec<ResourceSubscription>) -> (r: UnsubscribeResourceParams)
        ensures
            r.resources == resources,
    {
        UnsubscribeResourceParams { resources }
    }
}

/// Parameters for `query.push.errorMsg`.
#[derive(Clone, Debug)]
#[non_exhaustive]
pub struct QueryPushErrorMsgParams {
    /// App id.
    pub app_id: String,
    /// Optional user open id.
    pub open_id: Option<String>,
    /// Optional message type.
    pub msg_type: Option<String>,
    /// Optional start timestamp millis.
    pub start_time: Option<i64>,
    /// Optional end timestamp millis.
    pub end_time: Option<i64>,
    /// Optional size.
    pub size: Option<u32>,
    /// Optional scan id.
    pub scan_id: Option<String>,
}

impl QueryPushErrorMsgParams {
    /// Create params with required fields.
    pub fn new(app_id: &str) -> (r: QueryPushErrorMsgParams)
        ensures
            r.app_id@ == app_id@,
            r.open_id is None,
            r.msg_type is None,
            r.start_time is None,
            r.end_time is None,
            r.size is None,
            r.scan_id is None,
    {
        QueryPushErrorMsgParams {
            app_id: app_id.to_owned(),
            open_id: None,
            msg_type: None,
            start_time: None,
            end_time: None,
            size: None,
            scan_id: None,
        }
    }

    /// Set open id.
    pub fn with_open_id(self, open_id: &str) -> (r: QueryPushErrorMsgParams)
        ensures
            text_of(r.open_id) == Some(open_id@),
            r.app_id == self.app_id,
            r.msg_type == self.msg_type,
            r.start_time == self.start_time,
            r.end_time == self.end_time,
            r.size == self.size,
            r.scan_id == self.scan_id,
    {
        let mut r = self;
        r.open_id = Some(open_id.to_owned());
        r
    }

    /// Set message type.
    pub fn with_msg_type(self, msg_type: &str) -> (r: QueryPushErrorMsgParams)
        ensures
            text_of(r.msg_type) == Some(msg_type@),
            r.app_id == self.app_id,
            r.open_id == self.open_id,
            r.start_time == self.start_time,
            r.end_time == self.end_time,
            r.size == self.size,
            r.scan_id == self.scan_id,
    {
        let mut r = self;
        r.msg_type = Some(msg_type.to_owned());
        r
    }

    /// Set start timestamp millis.
    pub fn with_start_time(self, start_time: i64) -> (r: QueryPushErrorMsgParams)
        ensures
            r.start_time == Some(start_time),
            r.app_id == self.app_id,
            r.open_id == self.open_id,
            r.msg_type == self.msg_type,
            r.end_time == self.end_time,
            r.size == self.size,
            r.scan_id == self.scan_id,
    {
        let mut r = self;
        r.start_time = Some(start_time);
        r
    }

    /// Set end timestamp millis.
    pub fn with_end_time(self, end_time: i64) -> (r: QueryPushErrorMsgParams)
        ensures
            r.end_time == Some(end_time),
            r.app_id == self.app_id,
            r.open_id == self.open_id,
            r.msg_type == self.msg_type,
            r.start_time == self.start_time,
            r.size == self.size,
            r.scan_id == self.scan_id,
    {
        let mut r = self;
        r.end_time = Some(end_time);
        r
    }

    /// Set size.
    pub fn with_size(self, size: u32) -> (r: QueryPushErrorMsgParams)
        ensures
            r.size == Some(size),
            r.app_id == self.app_id,
            r.open_id == self.open_id,
            r.msg_type == self.msg_type,
            r.start_time == self.start_time,
            r.end_time == self.end_time,
            r.scan_id == self.scan_id,
    {
        let mut r = self;
        r.size = Some(size);
        r
    }

    /// Set scan id.
    pub fn with_scan_id(self, scan_id: &str) -> (r: QueryPushErrorMsgParams)
        ensures
            text_of(r.scan_id) == Some(scan_id@),
            r.app_id == self.app_id,
            r.open_id == self.open_id,
            r.msg_type == self.msg_type,
            r.start_time == self.start_time,
            r.end_time == self.end_time,
            r.size == self.size,
    {
        let mut r = self;
        r.scan_id = Some(scan_id.to_owned());
        r
    }
}

/// A trait subscription entry.
#[derive(Clone, Debug)]
#[non_exhaustive]
pub struct TraitSubscription {
    /// Target device id.
    pub subject_id: String,
    /// Code paths (`endpointId.functionCode.traitCode`).
    pub code_paths: Vec<String>,
    /// Optional attach string echoed in push payload.
    pub attach: Option<String>,
}

impl TraitSubscription {
    /// Create params.
    pub fn new(subject_id: &str, code_paths: Vec<String>) -> (r: TraitSubscription)
        ensures
            r.subject_id@ == subject_id@,
            r.code_paths == code_paths,
            r.attach is None,
    {
        TraitSubscription { subject_id: subject_id.to_owned(), code_paths, attach: None }
    }

    /// Set attach string echoed in push payload.
    pub fn with_attach(self, attach: &str) -> (r: TraitSubscription)
        ensures
            text_of(r.attach) == Some(attach@),
            r.subject_id == self.subject_id,
            r.code_paths == self.code_paths,
    {
        let mut r = self;
        r.attach = Some(attach.to_owned());
        r
    }
}

/// Parameters for `spec.config.trait.subscribe`.
#[derive(Clone, Debug)]
#[non_exhaustive]
pub struct TraitSubscribeParams {
    /// Trait subscriptions.
    pub traits: Vec<TraitSubscription>,
}

impl TraitSubscribeParams {
    /// Create params.
    pub fn new(traits: Vec<TraitSubscription>) -> (r: TraitSubscribeParams)
        ensures
            r.traits == traits,
    {
        TraitSubscribeParams { traits }
    }
}

/// Parameters for `spec.config.trait.unsubscribe`.
#[derive(Clone, Debug)]
#[non_exhaustive]
pub struct TraitUnsubscribeParams {
    /// Trait subscriptions to remove.
    pub traits: Vec<TraitSubscription>,
}

impl TraitUnsubscribeParams {
    /// Create params.
    pub fn new(traits: Vec<TraitSubscription>) -> (r: TraitUnsubscribeParams)
        ensures
            r.traits == traits,
    {
        TraitUnsubscribeParams { traits }
    }
}

} // verus!
