//! Resource-related request types.

use vstd::prelude::*;
use crate::error::text_of;

verus! {

/// Parameters for `query.resource.info`.
#[derive(Clone, Debug)]
#[non_exhaustive]
pub struct ResourceInfoParams {
    /// Device model.
    pub model: String,
    /// Optional resource id.
    pub resource_id: Option<String>,
}

impl ResourceInfoParams {
    /// Create params with required fields.
    pub fn new(model: &str) -> (r: ResourceInfoParams)
        ensures
            r.model@ == model@,
            r.resource_id is None,
    {
        ResourceInfoParams { model: model.to_owned(), resource_id: None }
    }

    /// Set optional resource id.
    pub fn with_resource_id(self, resource_id: &str) -> (r: ResourceInfoParams)
        ensures
            text_of(r.resource_id) == Some(resource_id@),
            r.model == self.model,
    {
        let mut r = self;
        r.resource_id = Some(resource_id.to_owned());
        r
    }
}

/// Parameters for `query.resource.name`.
#[derive(Clone, Debug)]
#[non_exhaustive]
pub struct QueryResourceNameParams {
    /// Device id list (max 50).
    pub subject_ids: Vec<String>,
}

impl QueryResourceNameParams {
    /// Create params.
    pub fn new(subject_ids: Vec<String>) -> (r: QueryResourceNameParams)
        ensures
            r.subject_ids == subject_ids,
    {
        QueryResourceNameParams { subject_ids }
    }
}

/// Parameters for `config.resource.info`.
#[derive(Clone, Debug)]
#[non_exhaustive]
pub struct ConfigResourceInfoParams {
    /// Device id.
    pub subject_id: String,
    /// Resource id.
    pub resource_id: String,
    /// Custom resource name.
    pub name: String,
}

impl ConfigResourceInfoParams {
    /// Create params.
    pub fn new(subject_id: &str, resource_id: &str, name: &str) -> (r: ConfigResourceInfoParams)
        ensures
            r.subject_id@ == subject_id@,
            r.resource_id@ == resource_id@,
            r.name@ == name@,
    {
        ConfigResourceInfoParams {
            subject_id: subject_id.to_owned(),
            resource_id: resource_id.to_owned(),
            name: name.to_owned(),
        }
    }
}

/// A single device resource query entry for `query.resource.value`.
#[derive(Clone, Debug)]
#[non_exhaustive]
pub struct ResourceValueQuery {
    /// Device id.
    pub subject_id: String,
    /// Optional resource id list. Empty means querying all open resources.
    pub resource_ids: Option<Vec<String>>,
}

impl ResourceValueQuery {
    /// Create params.
    pub fn new(subject_id: &str) -> (r: ResourceValueQuery)
        ensures
            r.subject_id@ == subject_id@,
            r.resource_ids is None,
    {
        ResourceValueQuery { subject_id: subject_id.to_owned(), resource_ids: None }
    }

    /// Set resource id list.
    pub fn with_resource_ids(self, resource_ids: Vec<String>) -> (r: ResourceValueQuery)
        ensures
            r.resource_ids == Some(resource_ids),
            r.subject_id == self.subject_id,
    {
        let mut r = self;
        r.resource_ids = Some(resource_ids);
        r
    }
}

/// Parameters for `query.resource.value`.
#[derive(Clone, Debug)]
#[non_exhaustive]
pub struct QueryResourceValueParams {
    /// Resource query list.
    pub resources: Vec<ResourceValueQuery>,
}

impl QueryResourceValueParams {
    /// Create params.
    pub fn new(resources: Vec<ResourceValueQuery>) -> (r: QueryResourceValueParams)
        ensures
            r.resources == resources,
    {
        QueryResourceValueParams { resources }
    }
}

/// A single resource write entry for `write.resource.device`.
#[derive(Clone, Debug)]
#[non_exhaustive]
pub struct WriteResource {
    /// Resource id.
    pub resource_id: String,
    /// Resource value.
    pub value: String,
}

impl WriteResource {
    /// Create params.
    pub fn new(resource_id: &str, value: &str) -> (r: WriteResource)
        ensures
            r.resource_id@ == resource_id@,
            r.value@ == value@,
    {
        WriteResource { resource_id: resource_id.to_owned(), value: value.to_owned() }
    }
}

/// A single device entry for `write.resource.device`.
#[derive(Clone, Debug)]
#[non_exhaustive]
pub struct WriteResourceDeviceItem {
    /// Device id.
    pub subject_id: String,
    /// Resource list.
    pub resources: Vec<WriteResource>,
}

impl WriteResourceDeviceItem {
    /// Create params.
    pub fn new(subject_id: &str, resources: Vec<WriteResource>) -> (r: WriteResourceDeviceItem)
        ensures
            r.subject_id@ == subject_id@,
            r.resources == resources,
    {
        WriteResourceDeviceItem { subject_id: subject_id.to_owned(), resources }
    }
}

/// Parameters for `write.resource.device`.
#[derive(Clone, Debug)]
#[non_exhaustive]
pub struct WriteResourceDeviceParams {
    /// Data array sent as request `data`.
    pub data: Vec<WriteResourceDeviceItem>,
}

impl WriteResourceDeviceParams {
    /// Create params.
    pub fn new(data: Vec<WriteResourceDeviceItem>) -> (r: WriteResourceDeviceParams)
        ensures
            r.data == data,
    {
        WriteResourceDeviceParams { data }
    }
}

/// Parameters for `fetch.resource.history`.
#[derive(Clone, Debug)]
#[non_exhaustive]
pub struct FetchResourceHistoryParams {
    /// Device id.
    pub subject_id: String,
    /// Resource id list (max 100).
    pub resource_ids: Vec<String>,
    /// Start time (timestamp millis as string).
    pub start_time: String,
    /// Optional end time (timestamp millis as string). Default is now.
    pub end_time: Option<String>,
    /// Optional pull size (default 30, max 300).
    pub size: Option<u32>,
    /// Optional scan id for pagination.
    pub scan_id: Option<String>,
}

impl FetchResourceHistoryParams {
    /// Create params with required fields.
    pub fn new(
        subject_id: &str,
        resource_ids: Vec<String>,
        start_time: &str,
    ) -> (r: FetchResourceHistoryParams)
        ensures
            r.subject_id@ == subject_id@,
            r.resource_ids == resource_ids,
            r.start_time@ == start_time@,
            r.end_time is None,
            r.size is None,
            r.scan_id is None,
    {
        FetchResourceHistoryParams {
            subject_id: subject_id.to_owned(),
            resource_ids,
            start_time: start_time.to_owned(),
            end_time: None,
            size: None,
            scan_id: None,
        }
    }

    /// Set end time (timestamp millis as string).
    pub fn with_end_time(self, end_time: &str) -> (r: FetchResourceHistoryParams)
        ensures
            text_of(r.end_time) == Some(end_time@),
            r.subject_id == self.subject_id,
            r.resource_ids == self.resource_ids,
            r.start_time == self.start_time,
            r.size == self.size,
            r.scan_id == self.scan_id,
    {
        let mut r = self;
        r.end_time = Some(end_time.to_owned());
        r
    }

    /// Set pull size.
    pub fn with_size(self, size: u32) -> (r: FetchResourceHistoryParams)
        ensures
            r.size == Some(size),
            r.subject_id == self.subject_id,
            r.resource_ids == self.resource_ids,
            r.start_time == self.start_time,
            r.end_time == self.end_time,
            r.scan_id == self.scan_id,
    {
        let mut r = self;
        r.size = Some(size);
        r
    }

    /// Set scan id for pagination.
    pub fn with_scan_id(self, scan_id: &str) -> (r: FetchResourceHistoryParams)
        ensures
            text_of(r.scan_id) == Some(scan_id@),
            r.subject_id == self.subject_id,
            r.resource_ids == self.resource_ids,
            r.start_time == self.start_time,
            r.end_time == self.end_time,
            r.size == self.size,
    {
        let mut r = self;
        r.scan_id = Some(scan_id.to_owned());
        r
    }
}

/// Resource selection for `fetch.resource.statistics`.
#[derive(Clone, Debug)]
#[non_exhaustive]
pub struct ResourceStatisticsQuery {
    /// Subject id.
    pub subject_id: String,
    /// Resource id list (max 50).
    pub resource_ids: Vec<String>,
    /// Aggregation types (`0..=4`).
    pub aggr_types: Vec<i32>,
}

impl ResourceStatisticsQuery {
    /// Create params.
    pub fn new(
        subject_id: &str,
        resource_ids: Vec<String>,
        aggr_types: Vec<i32>,
    ) -> (r: ResourceStatisticsQuery)
        ensures
            r.subject_id@ == subject_id@,
            r.resource_ids == resource_ids,
            r.aggr_types == aggr_types,
    {
        ResourceStatisticsQuery { subject_id: subject_id.to_owned(), resource_ids, aggr_types }
    }
}

/// Parameters for `fetch.resource.statistics`.
#[derive(Clone, Debug)]
#[non_exhaustive]
pub struct FetchResourceStatisticsParams {
    /// Resource selection.
    pub resources: ResourceStatisticsQuery,
    /// Start time (timestamp millis as string).
    pub start_time: String,
    /// Optional end time (timestamp millis as string). Default is now.
    pub end_time: Option<String>,
    /// Aggregation dimension (e.g. `"30m"`, `"1h"`, `"1d"`).
    pub dimension: String,
    /// Optional pull size (default 100, min 10, max 300).
    pub size: Option<u32>,
    /// Optional scan id for pagination.
    pub scan_id: Option<String>,
}

impl FetchResourceStatisticsParams {
    /// Create params with required fields.
    pub fn new(
        resources: ResourceStatisticsQuery,
        start_time: &str,
        dimension: &str,
    ) -> (r: FetchResourceStatisticsParams)
        ensures
            r.resources == resources,
            r.start_time@ == start_time@,
            r.end_time is None,
            r.dimension@ == dimension@,
            r.size is None,
            r.scan_id is None,
    {
        FetchResourceStatisticsParams {
            resources,
            start_time: start_time.to_owned(),
            end_time: None,
            dimension: dimension.to_owned(),
            size: None,
            scan_id: None,
        }
    }

    /// Set end time (timestamp millis as string).
    pub fn with_end_time(self, end_time: &str) -> (r: FetchResourceStatisticsParams)
        ensures
            text_of(r.end_time) == Some(end_time@),
            r.resources == self.resources,
            r.start_time == self.start_time,
            r.dimension == self.dimension,
            r.size == self.size,
            r.scan_id == self.scan_id,
    {
        let mut r = self;
        r.end_time = Some(end_time.to_owned());
        r
    }

    /// Set pull size.
    pub fn with_size(self, size: u32) -> (r: FetchResourceStatisticsParams)
        ensures
            r.size == Some(size),
            r.resources == self.resources,
            r.start_time == self.start_time,
            r.end_time == self.end_time,
            r.dimension == self.dimension,
            r.scan_id == self.scan_id,
    {
        let mut r = self;
        r.size = Some(size);
        r
    }

    /// Set scan id for pagination.
    pub fn with_scan_id(self, scan_id: &str) -> (r: FetchResourceStatisticsParams)
        ensures
            text_of(r.scan_id) == Some(scan_id@),
            r.resources == self.resources,
            r.start_time == self.start_time,
            r.end_time == self.end_time,
            r.dimension == self.dimension,
            r.size == self.size,
    {
        let mut r = self;
        r.scan_id = Some(scan_id.to_owned());
        r
    }
}

/// Parameters for `command.device.resource`.
#[derive(Clone, Debug)]
#[non_exhaustive]
pub struct CommandDeviceResourceParams {
    /// Position id.
    pub position_id: String,
    /// Command content.
    pub query_text: String,
}

impl CommandDeviceResourceParams {
    /// Create params.
    pub fn new(position_id: &str, query_text: &str) -> (r: CommandDeviceResourceParams)
        ensures
            r.position_id@ == position_id@,
            r.query_text@ == query_text@,
    {
        CommandDeviceResourceParams {
            position_id: position_id.to_owned(),
            query_text: query_text.to_owned(),
        }
    }
}

} // verus!
