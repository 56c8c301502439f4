//! Device-related request types.

use vstd::prelude::*;
use crate::error::text_of;

verus! {

/// Parameters for `query.device.info`.
#[derive(Clone, Debug)]
#[non_exhaustive]
pub struct QueryDeviceInfoParams {
    /// Optional device id list (max 100).
    pub dids: Option<Vec<String>>,
    /// Optional position id. Empty means querying all devices in the account/project.
    pub position_id: Option<String>,
    /// Page number (1-based).
    pub page_num: u32,
    /// Page size.
    pub page_size: u32,
}

impl Default for QueryDeviceInfoParams {
    fn default() -> (r: QueryDeviceInfoParams)
        ensures
            r.dids is None,
            r.position_id is None,
            r.page_num == 1,
            r.page_size == 50,
    {
        QueryDeviceInfoParams { dids: None, position_id: None, page_num: 1, page_size: 50 }
    }
}

impl QueryDeviceInfoParams {
    /// Set device id list (max 100).
    pub fn with_dids(self, dids: Vec<String>) -> (r: QueryDeviceInfoParams)
        ensures
            r.dids == Some(dids),
            r.position_id == self.position_id,
            r.page_num == self.page_num,
            r.page_size == self.page_size,
    {
        let mut r = self;
        r.dids = Some(dids);
        r
    }

    /// Set position id.
    pub fn with_position_id(self, position_id: &str) -> (r: QueryDeviceInfoParams)
        ensures
            text_of(r.position_id) == Some(position_id@),
            r.dids == self.dids,
            r.page_num == self.page_num,
            r.page_size == self.page_size,
    {
        let mut r = self;
        r.position_id = Some(position_id.to_owned());
        r
    }

    /// Set page number (1-based).
    pub fn with_page_num(self, page_num: u32) -> (r: QueryDeviceInfoParams)
        ensures
            r.page_num == page_num,
            r.dids == self.dids,
            r.position_id == self.position_id,
            r.page_size == self.page_size,
    {
        let mut r = self;
        r.page_num = page_num;
        r
    }

    /// Set page size.
    pub fn with_page_size(self, page_size: u32) -> (r: QueryDeviceInfoParams)
        ensures
            r.page_size == page_size,
            r.dids == self.dids,
            r.position_id == self.position_id,
            r.page_num == self.page_num,
    {
        let mut r = self;
        r.page_size = page_size;
        r
    }
}

/// Parameters for `query.device.subInfo`.
#[derive(Clone, Debug)]
#[non_exhaustive]
pub struct QuerySubDevicesParams {
    /// Gateway DID.
    pub gateway_did: String,
}

impl QuerySubDevicesParams {
    /// Create params.
    pub fn new(gateway_did: &str) -> (r: QuerySubDevicesParams)
        ensures
            r.gateway_did@ == gateway_did@,
    {
        QuerySubDevicesParams { gateway_did: gateway_did.to_owned() }
    }
}

/// Parameters for `config.device.name`.
#[derive(Clone, Debug)]
#[non_exhaustive]
pub struct UpdateDeviceNameParams {
    /// Device DID.
    pub did: String,
    /// New device name.
    pub name: String,
}

impl UpdateDeviceNameParams {
    /// Create params.
    pub fn new(did: &str, name: &str) -> (r: UpdateDeviceNameParams)
        ensures
            r.did@ == did@,
            r.name@ == name@,
    {
        UpdateDeviceNameParams { did: did.to_owned(), name: name.to_owned() }
    }
}

/// Parameters for `config.device.position`.
#[derive(Clone, Debug)]
#[non_exhaustive]
pub struct UpdateDevicePositionParams {
    /// Device DID list.
    pub dids: Vec<String>,
    /// Target position id.
    pub position_id: String,
}

impl UpdateDevicePositionParams {
    /// Create params.
    pub fn new(dids: Vec<String>, position_id: &str) -> (r: UpdateDevicePositionParams)
        ensures
            r.dids == dids,
            r.position_id@ == position_id@,
    {
        UpdateDevicePositionParams { dids, position_id: position_id.to_owned() }
    }
}

/// Parameters for `write.device.unbind`.
#[derive(Clone, Debug)]
#[non_exhaustive]
pub struct UnbindDeviceParams {
    /// Gateway DID or sub-device DID.
    pub did: String,
}

impl UnbindDeviceParams {
    /// Create params.
    pub fn new(did: &str) -> (r: UnbindDeviceParams)
        ensures
            r.did@ == did@,
    {
        UnbindDeviceParams { did: did.to_owned() }
    }
}

} // verus!
