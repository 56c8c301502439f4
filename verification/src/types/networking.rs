//! Device networking / pairing related request types.

use vstd::prelude::*;
use crate::error::text_of;
use crate::types::SecretString;

verus! {

/// Parameters for `query.device.bindKey`.
#[derive(Clone, Debug, Default)]
#[non_exhaustive]
pub struct QueryBindKeyParams {
    /// Optional position id. Empty means default position.
    pub position_id: Option<String>,
    /// Optional connect type (default: `"lumi"`).
    pub connect_type: Option<String>,
}

impl QueryBindKeyParams {
    /// Set position id.
    pub fn with_position_id(self, position_id: &str) -> (r: QueryBindKeyParams)
        ensures
            text_of(r.position_id) == Some(position_id@),
            r.connect_type == self.connect_type,
    {
        let mut r = self;
        r.position_id = Some(position_id.to_owned());
        r
    }

    /// Set connect type.
    pub fn with_connect_type(self, connect_type: &str) -> (r: QueryBindKeyParams)
        ensures
            text_of(r.connect_type) == Some(connect_type@),
            r.position_id == self.position_id,
    {
        let mut r = self;
        r.connect_type = Some(connect_type.to_owned());
        r
    }
}

/// Parameters for `query.device.bind`.
#[derive(Clone, Debug)]
#[non_exhaustive]
pub struct QueryBindParams {
    /// Bind key (secret).
    pub bind_key: SecretString,
}

impl QueryBindParams {
    /// Create params.
    pub fn new(bind_key: &str) -> (r: QueryBindParams)
        ensures
            r.bind_key@ == bind_key@,
    {
        QueryBindParams { bind_key: SecretString::new(bind_key) }
    }
}

/// Parameters for `write.device.openConnect`.
#[derive(Clone, Debug)]
#[non_exhaustive]
pub struct OpenConnectParams {
    /// Gateway DID.
    pub did: String,
}

impl OpenConnectParams {
    /// Create params.
    pub fn new(did: &str) -> (r: OpenConnectParams)
        ensures
            r.did@ == did@,
    {
        OpenConnectParams { did: did.to_owned() }
    }
}

/// Parameters for `write.device.closeConnect`.
#[derive(Clone, Debug)]
#[non_exhaustive]
pub struct CloseConnectParams {
    /// Gateway DID.
    pub did: String,
}

impl CloseConnectParams {
    /// Create params.
    pub fn new(did: &str) -> (r: CloseConnectParams)
        ensures
            r.did@ == did@,
    {
        CloseConnectParams { did: did.to_owned() }
    }
}

/// Parameters for `query.device.supportGateway`.
#[derive(Clone, Debug)]
#[non_exhaustive]
pub struct QueryDeviceSupportGatewayParams {
    /// Sub-device model.
    pub model: String,
}

impl QueryDeviceSupportGatewayParams {
    /// Create params.
    pub fn new(model: &str) -> (r: QueryDeviceSupportGatewayParams)
        ensures
            r.model@ == model@,
    {
        QueryDeviceSupportGatewayParams { model: model.to_owned() }
    }
}

/// Parameters for `query.position.supportGateway`.
#[derive(Clone, Debug)]
#[non_exhaustive]
pub struct QueryPositionSupportGatewayParams {
    /// Optional position id. Empty means default position.
    pub position_id: Option<String>,
    /// Sub-device model.
    pub model: String,
    /// Page number (1-based).
    pub page_num: u32,
    /// Page size.
    pub page_size: u32,
}

impl QueryPositionSupportGatewayParams {
    /// Create params with required fields.
    pub fn new(model: &str) -> (r: QueryPositionSupportGatewayParams)
        ensures
            r.position_id is None,
            r.model@ == model@,
            r.page_num == 1,
            r.page_size == 30,
    {
        QueryPositionSupportGatewayParams {
            position_id: None,
            model: model.to_owned(),
            page_num: 1,
            page_size: 30,
        }
    }

    /// Set position id.
    pub fn with_position_id(self, position_id: &str) -> (r: QueryPositionSupportGatewayParams)
        ensures
            text_of(r.position_id) == Some(position_id@),
            r.model == self.model,
            r.page_num == self.page_num,
            r.page_size == self.page_size,
    {
        let mut r = self;
        r.position_id = Some(position_id.to_owned());
        r
    }

    /// Set page number (1-based).
    pub fn with_page_num(self, page_num: u32) -> (r: QueryPositionSupportGatewayParams)
        ensures
            r.page_num == page_num,
            r.position_id == self.position_id,
            r.model == self.model,
            r.page_size == self.page_size,
    {
        let mut r = self;
        r.page_num = page_num;
        r
    }

    /// Set page size.
    pub fn with_page_size(self, page_size: u32) -> (r: QueryPositionSupportGatewayParams)
        ensures
            r.page_size == page_size,
            r.position_id == self.position_id,
            r.model == self.model,
            r.page_num == self.page_num,
    {
        let mut r = self;
        r.page_size = page_size;
        r
    }
}

} // verus!
