//! OTA-related request types.

use vstd::prelude::*;

verus! {

/// Parameters for `query.ota.firmware`.
#[derive(Clone, Debug)]
#[non_exhaustive]
pub struct OtaFirmwareParams {
    /// Device model.
    pub model: String,
}

impl OtaFirmwareParams {
    /// Create params.
    pub fn new(model: &str) -> (r: OtaFirmwareParams)
        ensures
            r.model@ == model@,
    {
        OtaFirmwareParams { model: model.to_owned() }
    }
}

/// Parameters for `write.ota.upgrade`.
#[derive(Clone, Debug)]
#[non_exhaustive]
pub struct OtaUpgradeParams {
    /// Device DID list.
    pub dids: Vec<String>,
}

impl OtaUpgradeParams {
    /// Create params.
    pub fn new(dids: Vec<String>) -> (r: OtaUpgradeParams)
        ensures
            r.dids == dids,
    {
        OtaUpgradeParams { dids }
    }
}

/// Parameters for `query.ota.upgrade`.
#[derive(Clone, Debug)]
#[non_exhaustive]
pub struct OtaUpgradeStatusParams {
    /// Device DID list.
    pub dids: Vec<String>,
}

impl OtaUpgradeStatusParams {
    /// Create params.
    pub fn new(dids: Vec<String>) -> (r: OtaUpgradeStatusParams)
        ensures
            r.dids == dids,
    {
        OtaUpgradeStatusParams { dids }
    }
}

} // verus!
