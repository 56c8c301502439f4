//! IR device related request types.

use vstd::prelude::*;
use crate::error::text_of;

verus! {

/// Parameters for `query.ir.brands`.
#[derive(Clone, Debug)]
#[non_exhaustive]
pub struct QueryIrBrandsParams {
    /// Category id.
    pub category_id: u32,
}

impl QueryIrBrandsParams {
    /// Create params.
    pub fn new(category_id: u32) -> (r: QueryIrBrandsParams)
        ensures
            r.category_id == category_id,
    {
        QueryIrBrandsParams { category_id }
    }
}

/// Parameters for `query.ir.match`.
#[derive(Clone, Debug)]
#[non_exhaustive]
pub struct QueryIrMatchParams {
    /// Query type (e.g. `1`).
    pub query_type: u32,
    /// Category id.
    pub category_id: u32,
    /// Brand id.
    pub brand_id: u32,
}

impl QueryIrMatchParams {
    /// Create params.
    pub fn new(query_type: u32, category_id: u32, brand_id: u32) -> (r: QueryIrMatchParams)
        ensures
            r.query_type == query_type,
            r.category_id == category_id,
            r.brand_id == brand_id,
    {
        QueryIrMatchParams { query_type, category_id, brand_id }
    }
}

/// Parameters for `config.ir.create`.
#[derive(Clone, Debug)]
#[non_exhaustive]
pub struct CreateIrControllerParams {
    /// Gateway DID.
    pub parent_did: String,
    /// Optional position id.
    pub position_id: Option<String>,
    /// IR category id.
    pub category_id: u32,
    /// IR brand id.
    pub brand_id: u32,
    /// Controller id (from match tree).
    pub controller_id: u32,
    /// Controller name.
    pub name: String,
}

impl CreateIrControllerParams {
    /// Create params with required fields.
    pub fn new(
        parent_did: &str,
        category_id: u32,
        brand_id: u32,
        controller_id: u32,
        name: &str,
    ) -> (r: CreateIrControllerParams)
        ensures
            r.parent_did@ == parent_did@,
            r.position_id is None,
            r.category_id == category_id,
            r.brand_id == brand_id,
            r.controller_id == controller_id,
            r.name@ == name@,
    {
        CreateIrControllerParams {
            parent_did: parent_did.to_owned(),
            position_id: None,
            category_id,
            brand_id,
            controller_id,
            name: name.to_owned(),
        }
    }

    /// Set position id.
    pub fn with_position_id(self, position_id: &str) -> (r: CreateIrControllerParams)
        ensures
            text_of(r.position_id) == Some(position_id@),
            r.parent_did == self.parent_did,
            r.category_id == self.category_id,
            r.brand_id == self.brand_id,
            r.controller_id == self.controller_id,
            r.name == self.name,
    {
        let mut r = self;
        r.position_id = Some(position_id.to_owned());
        r
    }
}

/// Parameters for `config.ir.delete`.
#[derive(Clone, Debug)]
#[non_exhaustive]
pub struct DeleteIrControllerParams {
    /// IR controller device id.
    pub did: String,
}

impl DeleteIrControllerParams {
    /// Create params.
    pub fn new(did: &str) -> (r: DeleteIrControllerParams)
        ensures
            r.did@ == did@,
    {
        DeleteIrControllerParams { did: did.to_owned() }
    }
}

/// Parameters for `config.ir.update`.
#[derive(Clone, Debug)]
#[non_exhaustive]
pub struct UpdateIrControllerParams {
    /// IR controller device id.
    pub did: String,
    /// New name.
    pub name: String,
}

impl UpdateIrControllerParams {
    /// Create params.
    pub fn new(did: &str, name: &str) -> (r: UpdateIrControllerParams)
        ensures
            r.did@ == did@,
            r.name@ == name@,
    {
        UpdateIrControllerParams { did: did.to_owned(), name: name.to_owned() }
    }
}

/// Parameters for `query.ir.info`.
#[derive(Clone, Debug)]
#[non_exhaustive]
pub struct QueryIrInfoParams {
    /// IR controller device id.
    pub did: String,
}

impl QueryIrInfoParams {
    /// Create params.
    pub fn new(did: &str) -> (r: QueryIrInfoParams)
        ensures
            r.did@ == did@,
    {
        QueryIrInfoParams { did: did.to_owned() }
    }
}

/// Parameters for `query.ir.list`.
#[derive(Clone, Debug)]
#[non_exhaustive]
pub struct QueryIrListParams {
    /// Gateway DID.
    pub parent_did: String,
}

impl QueryIrListParams {
    /// Create params.
    pub fn new(parent_did: &str) -> (r: QueryIrListParams)
        ensures
            r.parent_did@ == parent_did@,
    {
        QueryIrListParams { parent_did: parent_did.to_owned() }
    }
}

/// Parameters for `write.ir.click`.
#[derive(Clone, Debug)]
#[non_exhaustive]
pub struct WriteIrClickParams {
    /// Gateway DID or IR controller device id.
    pub did: String,
    /// Optional brand id (required for AC matching).
    pub brand_id: Option<u32>,
    /// Optional controller id.
    pub controller_id: Option<u32>,
    /// Optional key id (for non-AC / stateless AC).
    pub key_id: Option<String>,
    /// Optional AC match state (`0` matched, `1` matching).
    pub is_ac_match: Option<String>,
    /// Optional AC key.
    pub ac_key: Option<String>,
}

impl WriteIrClickParams {
    /// Create params with required fields.
    pub fn new(did: &str) -> (r: WriteIrClickParams)
        ensures
            r.did@ == did@,
            r.brand_id is None,
            r.controller_id is None,
            r.key_id is None,
            r.is_ac_match is None,
            r.ac_key is None,
    {
        WriteIrClickParams {
            did: did.to_owned(),
            brand_id: None,
            controller_id: None,
            key_id: None,
            is_ac_match: None,
            ac_key: None,
        }
    }

    /// Set brand id.
    pub fn with_brand_id(self, brand_id: u32) -> (r: WriteIrClickParams)
        ensures
            r.brand_id == Some(brand_id),
            r.did == self.did,
            r.controller_id == self.controller_id,
            r.key_id == self.key_id,
            r.is_ac_match == self.is_ac_match,
            r.ac_key == self.ac_key,
    {
        let mut r = self;
        r.brand_id = Some(brand_id);
        r
    }

    /// Set controller id.
    pub fn with_controller_id(self, controller_id: u32) -> (r: WriteIrClickParams)
        ensures
            r.controller_id == Some(controller_id),
            r.did == self.did,
            r.brand_id == self.brand_id,
            r.key_id == self.key_id,
            r.is_ac_match == self.is_ac_match,
            r.ac_key == self.ac_key,
    {
        let mut r = self;
        r.controller_id = Some(controller_id);
        r
    }

    /// Set key id.
    pub fn with_key_id(self, key_id: &str) -> (r: WriteIrClickParams)
        ensures
            text_of(r.key_id) == Some(key_id@),
            r.did == self.did,
            r.brand_id == self.brand_id,
            r.controller_id == self.controller_id,
            r.is_ac_match == self.is_ac_match,
            r.ac_key == self.ac_key,
    {
        let mut r = self;
        r.key_id = Some(key_id.to_owned());
        r
    }

    /// Set AC match state.
    pub fn with_is_ac_match(self, is_ac_match: &str) -> (r: WriteIrClickParams)
        ensures
            text_of(r.is_ac_match) == Some(is_ac_match@),
            r.did == self.did,
            r.brand_id == self.brand_id,
            r.controller_id == self.controller_id,
            r.key_id == self.key_id,
            r.ac_key == self.ac_key,
    {
        let mut r = self;
        r.is_ac_match = Some(is_ac_match.to_owned());
        r
    }

    /// Set AC key.
    pub fn with_ac_key(self, ac_key: &str) -> (r: WriteIrClickParams)
        ensures
            text_of(r.ac_key) == Some(ac_key@),
            r.did == self.did,
            r.brand_id == self.brand_id,
            r.controller_id == self.controller_id,
            r.key_id == self.key_id,
            r.is_ac_match == self.is_ac_match,
    {
        let mut r = self;
        r.ac_key = Some(ac_key.to_owned());
        r
    }
}

/// Parameters for `query.ir.acState`.
#[derive(Clone, Debug)]
#[non_exhaustive]
pub struct QueryIrAcStateParams {
    /// IR controller device id.
    pub did: String,
}

impl QueryIrAcStateParams {
    /// Create params.
    pub fn new(did: &str) -> (r: QueryIrAcStateParams)
        ensures
            r.did@ == did@,
    {
        QueryIrAcStateParams { did: did.to_owned() }
    }
}

/// Parameters for `query.ir.functions`.
#[derive(Clone, Debug, Default)]
#[non_exhaustive]
pub struct QueryIrFunctionsParams {
    /// Optional IR controller device id.
    pub did: Option<String>,
    /// Optional controller id.
    pub controller_id: Option<u32>,
}

impl QueryIrFunctionsParams {
    /// Set IR controller device id.
    pub fn with_did(self, did: &str) -> (r: QueryIrFunctionsParams)
        ensures
            text_of(r.did) == Some(did@),
            r.controller_id == self.controller_id,
    {
        let mut r = self;
        r.did = Some(did.to_owned());
        r
    }

    /// Set controller id.
    pub fn with_controller_id(self, controller_id: u32) -> (r: QueryIrFunctionsParams)
        ensures
            r.controller_id == Some(controller_id),
            r.did == self.did,
    {
        let mut r = self;
        r.controller_id = Some(controller_id);
        r
    }
}

/// Parameters for `query.ir.keys`.
#[derive(Clone, Debug)]
#[non_exhaustive]
pub struct QueryIrKeysParams {
    /// IR controller device id.
    pub did: String,
}

impl QueryIrKeysParams {
    /// Create params.
    pub fn new(did: &str) -> (r: QueryIrKeysParams)
        ensures
            r.did@ == did@,
    {
        QueryIrKeysParams { did: did.to_owned() }
    }
}

/// Parameters for `write.ir.startLearn`.
#[derive(Clone, Debug)]
#[non_exhaustive]
pub struct WriteIrStartLearnParams {
    /// Gateway/IR device id.
    pub did: String,
    /// Optional learning time length (seconds).
    pub time_length: Option<u32>,
}

impl WriteIrStartLearnParams {
    /// Create params with required fields.
    pub fn new(did: &str) -> (r: WriteIrStartLearnParams)
        ensures
            r.did@ == did@,
            r.time_length is None,
    {
        WriteIrStartLearnParams { did: did.to_owned(), time_length: None }
    }

    /// Set time length (seconds).
    pub fn with_time_length(self, time_length: u32) -> (r: WriteIrStartLearnParams)
        ensures
            r.time_length == Some(time_length),
            r.did == self.did,
    {
        let mut r = self;
        r.time_length = Some(time_length);
        r
    }
}

/// Parameters for `write.ir.cancelLearn`.
#[derive(Clone, Debug)]
#[non_exhaustive]
pub struct WriteIrCancelLearnParams {
    /// Gateway/IR device id.
    pub did: String,
    /// Optional learning key id.
    pub key_id: Option<String>,
}

impl WriteIrCancelLearnParams {
    /// Create params with required fields.
    pub fn new(did: &str) -> (r: WriteIrCancelLearnParams)
        ensures
            r.did@ == did@,
            r.key_id is None,
    {
        WriteIrCancelLearnParams { did: did.to_owned(), key_id: None }
    }

    /// Set learning key id.
    pub fn with_key_id(self, key_id: &str) -> (r: WriteIrCancelLearnParams)
        ensures
            text_of(r.key_id) == Some(key_id@),
            r.did == self.did,
    {
        let mut r = self;
        r.key_id = Some(key_id.to_owned());
        r
    }
}

/// Parameters for `query.ir.learnResult`.
#[derive(Clone, Debug)]
#[non_exhaustive]
pub struct QueryIrLearnResultParams {
    /// Gateway/IR device id.
    pub did: String,
    /// Optional learning key id.
    pub key_id: Option<String>,
}

impl QueryIrLearnResultParams {
    /// Create params with required fields.
    pub fn new(did: &str) -> (r: QueryIrLearnResultParams)
        ensures
            r.did@ == did@,
            r.key_id is None,
    {
        QueryIrLearnResultParams { did: did.to_owned(), key_id: None }
    }

    /// Set learning key id.
    pub fn with_key_id(self, key_id: &str) -> (r: QueryIrLearnResultParams)
        ensures
            text_of(r.key_id) == Some(key_id@),
            r.did == self.did,
    {
        let mut r = self;
        r.key_id = Some(key_id.to_owned());
        r
    }
}

/// A custom IR code entry for `config.ir.custom`.
#[derive(Clone, Debug)]
#[non_exhaustive]
pub struct IrCodeInfo {
    /// Key name.
    pub key_name: String,
    /// Key id.
    pub key_id: String,
    /// IR code value.
    pub ircode: String,
    /// Optional frequency.
    pub freq: Option<String>,
}

impl IrCodeInfo {
    /// Create params with required fields.
    pub fn new(key_id: &str, key_name: &str, ircode: &str) -> (r: IrCodeInfo)
        ensures
            r.key_name@ == key_name@,
            r.key_id@ == key_id@,
            r.ircode@ == ircode@,
            r.freq is None,
    {
        IrCodeInfo {
            key_name: key_name.to_owned(),
            key_id: key_id.to_owned(),
            ircode: ircode.to_owned(),
            freq: None,
        }
    }

    /// Set frequency.
    pub fn with_freq(self, freq: &str) -> (r: IrCodeInfo)
        ensures
            text_of(r.freq) == Some(freq@),
            r.key_name == self.key_name,
            r.key_id == self.key_id,
            r.ircode == self.ircode,
    {
        let mut r = self;
        r.freq = Some(freq.to_owned());
        r
    }
}

/// Parameters for `config.ir.custom`.
#[derive(Clone, Debug)]
#[non_exhaustive]
pub struct ConfigIrCustomParams {
    /// Gateway DID.
    pub parent_did: String,
    /// Controller name.
    pub name: String,
    /// Optional position id.
    pub position_id: Option<String>,
    /// IR code list.
    pub ir_code_infos: Vec<IrCodeInfo>,
}

impl ConfigIrCustomParams {
    /// Create params with required fields.
    pub fn new(
        parent_did: &str,
        name: &str,
        ir_code_infos: Vec<IrCodeInfo>,
    ) -> (r: ConfigIrCustomParams)
        ensures
            r.parent_did@ == parent_did@,
            r.name@ == name@,
            r.position_id is None,
            r.ir_code_infos == ir_code_infos,
    {
        ConfigIrCustomParams {
            parent_did: parent_did.to_owned(),
            name: name.to_owned(),
            position_id: None,
            ir_code_infos,
        }
    }

    /// Set position id.
    pub fn with_position_id(self, position_id: &str) -> (r: ConfigIrCustomParams)
        ensures
            text_of(r.position_id) == Some(position_id@),
            r.parent_did == self.parent_did,
            r.name == self.name,
            r.ir_code_infos == self.ir_code_infos,
    {
        let mut r = self;
        r.position_id = Some(position_id.to_owned());
        r
    }
}

} // verus!
