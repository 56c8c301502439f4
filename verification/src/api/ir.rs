//! IR device APIs: the calls of this group.

use vstd::prelude::*;
use crate::api::{
    IntentCall, Fields, ObjectBuilder, number, number_model, opt_number, opt_text, opt_u32,
    some_text, some_u32, text,
};
use crate::types::ir::{
    ConfigIrCustomParams, CreateIrControllerParams, DeleteIrControllerParams, IrCodeInfo,
    QueryIrAcStateParams, QueryIrBrandsParams, QueryIrFunctionsParams, QueryIrInfoParams,
    QueryIrKeysParams, QueryIrLearnResultParams, QueryIrListParams, QueryIrMatchParams,
    UpdateIrControllerParams, WriteIrCancelLearnParams, WriteIrClickParams,
    WriteIrStartLearnParams,
};
use crate::util::json::{Json, JsonModel, items_model, lemma_items_model};

verus! {

/// The JSON of one `IrCodeInfo`.
pub open spec fn ir_code_info_model(item: IrCodeInfo) -> JsonModel {
    Fields::new()
        .with("keyId"@, JsonModel::Text(item.key_id@))
        .with("keyName"@, JsonModel::Text(item.key_name@))
        .with("ircode"@, JsonModel::Text(item.ircode@))
        .with_some("freq"@, opt_text(item.freq))
        .object()
}

/// The JSON array of a list of `IrCodeInfo`.
pub open spec fn ir_code_info_list_model(items: Seq<IrCodeInfo>) -> JsonModel {
    JsonModel::Array(Seq::new(items.len(), |i: int| ir_code_info_model(items[i])))
}

fn ir_code_info_json(item: &IrCodeInfo) -> (r: Json)
    ensures
        r@ == ir_code_info_model(*item),
{
    ObjectBuilder::new()
        .with("keyId", text(item.key_id.as_str()))
        .with("keyName", text(item.key_name.as_str()))
        .with("ircode", text(item.ircode.as_str()))
        .with_some("freq", some_text(&item.freq))
        .build()
}

fn ir_code_info_list(items: &Vec<IrCodeInfo>) -> (r: Json)
    ensures
        r@ == ir_code_info_list_model(items@),
{
    let mut out: Vec<Json> = Vec::new();
    let mut i: usize = 0;
    while i < items.len()
        invariant
            i <= items.len(),
            out.len() == i,
            forall|k: int| 0 <= k < i ==> out@[k]@ == ir_code_info_model(items@[k]),
        decreases items.len() - i,
    {
        out.push(ir_code_info_json(&items[i]));
        i += 1;
    }
    proof {
        lemma_items_model(out@);
        assert(items_model(out@) =~= Seq::new(items@.len(), |i: int| ir_code_info_model(items@[i])));
    }
    Json::Array(out)
}

/// IR device APIs.
pub struct IrService;

impl IrService {
    /// `query.ir.categories`.
    pub fn categories() -> (r: IntentCall)
        ensures
            r.intent@ == "query.ir.categories"@,
            r.include_access_token,
            r.idempotent,
            r.data@ == Fields::new().object(),
    {
        IntentCall {
            intent: "query.ir.categories".to_owned(),
            data: ObjectBuilder::new().build(),
            include_access_token: true,
            idempotent: true,
        }
    }

    /// `query.ir.brands`.
    pub fn brands(params: &QueryIrBrandsParams) -> (r: IntentCall)
        ensures
            r.intent@ == "query.ir.brands"@,
            r.include_access_token,
            r.idempotent,
            r.data@ == Fields::new()
                .with("categoryId"@, number_model(params.category_id as int))
                .object(),
    {
        IntentCall {
            intent: "query.ir.brands".to_owned(),
            data: ObjectBuilder::new()
                .with("categoryId", number(params.category_id as i64))
                .build(),
            include_access_token: true,
            idempotent: true,
        }
    }

    /// `query.ir.match`.
    pub fn match_tree(params: &QueryIrMatchParams) -> (r: IntentCall)
        ensures
            r.intent@ == "query.ir.match"@,
            r.include_access_token,
            r.idempotent,
            r.data@ == Fields::new()
                .with("type"@, number_model(params.query_type as int))
                .with("categoryId"@, number_model(params.category_id as int))
                .with("brandId"@, number_model(params.brand_id as int))
                .object(),
    {
        IntentCall {
            intent: "query.ir.match".to_owned(),
            data: ObjectBuilder::new()
                .with("type", number(params.query_type as i64))
                .with("categoryId", number(params.category_id as i64))
                .with("brandId", number(params.brand_id as i64))
                .build(),
            include_access_token: true,
            idempotent: true,
        }
    }

    /// `config.ir.create`.
    pub fn create_controller(params: &CreateIrControllerParams) -> (r: IntentCall)
        ensures
            r.intent@ == "config.ir.create"@,
            r.include_access_token,
            !r.idempotent,
            r.data@ == Fields::new()
                .with("brandId"@, number_model(params.brand_id as int))
                .with("categoryId"@, number_model(params.category_id as int))
                .with("name"@, JsonModel::Text(params.name@))
                .with("parentDid"@, JsonModel::Text(params.parent_did@))
                .with("controllerId"@, number_model(params.controller_id as int))
                .with_some("positionId"@, opt_text(params.position_id))
                .object(),
    {
        IntentCall {
            intent: "config.ir.create".to_owned(),
            data: ObjectBuilder::new()
                .with("brandId", number(params.brand_id as i64))
                .with("categoryId", number(params.category_id as i64))
                .with("name", text(params.name.as_str()))
                .with("parentDid", text(params.parent_did.as_str()))
                .with("controllerId", number(params.controller_id as i64))
                .with_some("positionId", some_text(&params.position_id))
                .build(),
            include_access_token: true,
            idempotent: false,
        }
    }

    /// `config.ir.delete`.
    pub fn delete_controller(params: &DeleteIrControllerParams) -> (r: IntentCall)
        ensures
            r.intent@ == "config.ir.delete"@,
            r.include_access_token,
            !r.idempotent,
            r.data@ == Fields::new()
                .with("did"@, JsonModel::Text(params.did@))
                .object(),
    {
        IntentCall {
            intent: "config.ir.delete".to_owned(),
            data: ObjectBuilder::new()
                .with("did", text(params.did.as_str()))
                .build(),
            include_access_token: true,
            idempotent: false,
        }
    }

    /// `config.ir.update`.
    pub fn update_controller(params: &UpdateIrControllerParams) -> (r: IntentCall)
        ensures
            r.intent@ == "config.ir.update"@,
            r.include_access_token,
            !r.idempotent,
            r.data@ == Fields::new()
                .with("did"@, JsonModel::Text(params.did@))
                .with("name"@, JsonModel::Text(params.name@))
                .object(),
    {
        IntentCall {
            intent: "config.ir.update".to_owned(),
            data: ObjectBuilder::new()
                .with("did", text(params.did.as_str()))
                .with("name", text(params.name.as_str()))
                .build(),
            include_access_token: true,
            idempotent: false,
        }
    }

    /// `query.ir.info`.
    pub fn info(params: &QueryIrInfoParams) -> (r: IntentCall)
        ensures
            r.intent@ == "query.ir.info"@,
            r.include_access_token,
            r.idempotent,
            r.data@ == Fields::new()
                .with("did"@, JsonModel::Text(params.did@))
                .object(),
    {
        IntentCall {
            intent: "query.ir.info".to_owned(),
            data: ObjectBuilder::new()
                .with("did", text(params.did.as_str()))
                .build(),
            include_access_token: true,
            idempotent: true,
        }
    }

    /// `query.ir.list`.
    pub fn list(params: &QueryIrListParams) -> (r: IntentCall)
        ensures
            r.intent@ == "query.ir.list"@,
            r.include_access_token,
            r.idempotent,
            r.data@ == Fields::new()
                .with("parentDid"@, JsonModel::Text(params.parent_did@))
                .object(),
    {
        IntentCall {
            intent: "query.ir.list".to_owned(),
            data: ObjectBuilder::new()
                .with("parentDid", text(params.parent_did.as_str()))
                .build(),
            include_access_token: true,
            idempotent: true,
        }
    }

    /// `write.ir.click`.
    pub fn click(params: &WriteIrClickParams) -> (r: IntentCall)
        ensures
            r.intent@ == "write.ir.click"@,
            r.include_access_token,
            !r.idempotent,
            r.data@ == Fields::new()
                .with("did"@, JsonModel::Text(params.did@))
                .with_some("brandId"@, opt_number(opt_u32(params.brand_id)))
                .with_some("controllerId"@, opt_number(opt_u32(params.controller_id)))
                .with_some("keyId"@, opt_text(params.key_id))
                .with_some("isAcMatch"@, opt_text(params.is_ac_match))
                .with_some("acKey"@, opt_text(params.ac_key))
                .object(),
    {
        IntentCall {
            intent: "write.ir.click".to_owned(),
            data: ObjectBuilder::new()
                .with("did", text(params.did.as_str()))
                .with_some("brandId", some_u32(params.brand_id))
                .with_some("controllerId", some_u32(params.controller_id))
                .with_some("keyId", some_text(&params.key_id))
                .with_some("isAcMatch", some_text(&params.is_ac_match))
                .with_some("acKey", some_text(&params.ac_key))
                .build(),
            include_access_token: true,
            idempotent: false,
        }
    }

    /// `query.ir.acState`.
    pub fn ac_state(params: &QueryIrAcStateParams) -> (r: IntentCall)
        ensures
            r.intent@ == "query.ir.acState"@,
            r.include_access_token,
            r.idempotent,
            r.data@ == Fields::new()
                .with("did"@, JsonModel::Text(params.did@))
                .object(),
    {
        IntentCall {
            intent: "query.ir.acState".to_owned(),
            data: ObjectBuilder::new()
                .with("did", text(params.did.as_str()))
                .build(),
            include_access_token: true,
            idempotent: true,
        }
    }

    /// `query.ir.functions`.
    pub fn functions(params: &QueryIrFunctionsParams) -> (r: IntentCall)
        ensures
            r.intent@ == "query.ir.functions"@,
            r.include_access_token,
            r.idempotent,
            r.data@ == Fields::new()
                .with_some("did"@, opt_text(params.did))
                .with_some("controllerId"@, opt_number(opt_u32(params.controller_id)))
                .object(),
    {
        IntentCall {
            intent: "query.ir.functions".to_owned(),
            data: ObjectBuilder::new()
                .with_some("did", some_text(&params.did))
                .with_some("controllerId", some_u32(params.controller_id))
                .build(),
            include_access_token: true,
            idempotent: true,
        }
    }

    /// `query.ir.keys`.
    pub fn keys(params: &QueryIrKeysParams) -> (r: IntentCall)
        ensures
            r.intent@ == "query.ir.keys"@,
            r.include_access_token,
            r.idempotent,
            r.data@ == Fields::new()
                .with("did"@, JsonModel::Text(params.did@))
                .object(),
    {
        IntentCall {
            intent: "query.ir.keys".to_owned(),
            data: ObjectBuilder::new()
                .with("did", text(params.did.as_str()))
                .build(),
            include_access_token: true,
            idempotent: true,
        }
    }

    /// `write.ir.startLearn`.
    pub fn start_learn(params: &WriteIrStartLearnParams) -> (r: IntentCall)
        ensures
            r.intent@ == "write.ir.startLearn"@,
            r.include_access_token,
            !r.idempotent,
            r.data@ == Fields::new()
                .with("did"@, JsonModel::Text(params.did@))
                .with_some("timeLength"@, opt_number(opt_u32(params.time_length)))
                .object(),
    {
        IntentCall {
            intent: "write.ir.startLearn".to_owned(),
            data: ObjectBuilder::new()
                .with("did", text(params.did.as_str()))
                .with_some("timeLength", some_u32(params.time_length))
                .build(),
            include_access_token: true,
            idempotent: false,
        }
    }

    /// `write.ir.cancelLearn`.
    pub fn cancel_learn(params: &WriteIrCancelLearnParams) -> (r: IntentCall)
        ensures
            r.intent@ == "write.ir.cancelLearn"@,
            r.include_access_token,
            !r.idempotent,
            r.data@ == Fields::new()
                .with("did"@, JsonModel::Text(params.did@))
                .with_some("keyId"@, opt_text(params.key_id))
                .object(),
    {
        IntentCall {
            intent: "write.ir.cancelLearn".to_owned(),
            data: ObjectBuilder::new()
                .with("did", text(params.did.as_str()))
                .with_some("keyId", some_text(&params.key_id))
                .build(),
            include_access_token: true,
            idempotent: false,
        }
    }

    /// `query.ir.learnResult`.
    pub fn learn_result(params: &QueryIrLearnResultParams) -> (r: IntentCall)
        ensures
            r.intent@ == "query.ir.learnResult"@,
            r.include_access_token,
            r.idempotent,
            r.data@ == Fields::new()
                .with("did"@, JsonModel::Text(params.did@))
                .with_some("keyId"@, opt_text(params.key_id))
                .object(),
    {
        IntentCall {
            intent: "query.ir.learnResult".to_owned(),
            data: ObjectBuilder::new()
                .with("did", text(params.did.as_str()))
                .with_some("keyId", some_text(&params.key_id))
                .build(),
            include_access_token: true,
            idempotent: true,
        }
    }

    /// `config.ir.custom`.
    pub fn custom_controller(params: &ConfigIrCustomParams) -> (r: IntentCall)
        ensures
            r.intent@ == "config.ir.custom"@,
            r.include_access_token,
            !r.idempotent,
            r.data@ == Fields::new()
                .with("parentDid"@, JsonModel::Text(params.parent_did@))
                .with("name"@, JsonModel::Text(params.name@))
                .with("irCodeInfos"@, ir_code_info_list_model(params.ir_code_infos@))
                .with_some("positionId"@, opt_text(params.position_id))
                .object(),
    {
        IntentCall {
            intent: "config.ir.custom".to_owned(),
            data: ObjectBuilder::new()
                .with("parentDid", text(params.parent_did.as_str()))
                .with("name", text(params.name.as_str()))
                .with("irCodeInfos", ir_code_info_list(&params.ir_code_infos))
                .with_some("positionId", some_text(&params.position_id))
                .build(),
            include_access_token: true,
            idempotent: false,
        }
    }
}

} // verus!
