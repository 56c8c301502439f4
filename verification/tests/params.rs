use aqara::types::auth::{CreateAccountParams, GetAuthCodeParams, GetTokenParams, RefreshTokenParams};
use aqara::types::devices::{QueryDeviceInfoParams, QuerySubDevicesParams};
use aqara::types::events::{CreateEventParams, EventCondition, EventConditionParam};
use aqara::types::ir::QueryIrMatchParams;
use aqara::types::linkages::CreateLinkageParams;
use aqara::types::positions::ListPositionsParams;
use aqara::types::push::{TraitSubscribeParams, TraitSubscription};
use aqara::types::resources::CommandDeviceResourceParams;
use aqara::types::{AqaraEnvelope, BodySnippetConfig, CallOptions, RetryConfig, TimeoutConfig};
use aqara::util::json::Json;
use aqara::util::time::Duration;

#[test]
fn create_account_params_are_built_step_by_step() {
    let params = CreateAccountParams::new("acc");
    assert_eq!(params.account_id, "acc");
    assert_eq!(params.remark, None);
    assert_eq!(params.need_access_token, None);
    assert_eq!(params.access_token_validity, None);
    let params = params.with_remark("r").with_need_access_token(true).with_access_token_validity("7d");
    assert_eq!(params.account_id, "acc");
    assert_eq!(params.remark.as_deref(), Some("r"));
    assert_eq!(params.need_access_token, Some(true));
    assert_eq!(params.access_token_validity.as_deref(), Some("7d"));
}

#[test]
fn auth_params_keep_secrets_out_of_debug_output() {
    let code = GetAuthCodeParams::new("u", 1).with_access_token_validity("30d");
    assert_eq!((code.account.as_str(), code.account_type), ("u", 1));
    assert_eq!(code.access_token_validity.as_deref(), Some("30d"));
    let token = GetTokenParams::new("code", "u", 1);
    assert_eq!(token.auth_code.expose(), "code");
    assert!(!format!("{token:?}").contains("code\""));
    let refresh = RefreshTokenParams::new("rt-secret");
    assert_eq!(refresh.refresh_token.expose(), "rt-secret");
    assert!(!format!("{refresh:?}").contains("rt-secret"));
}

#[test]
fn paged_params_have_defaults() {
    let devices = QueryDeviceInfoParams::default();
    assert_eq!((devices.dids.clone(), devices.position_id.clone()), (None, None));
    assert_eq!((devices.page_num, devices.page_size), (1, 50));
    let devices = devices
        .with_dids(vec!["a".to_string(), "b".to_string()])
        .with_position_id("p")
        .with_page_num(2)
        .with_page_size(10);
    assert_eq!(devices.dids, Some(vec!["a".to_string(), "b".to_string()]));
    assert_eq!(devices.position_id.as_deref(), Some("p"));
    assert_eq!((devices.page_num, devices.page_size), (2, 10));
    let positions = ListPositionsParams::default();
    assert_eq!(positions.parent_position_id, None);
    assert_eq!((positions.page_num, positions.page_size), (1, 30));
    assert_eq!(QuerySubDevicesParams::new("gw").gateway_did, "gw");
}

#[test]
fn nested_params_are_kept() {
    let condition = EventCondition::new("trigger")
        .with_subject_id("s")
        .with_model("m")
        .with_begin_time("b")
        .with_end_time("e")
        .with_params(vec![EventConditionParam::new("id", "v").with_param_type("t").with_param_unit("u")]);
    assert_eq!(condition.trigger_definition_id, "trigger");
    assert_eq!(condition.subject_id.as_deref(), Some("s"));
    assert_eq!(condition.model.as_deref(), Some("m"));
    assert_eq!(condition.begin_time.as_deref(), Some("b"));
    assert_eq!(condition.end_time.as_deref(), Some("e"));
    let params = condition.params.as_ref().unwrap();
    assert_eq!(params.len(), 1);
    assert_eq!(params[0].param_id.as_deref(), Some("id"));
    assert_eq!(params[0].value.as_deref(), Some("v"));
    assert_eq!(params[0].param_type.as_deref(), Some("t"));
    assert_eq!(params[0].param_unit.as_deref(), Some("u"));
    let event = CreateEventParams::new("name", 1, vec![condition]).with_position_id("p");
    assert_eq!((event.name.as_str(), event.relation, event.condition.len()), ("name", 1, 1));
    assert_eq!(event.position_id.as_deref(), Some("p"));
}

#[test]
fn other_params_are_kept() {
    let m = QueryIrMatchParams::new(1, 2, 3);
    assert_eq!((m.query_type, m.category_id, m.brand_id), (1, 2, 3));
    let linkage = CreateLinkageParams::new("n", Json::Null, Json::Bool(true)).with_position_id("p");
    assert_eq!(linkage.name, "n");
    assert!(linkage.conditions.is_null());
    assert_eq!(linkage.actions.to_text(), "true");
    assert_eq!(linkage.position_id.as_deref(), Some("p"));
    let command = CommandDeviceResourceParams::new("pos", "turn on");
    assert_eq!((command.position_id.as_str(), command.query_text.as_str()), ("pos", "turn on"));
    let subscribe = TraitSubscribeParams::new(vec![
        TraitSubscription::new("did-1", vec!["1.2.3".to_string()]).with_attach("ctx"),
    ]);
    assert_eq!(subscribe.traits.len(), 1);
    assert_eq!(subscribe.traits[0].subject_id, "did-1");
    assert_eq!(subscribe.traits[0].code_paths, vec!["1.2.3".to_string()]);
    assert_eq!(subscribe.traits[0].attach.as_deref(), Some("ctx"));
}

#[test]
fn configurations_have_defaults_and_constructors() {
    let t = TimeoutConfig::default();
    assert_eq!(t.connect, Some(Duration::from_secs(10)));
    assert_eq!(t.request, Some(Duration::from_secs(30)));
    assert_eq!(t.read, Some(Duration::from_secs(30)));
    let t = TimeoutConfig::new(None, None, Some(Duration::from_millis(5)));
    assert_eq!((t.connect, t.request, t.read), (None, None, Some(Duration::from_millis(5))));
    let r = RetryConfig::default();
    assert_eq!(r.max_retries, 3);
    assert_eq!(r.base_delay, Duration::from_millis(200));
    assert_eq!(r.max_delay, Duration::from_secs(2));
    let b = BodySnippetConfig::default();
    assert_eq!((b.enabled, b.max_len), (true, 2048));
    let b = BodySnippetConfig::new(false, 1);
    assert_eq!((b.enabled, b.max_len), (false, 1));
    let with = CallOptions::with_access_token();
    assert_eq!((with.include_access_token, with.idempotent), (true, false));
    let without = CallOptions::without_access_token().idempotent(true);
    assert_eq!((without.include_access_token, without.idempotent), (false, true));
    assert_eq!(without.idempotent(false).idempotent, false);
}

#[test]
fn envelope_fields_are_public() {
    let parsed = Json::parse(br#"{"code":0,"requestId":"r","message":"m","result":[1]}"#).unwrap();
    let envelope: AqaraEnvelope<Json> = aqara::client::response::decode_envelope(&parsed).unwrap();
    assert_eq!(envelope.code, 0);
    assert_eq!(envelope.request_id, "r");
    assert_eq!(envelope.message, "m");
    assert_eq!(envelope.result.map(|j| j.to_text()), Some("[1]".to_string()));
}
