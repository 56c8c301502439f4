use aqara::api::auth::AuthService;
use aqara::api::devices::DeviceService;
use aqara::api::events::EventService;
use aqara::api::ifttt::IftttService;
use aqara::api::ir::IrService;
use aqara::api::linkages::LinkageService;
use aqara::api::networking::NetworkingService;
use aqara::api::ota::OtaService;
use aqara::api::positions::PositionService;
use aqara::api::push::PushService;
use aqara::api::raw::RawService;
use aqara::api::resources::ResourceService;
use aqara::api::scenes::SceneService;
use aqara::api::voice::VoiceService;
use aqara::api::{
    decimal_text, number, numbers, some_bool, some_i64, some_text, some_texts, some_u32, text,
    text_or_else, texts, IntentCall, ObjectBuilder,
};
use aqara::client::builder::ClientBuilder;
use aqara::client::handle::ClientCore;
use aqara::types::auth::{CreateAccountParams, GetAuthCodeParams, GetTokenParams, RefreshTokenParams};
use aqara::types::devices::{QueryDeviceInfoParams, QuerySubDevicesParams, UpdateDevicePositionParams};
use aqara::types::events::{CreateEventParams, EventCondition, EventConditionParam};
use aqara::types::ifttt::IftttModelsParams;
use aqara::types::ir::{ConfigIrCustomParams, IrCodeInfo, QueryIrFunctionsParams, QueryIrMatchParams, WriteIrClickParams};
use aqara::types::linkages::CreateLinkageParams;
use aqara::types::networking::{QueryBindKeyParams, QueryBindParams, QueryPositionSupportGatewayParams};
use aqara::types::ota::OtaUpgradeParams;
use aqara::types::positions::{CreatePositionParams, ListPositionsParams};
use aqara::types::push::{
    QueryPushErrorMsgParams, ResourceSubscription, SubscribeResourceParams, TraitSubscribeParams,
    TraitSubscription, TraitUnsubscribeParams, UnsubscribeResourceParams,
};
use aqara::types::resources::{
    CommandDeviceResourceParams, FetchResourceHistoryParams, FetchResourceStatisticsParams,
    QueryResourceValueParams, ResourceInfoParams, ResourceStatisticsQuery, ResourceValueQuery,
    WriteResource, WriteResourceDeviceItem, WriteResourceDeviceParams,
};
use aqara::types::scenes::{CreateSceneParams, QueryScenesByPositionIdParams, SceneAction, SceneActionParam};
use aqara::types::Credentials;
use aqara::util::json::Json;

fn check(call: IntentCall, intent: &str, data: &str, with_token: bool, idempotent: bool) {
    assert_eq!(call.intent, intent);
    assert_eq!(call.data.to_text(), data);
    assert_eq!(call.include_access_token, with_token, "{intent}");
    assert_eq!(call.idempotent, idempotent, "{intent}");
    let options = call.options();
    assert_eq!(options.include_access_token, with_token);
    assert_eq!(options.idempotent, idempotent);
}

fn strings(items: &[&str]) -> Vec<String> {
    items.iter().map(|s| s.to_string()).collect()
}

#[test]
fn auth_endpoints_do_not_send_access_token_header() {
    let calls = vec![
        (
            AuthService::create_account(&CreateAccountParams::new("acc")),
            "config.auth.createAccount",
            r#"{"accountId":"acc"}"#,
        ),
        (
            AuthService::get_auth_code(&GetAuthCodeParams::new("u", 1)),
            "config.auth.getAuthCode",
            r#"{"accessTokenValidity":"7d","account":"u","accountType":1}"#,
        ),
        (
            AuthService::get_token(&GetTokenParams::new("code", "u", 1)),
            "config.auth.getToken",
            r#"{"account":"u","accountType":1,"authCode":"code"}"#,
        ),
        (
            AuthService::refresh_token(&RefreshTokenParams::new("rt")),
            "config.auth.refreshToken",
            r#"{"refreshToken":"rt"}"#,
        ),
    ];
    let builder = ClientBuilder::new(Credentials::new("APP_ID", "KEY_ID", "APP_KEY"))
        .base_url("http://127.0.0.1:9/v3.0/open/api")
        .access_token("held but not sent");
    let client = ClientCore::from_config(builder.into_config(false).unwrap());
    for (call, intent, data) in calls {
        let request = client.prepare(&call.intent, &call.data, call.options()).unwrap();
        assert!(request.headers.get("accesstoken").is_none());
        assert_eq!(request.headers.get("appid").unwrap(), "APP_ID");
        assert_eq!(request.headers.get("keyid").unwrap(), "KEY_ID");
        assert_eq!(request.headers.get("content-type").unwrap(), "application/json");
        assert_eq!(request.headers.get("lang").unwrap(), "en");
        assert!(request.headers.contains_key("nonce"));
        assert!(request.headers.contains_key("time"));
        assert!(request.headers.contains_key("sign"));
        assert_eq!(
            String::from_utf8(request.body).unwrap(),
            format!(r#"{{"intent":"{intent}","data":{data}}}"#)
        );
        check(call, intent, data, false, false);
    }
}

#[test]
fn trait_subscription_serialization_matches_docs() {
    let params = TraitSubscribeParams::new(vec![
        TraitSubscription::new("did-1", vec!["1.2.3".to_string()]).with_attach("ctx"),
    ]);
    check(
        PushService::subscribe_traits(&params),
        "spec.config.trait.subscribe",
        r#"{"traits":[{"attach":"ctx","codePaths":["1.2.3"],"subjectId":"did-1"}]}"#,
        true,
        false,
    );
}

#[test]
fn auth_calls_carry_their_options() {
    let params = CreateAccountParams::new("acc")
        .with_remark("r")
        .with_need_access_token(true)
        .with_access_token_validity("30d");
    check(
        AuthService::create_account(&params),
        "config.auth.createAccount",
        r#"{"accessTokenValidity":"30d","accountId":"acc","needAccessToken":true,"remark":"r"}"#,
        false,
        false,
    );
    let params = GetAuthCodeParams::new("u", -1).with_access_token_validity("1h");
    check(
        AuthService::get_auth_code(&params),
        "config.auth.getAuthCode",
        r#"{"accessTokenValidity":"1h","account":"u","accountType":-1}"#,
        false,
        false,
    );
}

#[test]
fn device_and_position_calls() {
    check(
        DeviceService::info(&QueryDeviceInfoParams::default()),
        "query.device.info",
        r#"{"pageNum":1,"pageSize":50,"positionId":""}"#,
        true,
        true,
    );
    let params = QueryDeviceInfoParams::default()
        .with_dids(strings(&["a", "b"]))
        .with_position_id("p")
        .with_page_num(3)
        .with_page_size(7);
    check(
        DeviceService::info(&params),
        "query.device.info",
        r#"{"dids":["a","b"],"pageNum":3,"pageSize":7,"positionId":"p"}"#,
        true,
        true,
    );
    check(
        DeviceService::sub_info(&QuerySubDevicesParams::new("gw")),
        "query.device.subInfo",
        r#"{"did":"gw"}"#,
        true,
        true,
    );
    check(
        DeviceService::update_position(&UpdateDevicePositionParams::new(strings(&["d"]), "p")),
        "config.device.position",
        r#"{"dids":["d"],"positionId":"p"}"#,
        true,
        false,
    );
    check(
        PositionService::list(&ListPositionsParams::default()),
        "query.position.info",
        r#"{"pageNum":1,"pageSize":30,"parentPositionId":""}"#,
        true,
        true,
    );
    check(
        PositionService::create(&CreatePositionParams::new("home").with_description("d")),
        "config.position.create",
        r#"{"description":"d","positionName":"home"}"#,
        true,
        false,
    );
}

#[test]
fn networking_calls() {
    check(
        NetworkingService::bind_key(&QueryBindKeyParams::default()),
        "query.device.bindKey",
        r#"{"connectType":"lumi","positionId":""}"#,
        true,
        true,
    );
    check(
        NetworkingService::bind_key(
            &QueryBindKeyParams::default().with_position_id("p").with_connect_type("ap"),
        ),
        "query.device.bindKey",
        r#"{"connectType":"ap","positionId":"p"}"#,
        true,
        true,
    );
    check(
        NetworkingService::bind(&QueryBindParams::new("key")),
        "query.device.bind",
        r#"{"bindKey":"key"}"#,
        true,
        true,
    );
    check(
        NetworkingService::support_gateway_by_position(
            &QueryPositionSupportGatewayParams::new("m").with_page_num(12),
        ),
        "query.position.supportGateway",
        r#"{"model":"m","pageNum":"12","pageSize":"30","positionId":""}"#,
        true,
        true,
    );
}

#[test]
fn resource_calls() {
    check(
        ResourceService::info(&ResourceInfoParams::new("m").with_resource_id("4.1.85")),
        "query.resource.info",
        r#"{"model":"m","resourceId":"4.1.85"}"#,
        true,
        true,
    );
    let queries = vec![
        ResourceValueQuery::new("s1"),
        ResourceValueQuery::new("s2").with_resource_ids(strings(&["r"])),
    ];
    check(
        ResourceService::value(&QueryResourceValueParams::new(queries)),
        "query.resource.value",
        r#"{"resources":[{"subjectId":"s1"},{"resourceIds":["r"],"subjectId":"s2"}]}"#,
        true,
        true,
    );
    let items = vec![
        WriteResourceDeviceItem::new("s", vec![WriteResource::new("r1", "1"), WriteResource::new("r2", "0")]),
        WriteResourceDeviceItem::new("t", Vec::new()),
    ];
    check(
        ResourceService::write_device(&WriteResourceDeviceParams::new(items)),
        "write.resource.device",
        r#"[{"resources":[{"resourceId":"r1","value":"1"},{"resourceId":"r2","value":"0"}],"subjectId":"s"},{"resources":[],"subjectId":"t"}]"#,
        true,
        false,
    );
    let history = FetchResourceHistoryParams::new("s", strings(&["r"]), "100")
        .with_end_time("200")
        .with_size(5)
        .with_scan_id("scan");
    check(
        ResourceService::history(&history),
        "fetch.resource.history",
        r#"{"endTime":"200","resourceIds":["r"],"scanId":"scan","size":5,"startTime":"100","subjectId":"s"}"#,
        true,
        true,
    );
    let query = ResourceStatisticsQuery::new("s", strings(&["r"]), vec![0, 1, -2]);
    check(
        ResourceService::statistics(&FetchResourceStatisticsParams::new(query, "100", "30m")),
        "fetch.resource.statistics",
        r#"{"dimension":"30m","resources":{"aggrTypes":[0,1,-2],"resourceIds":["r"],"subjectId":"s"},"startTime":"100"}"#,
        true,
        true,
    );
    check(
        ResourceService::command_device_resource(&CommandDeviceResourceParams::new("pos", "turn on")),
        "command.device.resource",
        r#"{"positionId":"pos","queryText":"turn on"}"#,
        true,
        false,
    );
    check(
        VoiceService::command_device_resource(&CommandDeviceResourceParams::new("pos", "turn on")),
        "command.device.resource",
        r#"{"positionId":"pos","queryText":"turn on"}"#,
        true,
        false,
    );
}

#[test]
fn push_calls() {
    let subs = vec![
        ResourceSubscription::new("s", strings(&["r1", "r2"])).with_attach("ctx"),
        ResourceSubscription::new("t", Vec::new()),
    ];
    check(
        PushService::subscribe(&SubscribeResourceParams::new(subs.clone())),
        "config.resource.subscribe",
        r#"{"resources":[{"attach":"ctx","resourceIds":["r1","r2"],"subjectId":"s"},{"resourceIds":[],"subjectId":"t"}]}"#,
        true,
        false,
    );
    check(
        PushService::unsubscribe(&UnsubscribeResourceParams::new(subs)),
        "config.resource.unsubscribe",
        r#"{"resources":[{"resourceIds":["r1","r2"],"subjectId":"s"},{"resourceIds":[],"subjectId":"t"}]}"#,
        true,
        false,
    );
    let traits = vec![TraitSubscription::new("did-1", strings(&["1.2.3"])).with_attach("ctx")];
    check(
        PushService::unsubscribe_traits(&TraitUnsubscribeParams::new(traits)),
        "spec.config.trait.unsubscribe",
        r#"{"traits":[{"codePaths":["1.2.3"],"subjectId":"did-1"}]}"#,
        true,
        false,
    );
    let params = QueryPushErrorMsgParams::new("app")
        .with_open_id("o")
        .with_start_time(-5)
        .with_end_time(9_000_000_000)
        .with_size(3);
    check(
        PushService::error_msg(&params),
        "query.push.errorMsg",
        r#"{"appId":"app","endTime":9000000000,"openId":"o","size":3,"startTime":-5}"#,
        true,
        true,
    );
}

#[test]
fn ir_calls() {
    check(IrService::categories(), "query.ir.categories", "{}", true, true);
    check(
        IrService::match_tree(&QueryIrMatchParams::new(1, 2, 3)),
        "query.ir.match",
        r#"{"brandId":3,"categoryId":2,"type":1}"#,
        true,
        true,
    );
    check(
        IrService::functions(&QueryIrFunctionsParams::default()),
        "query.ir.functions",
        "{}",
        true,
        true,
    );
    check(
        IrService::functions(&QueryIrFunctionsParams::default().with_did("d").with_controller_id(4)),
        "query.ir.functions",
        r#"{"controllerId":4,"did":"d"}"#,
        true,
        true,
    );
    let click = WriteIrClickParams::new("d")
        .with_brand_id(1)
        .with_controller_id(2)
        .with_key_id("k")
        .with_is_ac_match("1")
        .with_ac_key("P0_M0");
    check(
        IrService::click(&click),
        "write.ir.click",
        r#"{"acKey":"P0_M0","brandId":1,"controllerId":2,"did":"d","isAcMatch":"1","keyId":"k"}"#,
        true,
        false,
    );
    let codes = vec![IrCodeInfo::new("1", "power", "abc").with_freq("38000"), IrCodeInfo::new("2", "mute", "def")];
    check(
        IrService::custom_controller(&ConfigIrCustomParams::new("gw", "tv", codes).with_position_id("p")),
        "config.ir.custom",
        r#"{"irCodeInfos":[{"freq":"38000","ircode":"abc","keyId":"1","keyName":"power"},{"ircode":"def","keyId":"2","keyName":"mute"}],"name":"tv","parentDid":"gw","positionId":"p"}"#,
        true,
        false,
    );
}

#[test]
fn event_scene_and_linkage_calls() {
    let condition = EventCondition::new("trigger")
        .with_subject_id("s")
        .with_params(vec![EventConditionParam::new("id", "v").with_param_unit("u")]);
    check(
        EventService::create(&CreateEventParams::new("e", 1, vec![condition, EventCondition::new("t2")])),
        "config.event.create",
        r#"{"condition":[{"params":[{"paramId":"id","paramUnit":"u","value":"v"}],"subjectId":"s","triggerDefinitionId":"trigger"},{"triggerDefinitionId":"t2"}],"name":"e","positionId":"","relation":1}"#,
        true,
        false,
    );
    let action = SceneAction::new("s", "a", vec![SceneActionParam::new("p", "1").with_param_type("t")])
        .with_delay_time("5")
        .with_delay_time_unit("s");
    check(
        SceneService::create(&CreateSceneParams::new("scene", vec![action]).with_position_id("pos")),
        "config.scene.create",
        r#"{"action":[{"actionDefinitionId":"a","delayTime":"5","delayTimeUnit":"s","params":[{"paramId":"p","paramType":"t","value":"1"}],"subjectId":"s"}],"name":"scene","positionId":"pos"}"#,
        true,
        false,
    );
    check(
        SceneService::list_by_position_id(&QueryScenesByPositionIdParams::default()),
        "query.scene.listByPositionId",
        r#"{"pageNum":1,"pageSize":50,"positionId":""}"#,
        true,
        true,
    );
    let raw = Json::parse(br#"{"any":[1,2]}"#).unwrap();
    check(SceneService::try_run_raw(raw), "config.scene.try", r#"{"any":[1,2]}"#, true, false);
    let conditions = Json::parse(br#"{"c":1}"#).unwrap();
    let actions = Json::parse(br#"[{"a":2}]"#).unwrap();
    check(
        LinkageService::create(&CreateLinkageParams::new("l", conditions, actions)),
        "config.linkage.create",
        r#"{"actions":[{"a":2}],"conditions":{"c":1},"name":"l","positionId":""}"#,
        true,
        false,
    );
}

#[test]
fn remaining_groups() {
    check(
        OtaService::upgrade(&OtaUpgradeParams::new(strings(&["d1", "d2"]))),
        "write.ota.upgrade",
        r#"{"dids":["d1","d2"]}"#,
        true,
        false,
    );
    check(
        IftttService::trigger(&IftttModelsParams::new(strings(&["m"]))),
        "query.ifttt.trigger",
        r#"{"models":["m"]}"#,
        true,
        true,
    );
    check(
        IftttService::action(&IftttModelsParams::new(Vec::new())),
        "query.ifttt.action",
        r#"{"models":[]}"#,
        true,
        true,
    );
    for (with_token, idempotent) in [(false, false), (true, false), (false, true), (true, true)] {
        let call = RawService::call("any.intent", Json::Bool(true), with_token, idempotent);
        check(call, "any.intent", "true", with_token, idempotent);
    }
}

#[test]
fn json_is_built_member_by_member() {
    let value = ObjectBuilder::new()
        .with("z", text("t"))
        .with("n", number(-7))
        .with("d", decimal_text(42))
        .with("list", texts(&strings(&["a"])))
        .with("nums", numbers(&vec![1, -1]))
        .with("fallback", text_or_else(&None, "x"))
        .with("given", text_or_else(&Some("y".to_string()), "x"))
        .with_some("a", some_text(&Some("s".to_string())))
        .with_some("b", some_text(&None))
        .with_some("c", some_u32(Some(u32::MAX)))
        .with_some("e", some_i64(Some(i64::MIN)))
        .with_some("f", some_bool(Some(false)))
        .with_some("g", some_texts(&Some(strings(&["q"]))))
        .with_some("h", some_texts(&None))
        .with_some("i", some_u32(None))
        .with("z", Json::Null)
        .build();
    assert_eq!(
        value.to_text(),
        r#"{"a":"s","c":4294967295,"d":"42","e":-9223372036854775808,"f":false,"fallback":"x","g":["q"],"given":"y","list":["a"],"n":-7,"nums":[1,-1],"z":null}"#
    );
    assert_eq!(ObjectBuilder::new().build().to_text(), "{}");
}
