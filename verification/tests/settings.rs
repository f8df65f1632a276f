use byebyecode::api::client::{
    authorization, format_all, outcome, status_is_success, ApiClient, ApiError, Method, Reply,
};
use byebyecode::api::plan::SubscriptionData;
use byebyecode::api::settings::{
    get_api_key_from_claude_settings, get_usage_url_from_claude_settings, is_relay_base_url,
    option_is_set, resolve_api_key, resolve_subscription_url, resolve_usage_url, settings_value,
    usage_url_for_base,
};
use byebyecode::api::usage::{Code88UsageData, UsageData};
use byebyecode::api::{ApiConfig, ResponseDTO};
use byebyecode::decimal::Decimal;

fn settings(base: &str) -> String {
    let mut env = serde_json::Map::new();
    env.insert("ANTHROPIC_AUTH_TOKEN".to_string(), serde_json::Value::String("sk-1".to_string()));
    env.insert("ANTHROPIC_BASE_URL".to_string(), serde_json::Value::String(base.to_string()));
    let mut root = serde_json::Map::new();
    root.insert("env".to_string(), serde_json::Value::Object(env));
    serde_json::Value::Object(root).to_string()
}

#[test]
fn settings_value_reads_env_strings() {
    let text = "{\"env\": {\"A\": \"x\", \"B\": 5, \"C\": null}, \"D\": \"top\"}";
    assert_eq!(settings_value(text, "A"), Some("x".to_string()));
    assert_eq!(settings_value(text, "B"), None);
    assert_eq!(settings_value(text, "C"), None);
    assert_eq!(settings_value(text, "D"), None);
    assert_eq!(settings_value(text, "env"), None);
    assert_eq!(settings_value("{\"env\": \"A\"}", "A"), None);
    assert_eq!(settings_value("[{\"env\": {\"A\": \"x\"}}]", "A"), None);
    assert_eq!(settings_value("{\"env\": {\"A\": \"x\"}", "A"), None);
    assert_eq!(settings_value("", "A"), None);
    assert_eq!(settings_value("{\"env\": {\"A\": \"x\"}} trailing", "A"), None);
}

#[test]
fn api_key_needs_a_relay_base() {
    assert_eq!(
        get_api_key_from_claude_settings(&settings("https://www.88code.org/api")),
        Some("sk-1".to_string())
    );
    assert_eq!(
        get_api_key_from_claude_settings(&settings("https://www.88code.ai/api")),
        Some("sk-1".to_string())
    );
    assert_eq!(
        get_api_key_from_claude_settings(&settings("https://www.packyapi.com/v1")),
        Some("sk-1".to_string())
    );
    assert_eq!(
        get_api_key_from_claude_settings(&settings("https://m.rainapp.top")),
        Some("sk-1".to_string())
    );
    assert_eq!(get_api_key_from_claude_settings(&settings("https://api.example.com")), None);
    assert_eq!(get_api_key_from_claude_settings("{}"), None);
    assert_eq!(get_api_key_from_claude_settings("not json"), None);
    assert_eq!(
        get_api_key_from_claude_settings("{\"env\": {\"ANTHROPIC_BASE_URL\": \"https://88code.ai\"}}"),
        None
    );
    assert_eq!(
        get_api_key_from_claude_settings("{\"env\": {\"ANTHROPIC_AUTH_TOKEN\": \"sk-1\"}}"),
        None
    );
}

#[test]
fn usage_url_by_base() {
    assert_eq!(
        get_usage_url_from_claude_settings(&settings("https://www.packyapi.com/v1")),
        Some("https://www.packyapi.com/api/usage/token/".to_string())
    );
    assert_eq!(
        get_usage_url_from_claude_settings(&settings("https://www.88code.ai/api")),
        Some("https://www.88code.ai/api/usage".to_string())
    );
    assert_eq!(
        get_usage_url_from_claude_settings(&settings("https://m.rainapp.top")),
        Some("https://www.88code.ai/api/usage".to_string())
    );
    assert_eq!(
        get_usage_url_from_claude_settings(&settings("https://www.88code.org/api")),
        Some("https://www.88code.org/api/usage".to_string())
    );
    assert_eq!(get_usage_url_from_claude_settings(&settings("https://api.example.com")), None);
    assert_eq!(get_usage_url_from_claude_settings("{\"env\": {}}"), None);
    assert_eq!(
        usage_url_for_base("packyapi.com and 88code.org"),
        Some("https://www.packyapi.com/api/usage/token/".to_string())
    );
    assert!(is_relay_base_url("x88code.orgx"));
    assert!(!is_relay_base_url("88code"));
}

#[test]
fn options_come_before_settings() {
    let text = settings("https://www.packyapi.com/v1");
    assert!(option_is_set(Some("a")));
    assert!(!option_is_set(Some("")));
    assert!(!option_is_set(None));
    assert_eq!(resolve_usage_url(Some("own"), Some("shared"), Some(&text)), "own");
    assert_eq!(resolve_usage_url(Some(""), Some("shared"), Some(&text)), "shared");
    assert_eq!(
        resolve_usage_url(None, Some(""), Some(&text)),
        "https://www.packyapi.com/api/usage/token/"
    );
    assert_eq!(resolve_usage_url(None, None, Some("{}")), "https://www.88code.ai/api/usage");
    assert_eq!(resolve_usage_url(None, None, None), "https://www.88code.ai/api/usage");
    assert_eq!(resolve_api_key(Some("own"), Some(&text)), Some("own".to_string()));
    assert_eq!(resolve_api_key(Some(""), Some(&text)), Some("sk-1".to_string()));
    assert_eq!(resolve_api_key(None, None), None);
    assert_eq!(resolve_api_key(Some(""), Some("{}")), None);
    assert_eq!(resolve_subscription_url(Some("own")), "own");
    assert_eq!(resolve_subscription_url(Some("")), "");
    assert_eq!(resolve_subscription_url(None), "https://www.88code.ai/api/subscription");
}

#[test]
fn api_config_defaults() {
    let config = ApiConfig::default();
    assert!(!config.enabled);
    assert_eq!(config.api_key, "");
    assert_eq!(config.usage_url, "https://www.88code.ai/api/usage");
    assert_eq!(config.subscription_url, "https://www.88code.ai/api/subscription");
    assert!(!config.is_packyapi());
    let packy = ApiConfig {
        usage_url: "https://www.packyapi.com/api/usage/token/".to_string(),
        ..ApiConfig::default()
    };
    assert!(packy.is_packyapi());
    let envelope = ResponseDTO { code: 0, ok: true, msg: String::new(), data: 5u8 };
    assert_eq!(envelope.data, 5);
}

fn client(usage_url: &str) -> ApiClient {
    let config = ApiConfig {
        enabled: true,
        api_key: "sk-1".to_string(),
        usage_url: usage_url.to_string(),
        subscription_url: "https://www.88code.ai/api/subscription".to_string(),
    };
    ApiClient::new(config).unwrap()
}

fn plain_usage() -> UsageData {
    UsageData::Code88(Code88UsageData {
        total_tokens: 0,
        credit_limit: Decimal { micros: 20_000_000 },
        current_credits: Decimal { micros: 15_350_000 },
        subscription_entity_list: vec![],
        used_tokens: 0,
        remaining_tokens: 0,
        percentage_used: Decimal { micros: 0 },
    })
}

#[test]
fn no_client_without_a_key() {
    match ApiClient::new(ApiConfig::default()) {
        Err(e) => assert_eq!(e, ApiError::CredentialMissing),
        Ok(c) => panic!("unexpected {:?}", c),
    }
    assert_eq!(client("https://www.88code.ai/api/usage").config.api_key, "sk-1");
}

#[test]
fn requests_by_provider() {
    let c = client("https://www.88code.ai/api/usage");
    let r = c.usage_request(Some("opus"));
    assert_eq!(r.method, Method::Post);
    assert_eq!(r.url, "https://www.88code.ai/api/usage");
    assert_eq!(r.authorization, "Bearer sk-1");
    assert_eq!(r.model, Some("opus".to_string()));
    let r = c.usage_request(None);
    assert_eq!(r.method, Method::Post);
    assert_eq!(r.model, None);
    let r = c.subscriptions_request(Some("opus"));
    assert_eq!(r.method, Method::Post);
    assert_eq!(r.url, "https://www.88code.ai/api/subscription");
    assert_eq!(r.authorization, "Bearer sk-1");
    assert_eq!(r.model, Some("opus".to_string()));
    let packy = client("https://www.packyapi.com/api/usage/token/");
    let r = packy.usage_request(Some("opus"));
    assert_eq!(r.method, Method::Get);
    assert_eq!(r.url, "https://www.packyapi.com/api/usage/token/");
    assert_eq!(r.authorization, "Bearer sk-1");
    assert_eq!(r.model, None);
    assert_eq!(authorization(""), "Bearer ");
}

#[test]
fn replies_that_give_no_record() {
    let c = client("https://www.88code.ai/api/usage");
    assert_eq!(c.get_usage(Reply::Failed).unwrap_err(), ApiError::TransportFailure);
    assert_eq!(
        c.get_usage(Reply::Answer { status: 500, record: Some(plain_usage()) }).unwrap_err(),
        ApiError::UnsuccessfulStatus(500)
    );
    assert_eq!(
        c.get_usage(Reply::Answer { status: 199, record: None }).unwrap_err(),
        ApiError::UnsuccessfulStatus(199)
    );
    assert_eq!(
        c.get_usage(Reply::Answer { status: 300, record: None }).unwrap_err(),
        ApiError::UnsuccessfulStatus(300)
    );
    assert_eq!(
        c.get_usage(Reply::Answer { status: 200, record: None }).unwrap_err(),
        ApiError::ShapeMismatch
    );
    assert_eq!(c.get_subscriptions(Reply::Failed).unwrap_err(), ApiError::TransportFailure);
    assert_eq!(
        c.get_subscriptions(Reply::Answer { status: 404, record: Some(vec![]) }).unwrap_err(),
        ApiError::UnsuccessfulStatus(404)
    );
    assert_eq!(
        c.get_subscriptions(Reply::Answer { status: 204, record: None }).unwrap_err(),
        ApiError::ShapeMismatch
    );
    assert_eq!(c.check_token_limit(Reply::Failed), Err(ApiError::TransportFailure));
    assert_eq!(outcome(Reply::Answer { status: 299, record: Some(7u8) }), Ok(7u8));
    assert_eq!(outcome::<u8>(Reply::Failed), Err(ApiError::TransportFailure));
    assert!(status_is_success(200) && status_is_success(299));
    assert!(!status_is_success(199) && !status_is_success(300));
}

#[test]
fn error_texts() {
    assert_eq!(ApiError::CredentialMissing.message(), "API key is not configured");
    assert_eq!(ApiError::TransportFailure.message(), "API request could not be sent");
    assert_eq!(ApiError::UnsuccessfulStatus(503).message(), "API request failed: 503");
    assert_eq!(ApiError::UnsuccessfulStatus(0).message(), "API request failed: 0");
    assert_eq!(ApiError::ShapeMismatch.message(), "API JSON parse error");
}

#[test]
fn answers_are_normalised() {
    let c = client("https://www.88code.ai/api/usage");
    let usage = c.get_usage(Reply::Answer { status: 200, record: Some(plain_usage()) }).unwrap();
    assert_eq!(usage.get_used_tokens(), 465);
    assert_eq!(usage.get_remaining_tokens(), 1535);
    assert_eq!(
        c.check_token_limit(Reply::Answer { status: 200, record: Some(plain_usage()) }),
        Ok(false)
    );
    let mut spent = plain_usage();
    if let UsageData::Code88(data) = &mut spent {
        data.current_credits = Decimal { micros: 4_999 };
    }
    assert_eq!(c.check_token_limit(Reply::Answer { status: 201, record: Some(spent) }), Ok(true));
    let plan = SubscriptionData {
        id: 1,
        plan_name: "PLUS".to_string(),
        cost: Decimal { micros: 198_000_000 },
        expires_at: None,
        status: "active".to_string(),
        remaining_days: 1,
        billing_cycle_desc: "月".to_string(),
        reset_times: 0,
        is_active: true,
        current_credits: Decimal { micros: 0 },
        credit_limit: Decimal { micros: 0 },
        subscription_plan: None,
        plan_price: String::new(),
    };
    let mut second = plan.clone();
    second.id = 2;
    second.cost = Decimal { micros: 500_000 };
    let plans = c
        .get_subscriptions(Reply::Answer { status: 200, record: Some(vec![plan.clone(), second]) })
        .unwrap();
    assert_eq!(plans.len(), 2);
    assert_eq!(plans[0].plan_price, "¥198/月");
    assert_eq!(plans[1].plan_price, "¥0.5/月");
    assert_eq!(plans[1].id, 2);
    assert_eq!(format_all(vec![plan])[0].plan_price, "¥198/月");
    assert!(format_all(vec![]).is_empty());
}
