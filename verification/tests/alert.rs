use tortuga::alert::{alert_text, plan_alert, telegram_send_url, TELEGRAM_API_BASE};
use tortuga::config::{EndpointConfig, GlobalConfig};
use tortuga::state::Status;

fn make_ep(webhook_url: Option<String>, telegram_chat_id: Option<String>) -> EndpointConfig {
    EndpointConfig {
        name: "test-svc".to_string(),
        url: "https://example.com/health".to_string(),
        interval_secs: 30,
        expected_status: None,
        timeout_secs: 10,
        webhook_url,
        telegram_chat_id,
    }
}

fn make_global(
    webhook_url: Option<String>,
    telegram_bot_token: Option<String>,
    telegram_chat_id: Option<String>,
) -> GlobalConfig {
    GlobalConfig {
        state_file: "state.json".to_string(),
        webhook_url,
        telegram_bot_token,
        telegram_chat_id,
    }
}

#[test]
fn alert_text_names_endpoint_and_status() {
    let ep = make_ep(None, None);
    assert_eq!(alert_text(&ep, &Status::Down), "[test-svc] status is now DOWN");
    assert_eq!(alert_text(&ep, &Status::Up), "[test-svc] status is now UP");
    assert_eq!(alert_text(&ep, &Status::Unknown), "[test-svc] status is now ---");
}

#[test]
fn plan_uses_endpoint_webhook_and_alert_text() {
    let ep = make_ep(Some("http://hooks.local/hook".to_string()), None);
    let global = make_global(None, None, None);
    let plan = plan_alert(&ep, &global, &Status::Down, "");
    assert_eq!(plan.text, "[test-svc] status is now DOWN");
    assert_eq!(plan.webhook_url.as_deref(), Some("http://hooks.local/hook"));
    assert!(plan.telegram.is_none());
}

#[test]
fn plan_prefers_endpoint_webhook_over_global() {
    let ep = make_ep(Some("http://hooks.local/ep-hook".to_string()), None);
    let global = make_global(Some("http://127.0.0.1:1/not-called".to_string()), None, None);
    let plan = plan_alert(&ep, &global, &Status::Up, "");
    assert_eq!(plan.webhook_url.as_deref(), Some("http://hooks.local/ep-hook"));
}

#[test]
fn plan_falls_back_to_global_webhook() {
    let ep = make_ep(None, None);
    let global = make_global(Some("http://hooks.local/global-hook".to_string()), None, None);
    let plan = plan_alert(&ep, &global, &Status::Down, "");
    assert_eq!(plan.webhook_url.as_deref(), Some("http://hooks.local/global-hook"));
}

#[test]
fn plan_addresses_telegram_bot_api() {
    let ep = make_ep(None, None);
    let global = make_global(None, Some("my-token".to_string()), Some("chat123".to_string()));
    let plan = plan_alert(&ep, &global, &Status::Up, "http://127.0.0.1:9999");
    let tg = plan.telegram.expect("token and chat are set");
    assert_eq!(tg.url, "http://127.0.0.1:9999/botmy-token/sendMessage");
    assert_eq!(tg.chat_id, "chat123");
    assert!(plan.webhook_url.is_none());
}

#[test]
fn plan_prefers_endpoint_telegram_chat() {
    let ep = make_ep(None, Some("ep-chat".to_string()));
    let global = make_global(None, Some("shared-token".to_string()), Some("global-chat".to_string()));
    let plan = plan_alert(&ep, &global, &Status::Down, "http://127.0.0.1:9999");
    let tg = plan.telegram.expect("token and chat are set");
    assert_eq!(tg.url, "http://127.0.0.1:9999/botshared-token/sendMessage");
    assert_eq!(tg.chat_id, "ep-chat");
}

#[test]
fn plan_without_alert_config_sends_nothing() {
    let ep = make_ep(None, None);
    let global = make_global(None, None, None);
    let plan = plan_alert(&ep, &global, &Status::Down, "");
    assert!(plan.webhook_url.is_none());
    assert!(plan.telegram.is_none());
}

#[test]
fn telegram_needs_both_token_and_chat() {
    let ep = make_ep(None, Some("ep-chat".to_string()));
    let global = make_global(None, None, Some("global-chat".to_string()));
    assert!(plan_alert(&ep, &global, &Status::Down, "").telegram.is_none());
    let ep = make_ep(None, None);
    let global = make_global(None, Some("token".to_string()), None);
    assert!(plan_alert(&ep, &global, &Status::Down, "").telegram.is_none());
}

#[test]
fn telegram_url_on_the_public_api() {
    assert_eq!(
        telegram_send_url(TELEGRAM_API_BASE, "123:ABC"),
        "https://api.telegram.org/bot123:ABC/sendMessage"
    );
}
