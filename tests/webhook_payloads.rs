use phantom_ci::webhook::{
    build_custom_payload, build_slack_payload, notification_webhooks, Webhook, WebhookConfig,
    WebhookType,
};
use serde_json::Value;

#[test]
fn test_build_payload_with_title() {
    let out = build_slack_payload("hello", Some("title"));
    let val: Value = serde_json::from_str(&out).expect("valid json");
    assert_eq!(val["text"], "*title*\nhello");
}

#[test]
fn test_build_payload_without_title() {
    let out = build_slack_payload("hello", None);
    let val: Value = serde_json::from_str(&out).expect("valid json");
    assert_eq!(val["text"], "hello");
}

#[test]
fn custom_payload_has_title_and_message() {
    let out = build_custom_payload("repo", "it \"broke\"");
    let val: Value = serde_json::from_str(&out).expect("valid json");
    assert_eq!(val["title"], "repo");
    assert_eq!(val["message"], "it \"broke\"");
}

#[test]
fn json_body_by_sink_kind() {
    let slack = Webhook::new(WebhookConfig::new("t", "u", WebhookType::Slack, "m"));
    let v: Value = serde_json::from_str(&slack.json_body().unwrap()).unwrap();
    assert_eq!(v["text"], "*t*\nm");
    let discord = Webhook::new(WebhookConfig::new("t", "u", WebhookType::Discord, "m"));
    assert!(discord.json_body().is_none());
}

#[test]
fn webhooks_go_to_each_configured_sink() {
    let hooks = notification_webhooks(
        "git@host:me/project",
        "msg",
        Some("d-url".to_string()),
        None,
        Some("c-url".to_string()),
    );
    assert_eq!(hooks.len(), 2);
    assert_eq!(hooks[0].webhook_config.webhook_type, WebhookType::Discord);
    assert_eq!(hooks[0].webhook_config.url, "d-url");
    assert_eq!(hooks[0].webhook_config.title, "project");
    assert_eq!(hooks[1].webhook_config.webhook_type, WebhookType::Custom);
    assert_eq!(hooks[1].webhook_config.message, "msg");
    assert!(notification_webhooks("p", "m", None, None, None).is_empty());
}
