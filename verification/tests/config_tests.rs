use wintrack::config::{Config, ScheduledMessage, SessionMessageConfig, WebhookConfig};
use wintrack::store::ConfigStore;

#[test]
fn defaults_match_the_documented_fallback() {
    let c = Config::default();
    assert_eq!(c.webhook.url, "");
    assert_eq!(c.webhook.body_template, "{\"content\": \"{{MARKDOWN}}\"}");
    assert_eq!(c.webhook.content_type, "application/json");
    assert!(c.session_messages.on_boot);
    assert!(c.session_messages.on_shutdown);
    assert!(c.scheduled_messages.is_empty());
}

fn sample_config() -> Config {
    Config {
        webhook: WebhookConfig {
            url: "https://example.invalid/hook".to_string(),
            body_template: "{\"m\": \"{{MARKDOWN}}\"}".to_string(),
            content_type: "text/json".to_string(),
        },
        session_messages: SessionMessageConfig { on_boot: false, on_shutdown: true },
        scheduled_messages: vec![
            ScheduledMessage { interval_minutes: 30, enabled: true },
            ScheduledMessage { interval_minutes: 90, enabled: false },
        ],
    }
}

fn assert_deep_equal(a: &Config, b: &Config) {
    assert_eq!(a.webhook.url, b.webhook.url);
    assert_eq!(a.webhook.body_template, b.webhook.body_template);
    assert_eq!(a.webhook.content_type, b.webhook.content_type);
    assert_eq!(a.session_messages, b.session_messages);
    assert_eq!(a.scheduled_messages, b.scheduled_messages);
}

#[test]
fn replace_then_read_round_trips() {
    let mut store = ConfigStore::new(Config::default());
    let written = sample_config();
    store.replace(written.duplicate());
    let got = store.read();
    assert_deep_equal(&got, &written);
}

#[test]
fn read_hands_out_an_independent_snapshot() {
    let mut store = ConfigStore::new(sample_config());
    let mut snapshot = store.read();
    snapshot.webhook.url = "changed".to_string();
    snapshot.scheduled_messages.clear();
    let again = store.read();
    assert_deep_equal(&again, &sample_config());
}

#[test]
fn duplicate_is_deep_equal() {
    let original = sample_config();
    let copy = original.duplicate();
    assert_deep_equal(&copy, &original);
}

#[test]
fn notification_gates_need_both_switch_and_endpoint() {
    let mut c = Config::default();
    assert!(!c.boot_notification_due());
    assert!(!c.shutdown_notification_due());
    c.webhook.url = "https://example.invalid/hook".to_string();
    assert!(c.boot_notification_due());
    assert!(c.shutdown_notification_due());
    c.session_messages.on_boot = false;
    assert!(!c.boot_notification_due());
    assert!(c.shutdown_notification_due());
}
