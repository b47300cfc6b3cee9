use wintrack::config::{Config, WebhookConfig};
use wintrack::dispatch::{prepare_webhook, interpret_response, DispatchError};

#[test]
fn empty_url_is_success_with_nothing_to_send() {
    let cfg = WebhookConfig::default();
    assert!(cfg.url.is_empty());
    match prepare_webhook(&cfg, "any message") {
        Ok(None) => {}
        _ => panic!("a blank endpoint must succeed without a request"),
    }
}

#[test]
fn invalid_json_after_substitution_is_invalid_body() {
    let cfg = WebhookConfig {
        url: "https://example.invalid/hook".to_string(),
        body_template: "{{MARKDOWN}}".to_string(),
        content_type: "application/json".to_string(),
    };
    match prepare_webhook(&cfg, "not json at all") {
        Err(DispatchError::InvalidBody) => {}
        _ => panic!("an unparsable body must be rejected before any network call"),
    }
}

#[test]
fn json_that_is_not_an_object_is_invalid_body() {
    // Valid JSON documents that are not objects are rejected too: the body
    // must parse as a JSON object.
    let mut cfg = WebhookConfig {
        url: "https://example.invalid/hook".to_string(),
        body_template: "{{MARKDOWN}}".to_string(),
        content_type: "application/json".to_string(),
    };
    assert!(matches!(prepare_webhook(&cfg, "42"), Err(DispatchError::InvalidBody)));
    assert!(matches!(prepare_webhook(&cfg, "\"text\""), Err(DispatchError::InvalidBody)));
    cfg.body_template = "[{{MARKDOWN}}]".to_string();
    assert!(matches!(prepare_webhook(&cfg, "1, 2"), Err(DispatchError::InvalidBody)));
}

#[test]
fn valid_body_yields_the_request_to_post() {
    let mut cfg = WebhookConfig::default();
    cfg.url = "https://example.invalid/hook".to_string();
    let req = prepare_webhook(&cfg, "hello").unwrap().unwrap();
    assert_eq!(req.url, "https://example.invalid/hook");
    assert_eq!(req.content_type, "application/json");
    // The request carries exactly the substituted text, and its parsed
    // form, which the sender re-serializes canonically.
    assert_eq!(req.body_text, "{\"content\": \"hello\"}");
    let body = serde_json::to_string(&req.body).unwrap();
    assert_eq!(body, "{\"content\":\"hello\"}");
}

#[test]
fn template_text_reaches_the_parsed_body() {
    let cfg = WebhookConfig {
        url: "https://example.invalid/hook".to_string(),
        body_template: "{\"text\": \"{{MARKDOWN}}\", \"n\": 2}".to_string(),
        content_type: "text/json".to_string(),
    };
    let req = prepare_webhook(&cfg, "line").unwrap().unwrap();
    assert_eq!(req.body.get("text").and_then(|v| v.as_str()), Some("line"));
    assert_eq!(req.body.get("n").and_then(|v| v.as_i64()), Some(2));
    assert_eq!(req.content_type, "text/json");
}

#[test]
fn success_statuses_are_delivery() {
    assert!(interpret_response(200, String::new()).is_ok());
    assert!(interpret_response(204, String::new()).is_ok());
    assert!(interpret_response(299, String::new()).is_ok());
}

#[test]
fn non_success_statuses_are_rejections_with_the_answer() {
    match interpret_response(404, "missing".to_string()) {
        Err(DispatchError::RemoteRejected { status, body_text }) => {
            assert_eq!(status, 404);
            assert_eq!(body_text, "missing");
        }
        _ => panic!("a 404 must be a rejection"),
    }
    assert!(interpret_response(199, String::new()).is_err());
    assert!(interpret_response(300, String::new()).is_err());
    assert!(interpret_response(500, String::new()).is_err());
}

#[test]
fn boot_scenario_posts_substituted_message_with_json_content_type() {
    // Defaults, an endpoint configured, boot message enabled: process start
    // owes exactly one POST with the composed text in the body and the
    // configured JSON content type.
    let mut cfg = Config::default();
    cfg.webhook.url = "https://example.invalid/hook".to_string();
    assert!(cfg.session_messages.on_boot);
    assert!(cfg.boot_notification_due());

    // The message carries its line breaks as escape sequences, so the
    // substituted default template is a valid JSON object and the POST is
    // prepared: to the endpoint, with the configured JSON content type,
    // the boot message substituted into the template.
    let message = wintrack::compose::compose_boot("2024-05-06 07:08:09");
    let req = prepare_webhook(&cfg.webhook, &message).unwrap().unwrap();
    assert_eq!(req.content_type, "application/json");
    assert_eq!(req.url, "https://example.invalid/hook");
    assert_eq!(req.body_text, format!("{{\"content\": \"{}\"}}", message));
    assert!(req.body_text.contains(&message));
    // The endpoint, parsing the body, reads the message with its line
    // breaks realized.
    let sent = req.body.get("content").and_then(|v| v.as_str()).unwrap();
    assert_eq!(sent, message.replace("\\n", "\n"));
    assert!(sent.contains("2024-05-06 07:08:09"));

    // With no endpoint configured, nothing is owed at boot.
    let blank = Config::default();
    assert!(!blank.boot_notification_due());
}
