//! Application configuration: the webhook endpoint, session (boot/shutdown)
//! message switches, and the list of scheduled messages.

use vstd::prelude::*;

verus! {

/// Webhook endpoint settings.
pub struct WebhookConfig {
    /// Webhook URL; empty means notifications are disabled.
    pub url: String,
    /// Request body template; the marker is replaced with the message text.
    pub body_template: String,
    /// Content-Type header value.
    pub content_type: String,
}

/// Mathematical model of [`WebhookConfig`].
pub struct WebhookConfigView {
    pub url: Seq<char>,
    pub body_template: Seq<char>,
    pub content_type: Seq<char>,
}

impl View for WebhookConfig {
    type V = WebhookConfigView;

    open spec fn view(&self) -> WebhookConfigView {
        WebhookConfigView {
            url: self.url@,
            body_template: self.body_template@,
            content_type: self.content_type@,
        }
    }
}

/// Switches for the messages tied to the process lifecycle.
#[derive(Clone, Copy, PartialEq, Eq, Structural, Debug)]
pub struct SessionMessageConfig {
    /// Send a message when the process starts.
    pub on_boot: bool,
    /// Send a message when the process is asked to exit.
    pub on_shutdown: bool,
}

/// One recurring message schedule entry.
#[derive(Clone, Copy, PartialEq, Eq, Structural, Debug)]
pub struct ScheduledMessage {
    /// Interval between sends, in minutes (60 = hourly).
    pub interval_minutes: u64,
    /// Whether this entry is active.
    pub enabled: bool,
}

/// The whole application configuration.
pub struct Config {
    pub webhook: WebhookConfig,
    pub session_messages: SessionMessageConfig,
    pub scheduled_messages: Vec<ScheduledMessage>,
}

/// Mathematical model of [`Config`].
pub struct ConfigView {
    pub webhook: WebhookConfigView,
    pub session_messages: SessionMessageConfig,
    pub scheduled_messages: Seq<ScheduledMessage>,
}

impl View for Config {
    type V = ConfigView;

    open spec fn view(&self) -> ConfigView {
        ConfigView {
            webhook: self.webhook@,
            session_messages: self.session_messages,
            scheduled_messages: self.scheduled_messages@,
        }
    }
}

impl Default for WebhookConfig {
    /// Defaults: no URL (disabled), a one-field JSON object template holding
    /// the marker, and a JSON content type.
    fn default() -> (r: Self)
        ensures
            r.url@ == Seq::<char>::empty(),
            r.body_template@ == "{\"content\": \"{{MARKDOWN}}\"}"@,
            r.content_type@ == "application/json"@,
    {
        WebhookConfig {
            url: String::new(),
            body_template: "{\"content\": \"{{MARKDOWN}}\"}".to_owned(),
            content_type: "application/json".to_owned(),
        }
    }
}

impl Default for SessionMessageConfig {
    /// Defaults: both session messages enabled.
    fn default() -> (r: Self)
        ensures
            r.on_boot,
            r.on_shutdown,
    {
        SessionMessageConfig { on_boot: true, on_shutdown: true }
    }
}

impl Default for Config {
    /// Defaults: default endpoint, default session switches, empty schedule.
    fn default() -> (r: Self)
        ensures
            r@.webhook.url == Seq::<char>::empty(),
            r@.webhook.body_template == "{\"content\": \"{{MARKDOWN}}\"}"@,
            r@.webhook.content_type == "application/json"@,
            r@.session_messages.on_boot,
            r@.session_messages.on_shutdown,
            r@.scheduled_messages == Seq::<ScheduledMessage>::empty(),
    {
        Config {
            webhook: WebhookConfig::default(),
            session_messages: SessionMessageConfig::default(),
            scheduled_messages: Vec::new(),
        }
    }
}

impl WebhookConfig {
    /// A field-by-field copy, so that a caller can take a snapshot.
    pub fn duplicate(&self) -> (r: Self)
        ensures
            r@ == self@,
    {
        WebhookConfig {
            url: self.url.clone(),
            body_template: self.body_template.clone(),
            content_type: self.content_type.clone(),
        }
    }
}

impl Config {
    /// Whether a boot notification is owed at process start: the boot
    /// message is enabled and an endpoint is configured.
    pub fn boot_notification_due(&self) -> (b: bool)
        ensures
            b == (self@.session_messages.on_boot && self@.webhook.url.len() > 0),
    {
        self.session_messages.on_boot && !self.webhook.url.as_str().is_empty()
    }

    /// Whether a shutdown notification is owed at exit: the shutdown
    /// message is enabled and an endpoint is configured.
    pub fn shutdown_notification_due(&self) -> (b: bool)
        ensures
            b == (self@.session_messages.on_shutdown && self@.webhook.url.len() > 0),
    {
        self.session_messages.on_shutdown && !self.webhook.url.as_str().is_empty()
    }

    /// A deep copy of the configuration value.
    pub fn duplicate(&self) -> (r: Self)
        ensures
            r@ == self@,
    {
        let mut scheduled: Vec<ScheduledMessage> = Vec::new();
        let mut i: usize = 0;
        while i < self.scheduled_messages.len()
            invariant
                i <= self.scheduled_messages.len(),
                scheduled@ == self.scheduled_messages@.take(i as int),
            decreases self.scheduled_messages.len() - i,
        {
            scheduled.push(self.scheduled_messages[i]);
            proof {
                assert(scheduled@ =~= self.scheduled_messages@.take(i + 1));
            }
            i = i + 1;
        }
        proof {
            assert(scheduled@ =~= self.scheduled_messages@);
        }
        let r = Config {
            webhook: self.webhook.duplicate(),
            session_messages: self.session_messages,
            scheduled_messages: scheduled,
        };
        r
    }
}

} // verus!
