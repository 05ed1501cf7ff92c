use zeroclaw::agent::channels::{
    channel_kind, channel_not_configured, plan_delivery, send_report, telegram_send_url,
    unknown_channel_type, ChannelKind, Delivery,
};
use zeroclaw::agent::records::ChannelConfig;

fn config(kind: &str) -> ChannelConfig {
    ChannelConfig {
        name: "main".to_string(),
        channel_type: kind.to_string(),
        credential: "123:abc".to_string(),
        api_base_url: "https://api.telegram.org".to_string(),
    }
}

#[test]
fn channel_kinds_by_type() {
    assert_eq!(channel_kind("telegram"), Some(ChannelKind::Telegram));
    assert_eq!(channel_kind("discord"), Some(ChannelKind::Discord));
    assert_eq!(channel_kind("slack"), Some(ChannelKind::Slack));
    assert_eq!(channel_kind("webhook"), Some(ChannelKind::Webhook));
    assert_eq!(channel_kind("Telegram"), None);
    assert_eq!(channel_kind("irc"), None);
}

#[test]
fn configured_http_channel_is_sent_directly() {
    assert_eq!(plan_delivery(&Some(config("telegram"))), Delivery::Send(ChannelKind::Telegram));
    assert_eq!(plan_delivery(&Some(config("slack"))), Delivery::Send(ChannelKind::Slack));
}

#[test]
fn unconfigured_channel_is_queued() {
    assert_eq!(plan_delivery(&None), Delivery::Queue);
}

#[test]
fn unknown_channel_type_is_queued() {
    assert_eq!(plan_delivery(&Some(config("irc"))), Delivery::Queue);
}

#[test]
fn channel_messages() {
    assert_eq!(channel_not_configured("cli"), "Channel 'cli' not configured");
    assert_eq!(unknown_channel_type("irc"), "Unknown channel type: irc");
    assert_eq!(send_report(&Ok(())), "sent");
    assert_eq!(send_report(&Err("HTTP 403".to_string())), "send failed: HTTP 403");
}

#[test]
fn telegram_url_holds_the_token() {
    assert_eq!(
        telegram_send_url(&config("telegram")),
        "https://api.telegram.org/bot123:abc/sendMessage"
    );
}
