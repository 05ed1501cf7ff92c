//! Outbound channel delivery: which channel sender handles a message, what the sender
//! reports, and when a message is queued for a worker instead.
use vstd::prelude::*;
use crate::agent::records::ChannelConfig;
use crate::text::{push_str, str_eq, string_of};

verus! {

/// The HTTP channels the runtime sends to directly.
#[derive(Debug, Clone, Copy, PartialEq, Eq, Structural)]
pub enum ChannelKind {
    Telegram,
    Discord,
    Slack,
    Webhook,
}

/// The channel kind a configured channel type names, if the runtime sends to it.
pub open spec fn channel_kind_named(channel_type: Seq<char>) -> Option<ChannelKind> {
    if channel_type == "telegram"@ {
        Some(ChannelKind::Telegram)
    } else if channel_type == "discord"@ {
        Some(ChannelKind::Discord)
    } else if channel_type == "slack"@ {
        Some(ChannelKind::Slack)
    } else if channel_type == "webhook"@ {
        Some(ChannelKind::Webhook)
    } else {
        None
    }
}

/// Picks the channel kind of a configured channel type.
pub fn channel_kind(channel_type: &str) -> (r: Option<ChannelKind>)
    ensures
        r == channel_kind_named(channel_type@),
{
    if str_eq(channel_type, "telegram") {
        Some(ChannelKind::Telegram)
    } else if str_eq(channel_type, "discord") {
        Some(ChannelKind::Discord)
    } else if str_eq(channel_type, "slack") {
        Some(ChannelKind::Slack)
    } else if str_eq(channel_type, "webhook") {
        Some(ChannelKind::Webhook)
    } else {
        None
    }
}

/// The reply to a send request for a channel that is not configured.
pub fn channel_not_configured(channel_name: &str) -> (r: String)
    ensures
        r@ == "Channel '"@ + channel_name@ + "' not configured"@,
{
    let mut s = string_of("Channel '");
    push_str(&mut s, channel_name);
    push_str(&mut s, "' not configured");
    s
}

/// The error of a send request for a channel type the runtime cannot send to.
pub fn unknown_channel_type(channel_type: &str) -> (r: String)
    ensures
        r@ == "Unknown channel type: "@ + channel_type@,
{
    let mut s = string_of("Unknown channel type: ");
    push_str(&mut s, channel_type);
    s
}

/// The reply to a send request: `sent`, or the reason the send failed.
pub fn send_report(outcome: &Result<(), String>) -> (r: String)
    ensures
        outcome is Ok ==> r@ == "sent"@,
        outcome matches Err(e) ==> r@ == "send failed: "@ + e@,
{
    match outcome {
        Ok(()) => string_of("sent"),
        Err(e) => {
            let mut s = string_of("send failed: ");
            push_str(&mut s, e.as_str());
            s
        },
    }
}

/// The Telegram Bot API endpoint for sending a message.
pub fn telegram_send_url(config: &ChannelConfig) -> (r: String)
    ensures
        r@ == config.api_base_url@ + "/bot"@ + config.credential@ + "/sendMessage"@,
{
    let mut s = config.api_base_url.clone();
    push_str(&mut s, "/bot");
    push_str(&mut s, config.credential.as_str());
    push_str(&mut s, "/sendMessage");
    s
}

/// How a conversation's final response is delivered.
#[derive(Debug, Clone, Copy, PartialEq, Eq, Structural)]
pub enum Delivery {
    /// Send it directly over HTTP, through the channel of this kind; queue it if that
    /// fails.
    Send(ChannelKind),
    /// Queue it as a pending send for a worker.
    Queue,
}

/// How a response is delivered: directly through a configured HTTP channel, otherwise
/// (no configuration, or a channel type the runtime cannot send to) queued for a worker.
pub open spec fn delivery_for(config: Option<ChannelConfig>) -> Delivery {
    match config {
        None => Delivery::Queue,
        Some(c) => match channel_kind_named(c.channel_type@) {
            Some(k) => Delivery::Send(k),
            None => Delivery::Queue,
        },
    }
}

/// Decides how a response is delivered.
pub fn plan_delivery(config: &Option<ChannelConfig>) -> (r: Delivery)
    ensures
        r == delivery_for(*config),
{
    match config {
        None => Delivery::Queue,
        Some(c) => match channel_kind(c.channel_type.as_str()) {
            Some(k) => Delivery::Send(k),
            None => Delivery::Queue,
        },
    }
}

} // verus!
