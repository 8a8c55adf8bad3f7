//! Where and what to send when an endpoint changes status.
use vstd::prelude::*;

use crate::config::{EndpointConfig, GlobalConfig};
use crate::state::{Status, status_text};

verus! {

/// The Telegram Bot API server that alerts are sent to.
pub const TELEGRAM_API_BASE: &'static str = "https://api.telegram.org";

/// The views of an optional string.
pub open spec fn opt_view(o: Option<String>) -> Option<Seq<char>> {
    match o {
        Some(s) => Some(s@),
        None => None,
    }
}

/// The first of two optional settings that is present.
pub open spec fn first_set(preferred: Option<Seq<char>>, fallback: Option<Seq<char>>) -> Option<Seq<char>> {
    if preferred is Some {
        preferred
    } else {
        fallback
    }
}

/// The text of an alert: `[name] status is now LABEL`.
pub open spec fn alert_message(name: Seq<char>, status: Status) -> Seq<char> {
    "["@ + name + "] status is now "@ + status_text(status)
}

/// The Bot API address that sends a message with bot `token`.
pub open spec fn telegram_url_text(base: Seq<char>, token: Seq<char>) -> Seq<char> {
    base + "/bot"@ + token + "/sendMessage"@
}

/// Builds the text of the alert for `ep` entering `new_status`.
pub fn alert_text(ep: &EndpointConfig, new_status: &Status) -> (t: String)
    ensures
        t@ == alert_message(ep.name@, *new_status),
{
    let mut t = String::from_str("[");
    t.append(ep.name.as_str());
    t.append("] status is now ");
    t.append(new_status.label());
    t
}

/// The Bot API address, under `base`, that sends a message with bot `token`.
pub fn telegram_send_url(base: &str, token: &str) -> (u: String)
    ensures
        u@ == telegram_url_text(base@, token@),
{
    let mut u = String::from_str(base);
    u.append("/bot");
    u.append(token);
    u.append("/sendMessage");
    u
}

/// A Telegram message to send: the address to post to and the chat.
#[derive(Debug, Clone)]
pub struct TelegramAlert {
    pub url: String,
    pub chat_id: String,
}

/// Everything needed to deliver one alert: its text, the webhook to post it
/// to (if any) and the Telegram message to send (if any).
#[derive(Debug, Clone)]
pub struct AlertPlan {
    pub text: String,
    pub webhook_url: Option<String>,
    pub telegram: Option<TelegramAlert>,
}

fn copy_setting(o: &Option<String>) -> (r: Option<String>)
    ensures
        opt_view(r) == opt_view(*o),
{
    match o {
        Some(s) => Some(s.clone()),
        None => None,
    }
}

fn first_setting(preferred: &Option<String>, fallback: &Option<String>) -> (r: Option<String>)
    ensures
        opt_view(r) == first_set(opt_view(*preferred), opt_view(*fallback)),
{
    if preferred.is_some() {
        copy_setting(preferred)
    } else {
        copy_setting(fallback)
    }
}

/// Decides how the alert for `ep` entering `new_status` is delivered. The
/// endpoint's webhook wins over the global one; a Telegram message goes out
/// only when a bot token is set and a chat is named, the endpoint's chat
/// winning over the global one.
pub fn plan_alert(
    ep: &EndpointConfig,
    global: &GlobalConfig,
    new_status: &Status,
    telegram_base: &str,
) -> (p: AlertPlan)
    ensures
        p.text@ == alert_message(ep.name@, *new_status),
        opt_view(p.webhook_url) == first_set(opt_view(ep.webhook_url), opt_view(global.webhook_url)),
        p.telegram is Some <==> (global.telegram_bot_token is Some && first_set(
            opt_view(ep.telegram_chat_id),
            opt_view(global.telegram_chat_id),
        ) is Some),
        p.telegram matches Some(tg) ==> {
            &&& tg.url@ == telegram_url_text(telegram_base@, global.telegram_bot_token->0@)
            &&& Some(tg.chat_id@) == first_set(
                opt_view(ep.telegram_chat_id),
                opt_view(global.telegram_chat_id),
            )
        },
{
    let text = alert_text(ep, new_status);
    let webhook_url = first_setting(&ep.webhook_url, &global.webhook_url);
    let chat = first_setting(&ep.telegram_chat_id, &global.telegram_chat_id);
    let telegram = match (&global.telegram_bot_token, chat) {
        (Some(token), Some(chat_id)) => Some(
            TelegramAlert { url: telegram_send_url(telegram_base, token.as_str()), chat_id },
        ),
        _ => None,
    };
    AlertPlan { text, webhook_url, telegram }
}

} // verus!
