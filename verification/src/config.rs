//! The monitor's configuration: global settings and the endpoints to poll.
use vstd::prelude::*;

verus! {

/// The whole configuration file.
#[derive(Debug, Clone)]
pub struct Config {
    pub global: GlobalConfig,
    pub endpoints: Vec<EndpointConfig>,
}

/// Settings shared by all endpoints.
#[derive(Debug, Clone)]
pub struct GlobalConfig {
    /// Where uptime state is persisted between runs.
    pub state_file: String,
    /// Slack-compatible webhook used when an endpoint names none.
    pub webhook_url: Option<String>,
    /// Telegram bot token; Telegram alerts are sent only when it is set.
    pub telegram_bot_token: Option<String>,
    /// Telegram chat used when an endpoint names none.
    pub telegram_chat_id: Option<String>,
}

/// One endpoint to poll.
#[derive(Debug, Clone)]
pub struct EndpointConfig {
    pub name: String,
    pub url: String,
    pub interval_secs: u64,
    /// The exact HTTP status that counts as up; `None` means any 2xx.
    pub expected_status: Option<u16>,
    pub timeout_secs: u64,
    /// Overrides the global webhook for this endpoint.
    pub webhook_url: Option<String>,
    /// Overrides the global Telegram chat for this endpoint.
    pub telegram_chat_id: Option<String>,
}

impl Default for GlobalConfig {
    /// The default state file and no alert channel.
    fn default() -> (g: Self)
        ensures
            g.state_file@ == "state.json"@,
            g.webhook_url is None,
            g.telegram_bot_token is None,
            g.telegram_chat_id is None,
    {
        GlobalConfig {
            state_file: default_state_file(),
            webhook_url: None,
            telegram_bot_token: None,
            telegram_chat_id: None,
        }
    }
}

/// The state file used when the global section names none.
pub fn default_state_file() -> (s: String)
    ensures
        s@ == "state.json"@,
{
    String::from_str("state.json")
}

/// The polling interval, in seconds, used when an endpoint names none.
pub fn default_interval() -> (secs: u64)
    ensures
        secs == 30,
{
    30
}

/// The request timeout, in seconds, used when an endpoint names none.
pub fn default_timeout() -> (secs: u64)
    ensures
        secs == 10,
{
    10
}

/// Why a configuration is refused.
#[derive(Debug, Clone, Copy, PartialEq, Eq, Structural)]
pub enum ConfigError {
    /// The configuration names no endpoint to monitor.
    NoEndpoints,
}

impl ConfigError {
    /// The message shown to the user.
    pub fn message(&self) -> (m: &'static str)
        ensures
            m@ == "No endpoints defined in config"@,
    {
        match self {
            ConfigError::NoEndpoints => "No endpoints defined in config",
        }
    }
}

/// Accepts a configuration only when it names at least one endpoint.
pub fn validate_config(config: &Config) -> (r: Result<(), ConfigError>)
    ensures
        r is Ok <==> config.endpoints.len() > 0,
        r is Err ==> r == Err::<(), ConfigError>(ConfigError::NoEndpoints),
{
    if config.endpoints.len() == 0 {
        Err(ConfigError::NoEndpoints)
    } else {
        Ok(())
    }
}

} // verus!
