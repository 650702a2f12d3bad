//! What the relay is told at start: which channel and author to watch, which
//! text to wait for, and which webhook to call.

use crate::number::{parse_u64, parse_u64_spec};
use vstd::prelude::*;

verus! {

/// The relay's configuration, fixed for as long as it runs.
#[derive(Debug, Clone, PartialEq, Eq)]
pub struct Config {
    /// The channel that is watched.
    pub channel_id: u64,
    /// The author whose message is awaited.
    pub target_user_id: u64,
    /// The text that the author's message must be, once trimmed.
    pub target_text: String,
    /// The address that is fetched when the message has come.
    pub webhook_url: String,
}

/// A `Config` with its strings as sequences of characters.
pub struct ConfigView {
    pub channel_id: u64,
    pub target_user_id: u64,
    pub target_text: Seq<char>,
    pub webhook_url: Seq<char>,
}

impl View for Config {
    type V = ConfigView;

    open spec fn view(&self) -> ConfigView {
        ConfigView {
            channel_id: self.channel_id,
            target_user_id: self.target_user_id,
            target_text: self.target_text@,
            webhook_url: self.webhook_url@,
        }
    }
}

/// The settings that the relay reads at start, in the order in which it
/// reads them.
#[derive(Debug, Clone, Copy, PartialEq, Eq, Structural)]
pub enum Variable {
    DiscordToken,
    ChannelId,
    TargetMessage,
    TargetUserId,
    WebhookUrl,
}

impl Variable {
    /// The name under which the setting is looked up.
    pub open spec fn name_spec(self) -> Seq<char> {
        match self {
            Variable::DiscordToken => "DISCORD_TOKEN"@,
            Variable::ChannelId => "CHANNEL_ID"@,
            Variable::TargetMessage => "TARGET_MESSAGE"@,
            Variable::TargetUserId => "TARGET_USER_ID"@,
            Variable::WebhookUrl => "WEBHOOK_URL"@,
        }
    }

    /// The name under which the setting is looked up.
    pub fn name(&self) -> (r: &'static str)
        ensures
            r@ == self.name_spec(),
    {
        match self {
            Variable::DiscordToken => "DISCORD_TOKEN",
            Variable::ChannelId => "CHANNEL_ID",
            Variable::TargetMessage => "TARGET_MESSAGE",
            Variable::TargetUserId => "TARGET_USER_ID",
            Variable::WebhookUrl => "WEBHOOK_URL",
        }
    }
}

/// Why the relay cannot start.
#[derive(Debug, Clone, Copy, PartialEq, Eq, Structural)]
pub enum StartupError {
    /// The setting has no value.
    Missing(Variable),
    /// The setting's value is not an unsigned 64-bit integer in decimal
    /// notation.
    Unparseable(Variable),
}

/// The values found for the five settings, `None` for one that has none.
#[derive(Debug, Clone, PartialEq, Eq)]
pub struct Environment {
    pub discord_token: Option<String>,
    pub channel_id: Option<String>,
    pub target_message: Option<String>,
    pub target_user_id: Option<String>,
    pub webhook_url: Option<String>,
}

/// What a successful start yields: the credential for the chat gateway, and
/// the configuration.
#[derive(Debug, Clone, PartialEq, Eq)]
pub struct Startup {
    pub token: String,
    pub config: Config,
}

/// Whether `value` is there and writes an unsigned 64-bit integer.
pub open spec fn is_number(value: Option<String>) -> bool {
    value matches Some(text) && parse_u64_spec(text@) is Some
}

/// The first thing wrong with `env`, going through the settings in order:
/// a setting without a value, or an identifier that is no number. `None`
/// where nothing is wrong.
pub open spec fn first_fault(env: Environment) -> Option<StartupError> {
    if env.discord_token is None {
        Some(StartupError::Missing(Variable::DiscordToken))
    } else if env.channel_id is None {
        Some(StartupError::Missing(Variable::ChannelId))
    } else if !is_number(env.channel_id) {
        Some(StartupError::Unparseable(Variable::ChannelId))
    } else if env.target_message is None {
        Some(StartupError::Missing(Variable::TargetMessage))
    } else if env.target_user_id is None {
        Some(StartupError::Missing(Variable::TargetUserId))
    } else if !is_number(env.target_user_id) {
        Some(StartupError::Unparseable(Variable::TargetUserId))
    } else if env.webhook_url is None {
        Some(StartupError::Missing(Variable::WebhookUrl))
    } else {
        None
    }
}

/// The configuration that a faultless `env` describes.
pub open spec fn config_of(env: Environment) -> ConfigView
    recommends
        first_fault(env) is None,
{
    ConfigView {
        channel_id: parse_u64_spec(env.channel_id->0@)->0,
        target_user_id: parse_u64_spec(env.target_user_id->0@)->0,
        target_text: env.target_message->0@,
        webhook_url: env.webhook_url->0@,
    }
}

/// Builds the configuration from the values found at start, or says what is
/// the first thing wrong with them.
pub fn load(env: Environment) -> (r: Result<Startup, StartupError>)
    ensures
        match first_fault(env) {
            Some(fault) => r == Err::<Startup, StartupError>(fault),
            None => r matches Ok(startup) && startup.token@ == env.discord_token->0@
                && startup.config@ == config_of(env),
        },
{
    let Environment { discord_token, channel_id, target_message, target_user_id, webhook_url } =
        env;
    let token = match discord_token {
        Some(token) => token,
        None => {
            return Err(StartupError::Missing(Variable::DiscordToken));
        },
    };
    let channel_id = match channel_id {
        Some(text) => match parse_u64(text.as_str()) {
            Some(id) => id,
            None => {
                return Err(StartupError::Unparseable(Variable::ChannelId));
            },
        },
        None => {
            return Err(StartupError::Missing(Variable::ChannelId));
        },
    };
    let target_text = match target_message {
        Some(text) => text,
        None => {
            return Err(StartupError::Missing(Variable::TargetMessage));
        },
    };
    let target_user_id = match target_user_id {
        Some(text) => match parse_u64(text.as_str()) {
            Some(id) => id,
            None => {
                return Err(StartupError::Unparseable(Variable::TargetUserId));
            },
        },
        None => {
            return Err(StartupError::Missing(Variable::TargetUserId));
        },
    };
    let webhook_url = match webhook_url {
        Some(url) => url,
        None => {
            return Err(StartupError::Missing(Variable::WebhookUrl));
        },
    };
    Ok(Startup { token, config: Config { channel_id, target_user_id, target_text, webhook_url } })
}

/// A start succeeds exactly when all five settings have a value and the two
/// identifiers among them are numbers.
pub proof fn lemma_load_succeeds_iff_complete(env: Environment)
    ensures
        first_fault(env) is None <==> {
            &&& env.discord_token is Some
            &&& is_number(env.channel_id)
            &&& env.target_message is Some
            &&& is_number(env.target_user_id)
            &&& env.webhook_url is Some
        },
{
}

/// A setting without a value stops the start, whichever setting it is and
/// whatever the others hold.
pub proof fn lemma_missing_setting_is_fatal(env: Environment)
    requires
        env.discord_token is None || env.channel_id is None || env.target_message is None
            || env.target_user_id is None || env.webhook_url is None,
    ensures
        first_fault(env) is Some,
{
}

} // verus!
