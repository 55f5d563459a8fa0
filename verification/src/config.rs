//! The configuration of the relay: three values, all of them required, read
//! once before the first request is served and never changed after.

use crate::credentials::{tokens_of, valid_tokens, CredentialSet};
use crate::message::{destination_of, DestinationConfig};
use crate::text::optional_text;
use vstd::prelude::*;
use vstd::string::*;

verus! {

/// Which of the required values is absent.
#[derive(Clone, Copy, Debug, PartialEq, Eq, Structural)]
pub enum ConfigError {
    /// The line of tokens, `AUTH_TOKEN`.
    MissingTokens,
    /// The chat that receives the messages, `TELEGRAM_CHAT_ID`.
    MissingChatId,
    /// The secret of the messaging service, `TELEGRAM_BOT_TOKEN`.
    MissingSecret,
}

impl ConfigError {
    /// The words that name the absent value.
    pub open spec fn reason(self) -> Seq<char> {
        match self {
            ConfigError::MissingTokens => "Env variable `AUTH_TOKEN` is not set."@,
            ConfigError::MissingChatId => "Env variable `TELEGRAM_CHAT_ID` is not set."@,
            ConfigError::MissingSecret => "Env variable `TELEGRAM_BOT_TOKEN` is not set."@,
        }
    }

    /// Writes the words that name the absent value.
    pub fn message(&self) -> (text: String)
        ensures
            text@ == self.reason(),
    {
        match self {
            ConfigError::MissingTokens => String::from_str("Env variable `AUTH_TOKEN` is not set."),
            ConfigError::MissingChatId => String::from_str(
                "Env variable `TELEGRAM_CHAT_ID` is not set.",
            ),
            ConfigError::MissingSecret => String::from_str(
                "Env variable `TELEGRAM_BOT_TOKEN` is not set.",
            ),
        }
    }
}

/// What every request reads: the tokens that open the relay and the
/// destination of the messages.
#[derive(Debug)]
pub struct RelayConfig {
    pub credentials: CredentialSet,
    pub destination: DestinationConfig,
}

/// The first of the three values that is absent, if one is.
pub open spec fn first_missing(
    tokens: Option<Seq<char>>,
    chat_id: Option<Seq<char>>,
    secret: Option<Seq<char>>,
) -> Option<ConfigError> {
    if tokens is None {
        Some(ConfigError::MissingTokens)
    } else if chat_id is None {
        Some(ConfigError::MissingChatId)
    } else if secret is None {
        Some(ConfigError::MissingSecret)
    } else {
        None
    }
}

impl RelayConfig {
    /// Makes the configuration from the three values as they were found.
    /// It fails if one of them is absent, and names the first such; else the
    /// tokens are read from their line and the destination is built from the
    /// chat and the secret.
    pub fn load(tokens: Option<&str>, chat_id: Option<&str>, secret: Option<&str>) -> (loaded:
        Result<RelayConfig, ConfigError>)
        ensures
            match first_missing(optional_text(tokens), optional_text(chat_id), optional_text(secret)) {
                Some(missing) => loaded == Err::<RelayConfig, ConfigError>(missing),
                None => {
                    &&& loaded matches Ok(config)
                    &&& config.credentials@ == tokens_of(tokens.unwrap()@)
                    &&& valid_tokens(config.credentials@)
                    &&& config.destination@ == destination_of(
                        chat_id.unwrap()@,
                        secret.unwrap()@,
                    )
                },
            },
    {
        let tokens = match tokens {
            Some(line) => line,
            None => return Err(ConfigError::MissingTokens),
        };
        let chat_id = match chat_id {
            Some(chat) => chat,
            None => return Err(ConfigError::MissingChatId),
        };
        let secret = match secret {
            Some(secret) => secret,
            None => return Err(ConfigError::MissingSecret),
        };
        Ok(
            RelayConfig {
                credentials: CredentialSet::parse(tokens),
                destination: DestinationConfig::new(chat_id, secret),
            },
        )
    }
}

} // verus!
