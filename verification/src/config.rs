//! What the client must know before its first exchange.

use vstd::prelude::*;
use vstd::string::StringExecFns;
use crate::prompt::{standard_rules, PromptRules, PromptRulesView};

verus! {

/// The character budget of the history where nothing else is configured.
pub const DEFAULT_BUDGET: usize = 20000;

/// Why the client cannot start.
#[derive(Clone, Copy, Debug, PartialEq, Eq, Structural)]
pub enum ConfigError {
    /// The environment holds no credential for the completion endpoint.
    MissingCredential,
}

impl ConfigError {
    /// The line that tells a person about the error.
    pub open spec fn message(self) -> Seq<char> {
        "No credential for the completion endpoint was found in the environment"@
    }

    /// Returns the line that tells a person about the error.
    pub fn describe(&self) -> (line: String)
        ensures
            line@ == self.message(),
    {
        String::from_str("No credential for the completion endpoint was found in the environment")
    }
}

/// The configuration of a client: the credential that it presents, the
/// character budget of its history and the rules by which it reads prompts.
#[derive(Debug)]
pub struct Config {
    pub credential: String,
    pub budget: usize,
    pub rules: PromptRules,
}

/// The mathematical value of a [`Config`].
pub struct ConfigView {
    pub credential: Seq<char>,
    pub budget: nat,
    pub rules: PromptRulesView,
}

impl View for Config {
    type V = ConfigView;

    open spec fn view(&self) -> ConfigView {
        ConfigView {
            credential: self.credential@,
            budget: self.budget as nat,
            rules: self.rules@,
        }
    }
}

/// The configuration with the given credential and the standard budget and
/// rules.
pub open spec fn standard_config(credential: Seq<char>) -> ConfigView {
    ConfigView { credential, budget: DEFAULT_BUDGET as nat, rules: standard_rules() }
}

impl Config {
    /// Builds the standard configuration around the credential that the
    /// environment holds. Without a credential there is no configuration. An
    /// empty credential is a credential.
    pub fn from_credential(credential: Option<String>) -> (config: Result<Config, ConfigError>)
        ensures
            match credential {
                Some(text) => config is Ok && config->Ok_0@ == standard_config(text@),
                None => config == Err::<Config, ConfigError>(ConfigError::MissingCredential),
            },
    {
        match credential {
            Some(credential) => Ok(
                Config { credential, budget: DEFAULT_BUDGET, rules: PromptRules::standard() },
            ),
            None => Err(ConfigError::MissingCredential),
        }
    }
}

} // verus!
