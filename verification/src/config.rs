//! What the bot needs before it can connect.

use vstd::prelude::*;
use vstd::string::*;
use crate::intents::{required_intents, required_intents_spec};
use crate::ping::{command, command_name, CommandInfo};

verus! {

/// Why the bot cannot start.
#[derive(Debug, Clone, Copy, PartialEq, Eq, Structural)]
pub enum ConfigError {
    /// The environment holds no token.
    MissingToken,
}

/// Everything that is handed to the framework at startup.
#[derive(Debug, PartialEq, Eq)]
pub struct StartupPlan {
    /// The secret with which the bot authenticates.
    pub token: String,
    /// What a message starts with when it invokes a command in text form.
    pub prefix: String,
    /// The gateway capabilities to declare, as a bit set.
    pub intents: u64,
    /// The commands to announce, in order.
    pub commands: Vec<CommandInfo>,
}

/// The name of the environment variable that holds the token.
pub open spec fn token_variable_text() -> Seq<char> {
    "BOT_TOKEN"@
}

/// The prefix of a command in text form.
pub open spec fn prefix_text() -> Seq<char> {
    "!"@
}

/// What is said when the token is missing.
pub open spec fn missing_token_text() -> Seq<char> {
    "missing BOT_TOKEN"@
}

impl StartupPlan {
    /// Whether this is the plan of a bot that starts with `token`: that token,
    /// the prefix `!`, the required capabilities, and one command, `ping`,
    /// which takes no arguments.
    pub open spec fn is_plan_for(&self, token: Seq<char>) -> bool {
        &&& self.token@ == token
        &&& self.prefix@ == prefix_text()
        &&& self.intents == required_intents_spec()
        &&& self.commands@.len() == 1
        &&& self.commands@[0].name@ == command_name()
        &&& self.commands@[0].parameters == 0
    }
}

impl ConfigError {
    /// The error in words.
    pub fn message(&self) -> (text: String)
        ensures
            text@ == missing_token_text(),
    {
        String::from_str("missing BOT_TOKEN")
    }
}

/// The name of the environment variable that holds the token.
pub fn token_variable() -> (name: &'static str)
    ensures
        name@ == token_variable_text(),
{
    "BOT_TOKEN"
}

/// The prefix of a command in text form.
pub fn command_prefix() -> (prefix: &'static str)
    ensures
        prefix@ == prefix_text(),
{
    "!"
}

/// The commands that the bot announces: `ping`, and nothing else.
pub fn commands() -> (list: Vec<CommandInfo>)
    ensures
        list@.len() == 1,
        list@[0].name@ == command_name(),
        list@[0].parameters == 0,
{
    let mut list: Vec<CommandInfo> = Vec::new();
    list.push(command());
    list
}

/// Plans the startup from what the environment holds under the token's name.
///
/// Without a token there is no plan, and so nothing to connect with: the
/// error is `MissingToken`. With one, the plan is fixed but for the token.
pub fn startup(token: Option<String>) -> (plan: Result<StartupPlan, ConfigError>)
    ensures
        match token {
            Some(secret) => plan matches Ok(p) && p.is_plan_for(secret@),
            None => plan == Err::<StartupPlan, ConfigError>(ConfigError::MissingToken),
        },
{
    match token {
        None => Err(ConfigError::MissingToken),
        Some(secret) => Ok(
            StartupPlan {
                token: secret,
                prefix: String::from_str(command_prefix()),
                intents: required_intents(),
                commands: commands(),
            },
        ),
    }
}

} // verus!
