//! What the bot does with an error that the framework reports.
//!
//! The framework hands every error to one callback. The callback sorts the
//! error into one of three categories and decides: a failed setup ends the
//! process, a failed command is logged and forgotten, anything else is left to
//! the framework's own handler.

use vstd::prelude::*;
use vstd::string::*;

verus! {

/// An error reported by the framework, reduced to what the decision reads.
/// `detail` is the error's printed form.
#[derive(Debug, PartialEq, Eq)]
pub enum Fault {
    /// Setup failed: the bot never came to serve.
    Setup { detail: String },
    /// The handler of the command `name` returned an error.
    Command { name: String, detail: String },
    /// Any other category.
    Other,
}

/// The decision taken on a [`Fault`].
#[derive(Debug, PartialEq, Eq)]
pub enum ErrorAction {
    /// End the process with `message`.
    Abort { message: String },
    /// Print `line` and go on serving.
    Log { line: String },
    /// Hand the error to the framework's default handler and go on serving.
    Delegate,
}

/// The message with which the process ends when setup failed.
pub open spec fn setup_failure_text(detail: Seq<char>) -> Seq<char> {
    "Failed to start bot: "@ + detail
}

/// The line that records a failed command.
pub open spec fn command_failure_text(name: Seq<char>, detail: Seq<char>) -> Seq<char> {
    "Error in command `"@ + name + "`: "@ + detail
}

/// The line that records a failure of the framework's default handler.
pub open spec fn handler_failure_text(detail: Seq<char>) -> Seq<char> {
    "Error while handling error: "@ + detail
}

/// Whether `action` is the decision owed on `fault`.
pub open spec fn decides(fault: Fault, action: ErrorAction) -> bool {
    match fault {
        Fault::Setup { detail } => action matches ErrorAction::Abort { message }
            && message@ == setup_failure_text(detail@),
        Fault::Command { name, detail } => action matches ErrorAction::Log { line }
            && line@ == command_failure_text(name@, detail@),
        Fault::Other => action is Delegate,
    }
}

impl ErrorAction {
    /// Whether the decision ends the process.
    pub open spec fn is_fatal_spec(&self) -> bool {
        self is Abort
    }

    /// Whether the decision ends the process.
    #[verifier::when_used_as_spec(is_fatal_spec)]
    pub fn is_fatal(&self) -> (fatal: bool)
        ensures
            fatal == self.is_fatal_spec(),
    {
        match self {
            ErrorAction::Abort { .. } => true,
            _ => false,
        }
    }
}

/// Decides what to do with an error that the framework reports.
///
/// A setup failure is fatal. A command failure is logged with the command's
/// name and the error; that one invocation is given up and the bot goes on. Any
/// other error goes to the framework's default handler.
pub fn on_error(fault: Fault) -> (action: ErrorAction)
    ensures
        decides(fault, action),
        action.is_fatal() <==> fault is Setup,
{
    match fault {
        Fault::Setup { detail } => {
            let mut message = String::from_str("Failed to start bot: ");
            message.append(detail.as_str());
            ErrorAction::Abort { message }
        },
        Fault::Command { name, detail } => {
            let mut line = String::from_str("Error in command `");
            line.append(name.as_str());
            line.append("`: ");
            line.append(detail.as_str());
            ErrorAction::Log { line }
        },
        Fault::Other => ErrorAction::Delegate,
    }
}

/// Decides what to print once the framework's default handler has run on a
/// delegated error: nothing where it succeeded, one line with the secondary
/// error where it failed. Either way the error goes no further.
pub fn on_handler_result(outcome: Result<(), String>) -> (line: Option<String>)
    ensures
        match outcome {
            Ok(_) => line is None,
            Err(detail) => line matches Some(text) && text@ == handler_failure_text(detail@),
        },
{
    match outcome {
        Ok(_) => None,
        Err(detail) => {
            let mut text = String::from_str("Error while handling error: ");
            text.append(detail.as_str());
            Some(text)
        },
    }
}

/// A command failure never ends the process, whatever the command and the
/// error: only a setup failure does.
pub proof fn law_only_setup_is_fatal(fault: Fault, action: ErrorAction)
    requires
        decides(fault, action),
    ensures
        action.is_fatal() <==> fault is Setup,
{
}

} // verus!
