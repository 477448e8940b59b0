//! The one command of the bot: `ping`, answered with `Pong!`.
//!
//! The handler works in two steps around the one thing it cannot do itself,
//! sending the message: [`ping`] says what to send and where, and
//! [`ping_settle`] says what follows from how the sending went.

use vstd::prelude::*;
use vstd::string::*;

verus! {

/// A command as it is announced to the platform.
#[derive(Debug, PartialEq, Eq)]
pub struct CommandInfo {
    /// The name under which users invoke the command.
    pub name: String,
    /// How many arguments the command accepts.
    pub parameters: usize,
}

/// A message to send.
#[derive(Debug, PartialEq, Eq)]
pub struct Reply {
    /// The channel to send it to.
    pub channel: u64,
    /// What it says.
    pub text: String,
}

/// How an invocation ends once its reply was sent, or was not.
#[derive(Debug, PartialEq, Eq)]
pub struct Settled {
    /// A line to log, if there is anything to record.
    pub log: Option<String>,
    /// What the handler returns to the framework.
    pub result: Result<(), String>,
}

/// The name of the command.
pub open spec fn command_name() -> Seq<char> {
    "ping"@
}

/// The text of every reply.
pub open spec fn reply_text() -> Seq<char> {
    "Pong!"@
}

/// The reply owed to an invocation from `channel`: its channel and its text.
pub open spec fn ping_spec(channel: u64) -> (u64, Seq<char>) {
    (channel, reply_text())
}

/// The line that records a reply that could not be sent.
pub open spec fn send_failure_text(detail: Seq<char>) -> Seq<char> {
    "Error while sending message: "@ + detail
}

/// The record under which `ping` is announced: its name, and no arguments.
pub fn command() -> (info: CommandInfo)
    ensures
        info.name@ == command_name(),
        info.parameters == 0,
{
    CommandInfo { name: String::from_str("ping"), parameters: 0 }
}

/// Answers an invocation that came from `channel`: one reply, `Pong!`, to that
/// same channel. The answer depends on nothing else.
pub fn ping(channel: u64) -> (reply: Reply)
    ensures
        (reply.channel, reply.text@) == ping_spec(channel),
{
    Reply { channel, text: String::from_str("Pong!") }
}

/// Ends an invocation, given how sending the reply went (`Err` holds the
/// failure's printed form). A failure is logged and goes no further: the
/// handler succeeds either way, and nothing is sent again.
pub fn ping_settle(sent: Result<(), String>) -> (settled: Settled)
    ensures
        settled.result is Ok,
        match sent {
            Ok(_) => settled.log is None,
            Err(why) => settled.log matches Some(line) && line@ == send_failure_text(why@),
        },
{
    match sent {
        Ok(_) => Settled { log: None, result: Ok(()) },
        Err(why) => {
            let mut line = String::from_str("Error while sending message: ");
            line.append(why.as_str());
            Settled { log: Some(line), result: Ok(()) }
        },
    }
}

/// Invocations do not touch each other: each is answered in the channel it
/// came from, and with the same text, whatever other invocation there is.
pub proof fn law_replies_are_independent(first: u64, second: u64)
    ensures
        ping_spec(first).0 == first,
        ping_spec(second).0 == second,
        first != second ==> ping_spec(first).0 != ping_spec(second).0,
        ping_spec(first).1 == ping_spec(second).1,
        ping_spec(first).1 == reply_text(),
{
}

} // verus!
