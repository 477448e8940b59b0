//! The lines logged around each command.

use vstd::prelude::*;
use vstd::string::*;

verus! {

/// The line logged before the command `name` runs.
pub open spec fn executing_text(name: Seq<char>) -> Seq<char> {
    "[LOG] Executing command "@ + name + "..."@
}

/// The line logged after the command `name` has run with success.
pub open spec fn executed_text(name: Seq<char>) -> Seq<char> {
    "[LOG] Executed command "@ + name + "!"@
}

/// The line to print before a command runs. `name` is the command's qualified name.
pub fn pre_command(name: &str) -> (line: String)
    ensures
        line@ == executing_text(name@),
{
    let mut line = String::from_str("[LOG] Executing command ");
    line.append(name);
    line.append("...");
    line
}

/// The line to print after a command has run with success. `name` is the
/// command's qualified name.
pub fn post_command(name: &str) -> (line: String)
    ensures
        line@ == executed_text(name@),
{
    let mut line = String::from_str("[LOG] Executed command ");
    line.append(name);
    line.append("!");
    line
}

/// The two lines around one command differ, so a reader of the log can tell
/// the start of an execution from its end.
pub proof fn law_lines_differ(name: Seq<char>)
    ensures
        executing_text(name) != executed_text(name),
{
    reveal_strlit("[LOG] Executing command ");
    reveal_strlit("[LOG] Executed command ");
    let before = executing_text(name);
    let after = executed_text(name);
    assert(before[12] == 'i');
    assert(after[12] == 'e');
}

} // verus!
