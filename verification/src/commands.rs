//! Construction of the remote command text.
//!
//! Every subcommand sends one editor command built by concatenating a fixed
//! verb prefix and a user-supplied argument. The argument is passed through
//! verbatim — there is deliberately no quoting or escaping — so the contracts
//! pin the produced text down to the exact character sequence.

use vstd::prelude::*;

verus! {

/// The command text that opens `file` in the running editor.
pub open spec fn edit_command_text(file: Seq<char>) -> Seq<char> {
    "edit "@ + file
}

/// The command text that changes the editor's working directory to
/// `directory` (empty means "current directory").
pub open spec fn tchdir_command_text(directory: Seq<char>) -> Seq<char> {
    "tchdir "@ + directory
}

/// The command text that renames the current terminal buffer to `name`.
pub open spec fn term_rename_command_text(name: Seq<char>) -> Seq<char> {
    "file term://"@ + name
}

/// The one place command text is assembled: a verb prefix followed by the
/// unmodified argument. Centralized so quoting could later be added without
/// touching the call sites.
pub fn build_command(prefix: &str, argument: &str) -> (command: String)
    ensures
        command@ == prefix@ + argument@,
{
    let command = String::from_str(prefix);
    command.concat(argument)
}

/// Build the command that opens `file`.
pub fn edit_command(file: &str) -> (command: String)
    ensures
        command@ == edit_command_text(file@),
{
    build_command("edit ", file)
}

/// Build the command that changes the working directory to `directory`.
pub fn tchdir_command(directory: &str) -> (command: String)
    ensures
        command@ == tchdir_command_text(directory@),
{
    build_command("tchdir ", directory)
}

/// Build the command that renames the current terminal buffer to `name`.
pub fn term_rename_command(name: &str) -> (command: String)
    ensures
        command@ == term_rename_command_text(name@),
{
    build_command("file term://", name)
}

} // verus!
