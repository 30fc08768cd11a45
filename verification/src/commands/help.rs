//! The `help` command: displays the usage of every command.

use vstd::prelude::*;
use crate::commands::{CmdError, CmdOptions, info, read, search, mserv};
use crate::text::{concat, push_str};

verus! {

/// Usage line of this command.
pub const USAGE: &'static str = "help                    Display these informations";

/// Help message to display in case of error.
pub const HELP_COMMAND: &'static str = "\nSee 'oms help'\n";

/// # Help command
///
/// Displays the help of the program: `oms help`.
pub struct Help {}

/// Help message for this command.
pub fn usage() -> (r: &'static str)
    ensures
        r@ == USAGE@,
{
    USAGE
}

/// Help message to display in case of error.
pub fn help_command() -> (r: &'static str)
    ensures
        r@ == HELP_COMMAND@,
{
    HELP_COMMAND
}

/// Returns Help.
pub fn build_cmd(_args: &Vec<String>, _options: CmdOptions) -> (r: Result<Help, CmdError>)
    ensures
        r is Ok,
{
    Ok(Help {})
}

/// The text that the help command displays.
pub open spec fn help_text() -> Seq<char> {
    "\nUsage:  oms [options] <command> [<args>]\n\nAvailable commands:\n\n"@ + USAGE@ + "\n"@
        + info::USAGE@ + "\n"@ + read::USAGE@ + "\n"@ + search::usage_text() + "\n"@
        + mserv::USAGE@ + "\n"@
}

impl Help {
    /// The text the command displays.
    pub fn text(&self) -> (r: String)
        ensures
            r@ == help_text(),
    {
        let mut r = concat("\nUsage:  oms [options] <command> [<args>]\n\nAvailable commands:\n\n", usage());
        push_str(&mut r, "\n");
        push_str(&mut r, info::usage());
        push_str(&mut r, "\n");
        push_str(&mut r, read::usage());
        push_str(&mut r, "\n");
        let s = search::usage();
        push_str(&mut r, s.as_str());
        push_str(&mut r, "\n");
        push_str(&mut r, mserv::usage());
        push_str(&mut r, "\n");
        assert(r@ =~= help_text());
        r
    }
}

} // verus!
