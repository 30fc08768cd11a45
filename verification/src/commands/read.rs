//! The `read` command: displays the content of a file.

use vstd::prelude::*;
use crate::commands::{CmdError, CmdOptions, get_args_parameter, wants_help, asks_help};
use crate::text::owned;

verus! {

/// Usage line of this command.
pub const USAGE: &'static str = "\
read [file_path]        Display the content of the file
";

/// Message of the error when the file path is missing.
pub const FILE_PATH_REQUIRED: &'static str = "\nread error: 'file_path' parameter required\n";

/// # Read command
///
/// Displays the content of the given file: `oms read /home/me/text.txt`.
pub struct Read {
    /// The path of the file to read.
    pub file_path: String,
    /// Command options.
    pub cmd_options: CmdOptions,
}

/// What running a read command does.
pub enum ReadStep {
    /// Display the usage of the command.
    ShowUsage,
    /// Display the content of the file at this path.
    Display(String),
}

impl Read {
    /// What running the command does: show the usage when the options ask
    /// for help, display the file otherwise.
    pub fn step(&self) -> (r: ReadStep)
        ensures
            asks_help(self.cmd_options@) ==> r is ShowUsage,
            !asks_help(self.cmd_options@) ==> (r matches ReadStep::Display(p) && p@
                == self.file_path@),
    {
        if wants_help(&self.cmd_options) {
            ReadStep::ShowUsage
        } else {
            ReadStep::Display(self.file_path.clone())
        }
    }
}

/// Help message for this command.
pub fn usage() -> (r: &'static str)
    ensures
        r@ == USAGE@,
{
    USAGE
}

/// Returns Read from the command line: the file path is the last argument.
pub fn build_cmd(args: &Vec<String>, options: CmdOptions) -> (r: Result<Read, CmdError>)
    requires
        args.len() >= 1,
    ensures
        r matches Ok(c) && c.file_path@ == args@.last()@ && c.cmd_options == options,
{
    let file_path = match get_args_parameter(args, args.len() - 1, FILE_PATH_REQUIRED) {
        Ok(v) => owned(v),
        Err(_) => String::new(),
    };
    Ok(Read { file_path, cmd_options: options })
}

} // verus!
