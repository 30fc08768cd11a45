//! The `info` action: displays the available actions.

use vstd::prelude::*;
use crate::commands::CmdError;
use crate::text::{views, owned};

verus! {

/// Help message to display in case of error.
pub const HELP_COMMAND: &'static str = "\nSee 'oms info'\n";

/// The `info` action.
pub struct Info {}

/// The lines the `info` action prints.
pub open spec fn info_lines() -> Seq<Seq<char>> {
    seq![
        ""@,
        "Usage:  oms [OPTIONS] COMMAND"@,
        ""@,
        "Available commands:"@,
        "  info                    Display these informations"@,
        "  read [file_path]        Display the content of the file"@,
    ]
}

impl Info {
    /// The lines the action prints.
    pub fn lines(&self) -> (r: Vec<String>)
        ensures
            views(r@) == info_lines(),
    {
        let r: Vec<String> = vec![
            owned(""),
            owned("Usage:  oms [OPTIONS] COMMAND"),
            owned(""),
            owned("Available commands:"),
            owned("  info                    Display these informations"),
            owned("  read [file_path]        Display the content of the file"),
        ];
        assert(views(r@) =~= info_lines());
        r
    }
}

/// Help message to display in case of error.
pub fn help_command() -> (r: &'static str)
    ensures
        r@ == HELP_COMMAND@,
{
    HELP_COMMAND
}

/// Returns the `info` action.
pub fn build_action() -> (r: Result<Info, CmdError>)
    ensures
        r is Ok,
{
    Ok(Info {})
}

} // verus!
