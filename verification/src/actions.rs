//! Actions of the first version of the command line: `info` and `read`.

pub mod info;
pub mod search;

use vstd::prelude::*;
use crate::commands::{CmdError, ErrorKind, is_error};
use crate::text::{owned, concat, push_str, str_eq};

verus! {

/// An action of the command line.
pub enum Action {
    /// Display the available actions.
    Info(),
    /// Display the content of the file at this path.
    Read(String),
}

/// What running an action does.
pub enum ActionRun {
    /// Print these lines.
    Print(Vec<String>),
    /// Display the content of the file at this path.
    Display(String),
}

impl Action {
    /// What running the action does: the lines of the available actions
    /// for `info`, the file to display for `read`.
    pub fn run(&self) -> (r: ActionRun)
        ensures
            self matches Action::Info() ==> (r matches ActionRun::Print(l) && crate::text::views(l@) == info::info_lines()),
            self matches Action::Read(p) ==> (r matches ActionRun::Display(q) && q@ == p@),
    {
        match self {
            Action::Info() => ActionRun::Print(info::Info {}.lines()),
            Action::Read(p) => ActionRun::Display(p.clone()),
        }
    }
}

/// The item of `args` at `index`; `error_message` is the message of the
/// error when there is none.
pub fn get_args_parameter(args: &Vec<String>, index: usize, error_message: &str) -> (r: Result<String, CmdError>)
    ensures
        match r {
            Ok(v) => index < args.len() && v@ == args@[index as int]@,
            Err(e) => index >= args.len() && is_error(e, ErrorKind::InvalidInput, error_message@),
        },
{
    if index < args.len() {
        Ok(args[index].clone())
    } else {
        Err(CmdError::new(ErrorKind::InvalidInput, owned(error_message)))
    }
}

/// The name of the action of a command line: its second argument, `info`
/// when there is none.
pub open spec fn action_name(args: Seq<String>) -> Seq<char> {
    if args.len() > 1 { args[1]@ } else { "info"@ }
}

/// Parses the action of a command line: `info` (the default), or `read`
/// with the path of the file as third argument.
pub fn parse_action(args: &Vec<String>) -> (r: Result<Action, CmdError>)
    ensures
        action_name(args@) == "info"@ ==> r matches Ok(Action::Info()),
        action_name(args@) == "read"@ && args.len() > 2 ==> (r matches Ok(Action::Read(p)) && p@ == args@[2]@),
        action_name(args@) == "read"@ && args.len() <= 2 ==> (r matches Err(e) && is_error(
            e,
            ErrorKind::InvalidInput,
            crate::config::read::READ_ERROR@ + info::HELP_COMMAND@,
        )),
        action_name(args@) != "info"@ && action_name(args@) != "read"@ ==> (r matches Err(e) && is_error(
            e,
            ErrorKind::InvalidInput,
            "\n'"@ + action_name(args@) + "' is not a valid command"@ + info::HELP_COMMAND@,
        )),
{
    proof {
        reveal_strlit("info");
        reveal_strlit("read");
        assert("info"@[0] == 'i' && "read"@[0] == 'r');
    }
    let action = match get_args_parameter(args, 1, "") {
        Ok(v) => v,
        Err(_) => owned("info"),
    };
    if str_eq(action.as_str(), "info") {
        Ok(Action::Info())
    } else if str_eq(action.as_str(), "read") {
        let m = concat(crate::config::read::error_command(), info::help_command());
        match get_args_parameter(args, 2, m.as_str()) {
            Ok(p) => Ok(Action::Read(p)),
            Err(e) => Err(e),
        }
    } else {
        let mut m = concat("\n'", action.as_str());
        push_str(&mut m, "' is not a valid command");
        push_str(&mut m, info::help_command());
        Err(CmdError::new(ErrorKind::InvalidInput, m))
    }
}

} // verus!
