//! The configuration of the first version of the command line: the action
//! it runs.

pub mod read;

use vstd::prelude::*;
use crate::commands::{CmdError, ErrorKind, is_error};
use crate::actions::{get_args_parameter, info};
use crate::text::{owned, concat, push_str, str_eq};

verus! {

/// The action a configuration runs.
pub enum AppConfigAction {
    /// Display the available actions.
    Info(),
    /// Display the content of the file at this path.
    Read(String),
}

/// The configuration of the program: the action it runs.
pub struct AppConfig {
    pub action: AppConfigAction,
}

impl AppConfig {
    /// The configuration that runs `action`.
    pub fn new(action: AppConfigAction) -> (r: Self)
        ensures
            r.action == action,
    {
        Self { action }
    }

    /// What running the configuration does: the lines of the available
    /// actions for `info`, the file to display for `read`.
    pub fn run(&self) -> (r: crate::actions::ActionRun)
        ensures
            self.action matches AppConfigAction::Info() ==> (r matches crate::actions::ActionRun::Print(l) && crate::text::views(l@) == info::info_lines()),
            self.action matches AppConfigAction::Read(p) ==> (r matches crate::actions::ActionRun::Display(q) && q@ == p@),
    {
        match &self.action {
            AppConfigAction::Info() => crate::actions::ActionRun::Print(info::Info {}.lines()),
            AppConfigAction::Read(p) => crate::actions::ActionRun::Display(p.clone()),
        }
    }
}

/// Parses the action of a command line: `info` (the default), or `read`
/// with the path of the file as third argument.
fn parse_action(args: &Vec<String>) -> (r: Result<AppConfigAction, CmdError>)
    ensures
        crate::actions::action_name(args@) == "info"@ ==> r matches Ok(AppConfigAction::Info()),
        crate::actions::action_name(args@) == "read"@ && args.len() > 2 ==> (r matches Ok(AppConfigAction::Read(p)) && p@ == args@[2]@),
        crate::actions::action_name(args@) == "read"@ && args.len() <= 2 ==> (r matches Err(e) && is_error(
            e,
            ErrorKind::InvalidInput,
            read::READ_ERROR@ + info::HELP_COMMAND@,
        )),
        crate::actions::action_name(args@) != "info"@ && crate::actions::action_name(args@) != "read"@ ==> (r matches Err(e) && is_error(
            e,
            ErrorKind::InvalidInput,
            "\n'"@ + crate::actions::action_name(args@) + "' is not a valid command"@ + info::HELP_COMMAND@,
        )),
{
    match crate::actions::parse_action(args) {
        Ok(crate::actions::Action::Info()) => Ok(AppConfigAction::Info()),
        Ok(crate::actions::Action::Read(p)) => Ok(AppConfigAction::Read(p)),
        Err(e) => Err(e),
    }
}

/// Parses a command line into the configuration that runs its action.
pub fn parse_args(args: &Vec<String>) -> (r: Result<AppConfig, CmdError>)
    ensures
        crate::actions::action_name(args@) == "info"@ ==> (r matches Ok(c) && c.action is Info),
        crate::actions::action_name(args@) == "read"@ && args.len() > 2 ==> (r matches Ok(c) && c.action matches AppConfigAction::Read(p) && p@ == args@[2]@),
        crate::actions::action_name(args@) == "read"@ && args.len() <= 2 ==> (r matches Err(e) && is_error(
            e,
            ErrorKind::InvalidInput,
            read::READ_ERROR@ + info::HELP_COMMAND@,
        )),
        crate::actions::action_name(args@) != "info"@ && crate::actions::action_name(args@) != "read"@ ==> (r matches Err(e) && is_error(
            e,
            ErrorKind::InvalidInput,
            "\n'"@ + crate::actions::action_name(args@) + "' is not a valid command"@ + info::HELP_COMMAND@,
        )),
{
    match parse_action(args) {
        Ok(a) => Ok(AppConfig::new(a)),
        Err(e) => Err(e),
    }
}

} // verus!
