//! The application: one runnable command.

use vstd::prelude::*;
use crate::commands::{CmdError, Command, Runnable, parse_command, has_option, command_name,
    ErrorKind, is_error, unknown_command_message};
use crate::helpers::{parse_command_option, options_of, option_views};
use crate::text::views;

verus! {

/// The application: the command it runs.
pub struct App {
    pub action: Box<dyn Runnable>,
}

impl App {
    /// An application that runs `action`.
    pub fn new(action: Box<dyn Runnable>) -> (app: App)
        ensures
            app.action =~~= action,
    {
        App { action }
    }

    /// Runs the command of the application, and fails as it fails.
    pub fn run(&self) -> (r: Result<(), CmdError>) {
        self.action.run()?;
        Ok(())
    }
}

/// How the program starts from its command line.
pub enum StartPlan {
    /// Print the version of the program and stop.
    ShowVersion,
    /// Run this command.
    Run(Command),
}

/// How the program starts from its command line: it prints its version
/// when the options hold `version`; otherwise it runs the command the
/// arguments name, with the options of the command line.
pub fn plan_start(args: &Vec<String>) -> (r: Result<StartPlan, CmdError>)
    ensures
        has_option_named(options_of(views(args@)), "version"@) ==> r matches Ok(StartPlan::ShowVersion),
        !has_option_named(options_of(views(args@)), "version"@) ==> ({
            let n = command_name(args@);
            let o = options_of(views(args@));
            &&& n == "help"@ ==> (r matches Ok(StartPlan::Run(Command::Help(_))))
            &&& n == "read"@ ==> (r matches Ok(StartPlan::Run(Command::Read(c)))
                && c.file_path@ == args@.last()@ && option_views(c.cmd_options@) == o)
            &&& n == "search"@ ==> (r matches Ok(StartPlan::Run(Command::Search(c)))
                && c.file_path@ == args@[args.len() - 2]@ && c.search_term@ == args@.last()@
                && option_views(c.cmd_options@) == o)
            &&& n == "info"@ ==> (if args@.last()@.len() == 0 {
                (r matches Err(e) && is_error(e, ErrorKind::InvalidInput, crate::commands::info::FILE_PATH_REQUIRED@))
            } else {
                (r matches Ok(StartPlan::Run(Command::Info(c))) && c.file_path@ == args@.last()@
                    && option_views(c.cmd_options@) == o)
            })
            &&& n == "mserv"@ ==> (r matches Ok(StartPlan::Run(Command::Mserv(c))) && option_views(c.cmd_options@) == o)
            &&& (n != "help"@ && n != "read"@ && n != "search"@ && n != "info"@ && n != "mserv"@)
                ==> (r matches Err(e) && is_error(e, ErrorKind::InvalidInput, unknown_command_message(n)))
        }),
{
    let options = parse_command_option(args);
    if crate::commands::contains_option(&options, "version") {
        proof { lemma_has_option(options@, "version"@); }
        return Ok(StartPlan::ShowVersion);
    }
    proof { lemma_has_option(options@, "version"@); }
    match parse_command(args, options) {
        Ok(c) => Ok(StartPlan::Run(c)),
        Err(e) => Err(e),
    }
}

/// Whether an option named `k` is among `o`.
pub open spec fn has_option_named(o: Seq<(Seq<char>, Seq<char>)>, k: Seq<char>) -> bool {
    exists|i: int| 0 <= i < o.len() && #[trigger] o[i].0 == k
}

proof fn lemma_has_option(o: Seq<(String, String)>, k: Seq<char>)
    ensures
        has_option(o, k) == has_option_named(option_views(o), k),
{
    if has_option(o, k) {
        let i = choose|i: int| 0 <= i < o.len() && #[trigger] o[i].0@ == k;
        assert(option_views(o)[i].0 == k);
    }
    if has_option_named(option_views(o), k) {
        let i = choose|i: int| 0 <= i < option_views(o).len() && #[trigger] option_views(o)[i].0 == k;
        assert(o[i].0@ == k);
    }
}

} // verus!
