//! Commands of the `oms` program and what they share: the error type, the
//! `Runnable` trait, command-line arguments and options.

pub mod help;
pub mod read;
pub mod search;
pub mod info;
pub mod mserv;
pub mod transcode;
pub mod renamemovie;

use vstd::prelude::*;
use crate::text::{concat, str_eq, owned};

verus! {

/// What kind of failure an error reports.
#[derive(Debug, Clone, Copy, PartialEq, Eq, Structural)]
pub enum ErrorKind {
    InvalidInput,
    NotFound,
    AddrInUse,
    AddrNotAvailable,
    PermissionDenied,
    Unsupported,
    WouldBlock,
    Other,
}

/// An error of a command: its kind and its message.
#[derive(Debug)]
pub struct CmdError {
    pub kind: ErrorKind,
    pub message: String,
}

impl CmdError {
    /// An error of the given kind and message.
    pub fn new(kind: ErrorKind, message: String) -> (e: CmdError)
        ensures
            e.kind == kind,
            e.message == message,
    {
        CmdError { kind, message }
    }

    /// The message of the error, as it is displayed.
    pub fn to_string(&self) -> (s: String)
        ensures
            s@ == self.message@,
    {
        self.message.clone()
    }
}

/// An error of the given kind whose message is the characters of `m`.
pub open spec fn is_error(e: CmdError, kind: ErrorKind, m: Seq<char>) -> bool {
    e.kind == kind && e.message@ == m
}

/// All commands implement this trait.
pub trait Runnable {
    fn run(&self) -> Result<(), CmdError>;
}

/// Separator of the values of a list option, such as `--extensions=avi,mp4`.
pub const OPTION_SEPARATOR: char = ',';

/// Options of a command line, as (name, value) pairs; a name occurs once.
pub type CmdOptions = Vec<(String, String)>;

/// Whether an option named `k` is among `o`.
pub open spec fn has_option(o: Seq<(String, String)>, k: Seq<char>) -> bool {
    exists|i: int| 0 <= i < o.len() && #[trigger] o[i].0@ == k
}

/// Whether the options ask for the help of a command (`-h` or `--help`).
pub open spec fn asks_help(o: Seq<(String, String)>) -> bool {
    has_option(o, "h"@) || has_option(o, "help"@)
}

/// Whether an option named `key` is among `options`.
pub fn contains_option(options: &CmdOptions, key: &str) -> (r: bool)
    ensures
        r == has_option(options@, key@),
{
    let mut i: usize = 0;
    while i < options.len()
        invariant
            i <= options.len(),
            forall|k: int| 0 <= k < i ==> options@[k].0@ != key@,
        decreases options.len() - i,
    {
        if str_eq(options[i].0.as_str(), key) {
            return true;
        }
        i = i + 1;
    }
    false
}

/// Whether the options ask for the help of a command (`-h` or `--help`).
pub fn wants_help(options: &CmdOptions) -> (r: bool)
    ensures
        r == asks_help(options@),
{
    contains_option(options, "h") || contains_option(options, "help")
}

/// The item of `args` at `index`; `error_message` is the message of the
/// error when there is none.
///
/// ```text
/// args = ["oms", "info"]
/// get_args_parameter(&args, 1, "") == Ok("info")
/// get_args_parameter(&args, 2, "e") is an error with message "e"
/// ```
pub fn get_args_parameter<'a>(args: &'a Vec<String>, index: usize, error_message: &str) -> (r:
    Result<&'a str, CmdError>)
    ensures
        match r {
            Ok(v) => index < args.len() && v@ == args@[index as int]@,
            Err(e) => index >= args.len() && is_error(e, ErrorKind::InvalidInput, error_message@),
        },
{
    if index < args.len() {
        Ok(args[index].as_str())
    } else {
        Err(CmdError::new(ErrorKind::InvalidInput, owned(error_message)))
    }
}

/// A parsed command of the program.
pub enum Command {
    Help(help::Help),
    Read(read::Read),
    Search(search::Search),
    Info(info::Info),
    Mserv(mserv::Mserv),
}

/// The name of the command of a command line: its second argument, `help`
/// when there is none.
pub open spec fn command_name(args: Seq<String>) -> Seq<char> {
    if args.len() > 1 { args[1]@ } else { "help"@ }
}

/// The message of the error for an unknown command.
pub open spec fn unknown_command_message(name: Seq<char>) -> Seq<char> {
    "'"@ + name + "' is not a valid command"@ + help::HELP_COMMAND@
}

/// Parses the command line: the command named by the second argument
/// (`help` when there is none) built from the arguments and options.
///
/// ```text
/// parse_command(["cmd", "help"], []) is Ok(Command::Help(..))
/// parse_command(["cmd", "unknown_command"], []) is an error whose message
///     contains "unknown_command"
/// ```
pub fn parse_command(args: &Vec<String>, options: CmdOptions) -> (r: Result<Command, CmdError>)
    ensures
        command_name(args@) == "help"@ ==> r matches Ok(Command::Help(_)),
        command_name(args@) == "read"@ ==> (r matches Ok(Command::Read(c)) && c.file_path@
            == args@.last()@ && c.cmd_options == options),
        command_name(args@) == "search"@ ==> (r matches Ok(Command::Search(c)) && c.file_path@
            == args@[args.len() - 2]@ && c.search_term@ == args@.last()@ && c.cmd_options
            == options),
        command_name(args@) == "info"@ ==> (if args@.last()@.len() == 0 {
            (r matches Err(e) && is_error(e, ErrorKind::InvalidInput, info::FILE_PATH_REQUIRED@))
        } else {
            (r matches Ok(Command::Info(c)) && c.file_path@ == args@.last()@ && c.cmd_options
                == options)
        }),
        command_name(args@) == "mserv"@ ==> (r matches Ok(Command::Mserv(c)) && c.cmd_options
            == options),
        command_name(args@) != "help"@ && command_name(args@) != "read"@ && command_name(args@)
            != "search"@ && command_name(args@) != "info"@ && command_name(args@) != "mserv"@
            ==> (r matches Err(e) && is_error(
            e,
            ErrorKind::InvalidInput,
            unknown_command_message(command_name(args@)),
        )),
{
    proof {
        reveal_strlit("help");
        reveal_strlit("read");
        reveal_strlit("search");
        reveal_strlit("info");
        reveal_strlit("mserv");
    }
    let cmd = match get_args_parameter(args, 1, "") {
        Ok(v) => v,
        Err(_) => "help",
    };
    assert(cmd@ == command_name(args@));
    assert("help"@[0] == 'h' && "read"@[0] == 'r' && "search"@[0] == 's' && "info"@[0] == 'i'
        && "mserv"@[0] == 'm');
    if str_eq(cmd, "help") {
        match help::build_cmd(args, options) {
            Ok(c) => Ok(Command::Help(c)),
            Err(e) => Err(e),
        }
    } else if str_eq(cmd, "read") {
        match read::build_cmd(args, options) {
            Ok(c) => Ok(Command::Read(c)),
            Err(e) => Err(e),
        }
    } else if str_eq(cmd, "search") {
        match search::build_cmd(args, options) {
            Ok(c) => Ok(Command::Search(c)),
            Err(e) => Err(e),
        }
    } else if str_eq(cmd, "info") {
        match info::build_cmd(args, options) {
            Ok(c) => Ok(Command::Info(c)),
            Err(e) => Err(e),
        }
    } else if str_eq(cmd, "mserv") {
        match mserv::build_cmd(args, options) {
            Ok(c) => Ok(Command::Mserv(c)),
            Err(e) => Err(e),
        }
    } else {
        let m = concat(concat(concat("'", cmd).as_str(), "' is not a valid command").as_str(), help::help_command());
        Err(CmdError::new(ErrorKind::InvalidInput, m))
    }
}

/// What is at a path, as the file system reports it.
#[derive(Debug, Clone, Copy, PartialEq, Eq, Structural)]
pub enum PathKind {
    File,
    Dir,
    Other,
}

/// What a command does with a path.
#[derive(Debug, Clone, Copy, PartialEq, Eq, Structural)]
pub enum Target {
    /// Process this file.
    File,
    /// Process the files under this directory.
    Dir,
}

/// What a command does with a path of its `list` option: files and
/// directories are processed, anything else is passed over.
pub fn list_target(kind: &Result<PathKind, String>) -> (r: Option<Target>)
    ensures
        *kind == Ok::<PathKind, String>(PathKind::File) ==> r == Some(Target::File),
        *kind == Ok::<PathKind, String>(PathKind::Dir) ==> r == Some(Target::Dir),
        !(*kind == Ok::<PathKind, String>(PathKind::File) || *kind == Ok::<PathKind, String>(PathKind::Dir)) ==> r is None,
{
    match kind {
        Ok(PathKind::Dir) => Some(Target::Dir),
        Ok(PathKind::File) => Some(Target::File),
        _ => None,
    }
}

/// The error for an unknown command names the command: its message holds
/// the name that was given.
pub proof fn law_unknown_command_named(name: Seq<char>)
    ensures
        crate::text::contains_sub(unknown_command_message(name), name),
{
    reveal_strlit("'");
    let m = unknown_command_message(name);
    assert(m.subrange(1, 1 + name.len() as int) =~= name);
    assert(crate::text::occurs_at(m, name, 1));
}

} // verus!
