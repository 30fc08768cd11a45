//! The `renamemovie` command: renames video files to "Title (year)".

use vstd::prelude::*;
use crate::commands::{CmdError, CmdOptions, ErrorKind, get_args_parameter, wants_help, asks_help,
    is_error, PathKind, Target};
use crate::commands::search::option::{err_view, ErrView, unknown_argument};
use crate::foreign::{lowercase, to_lowercase};
use crate::helpers::{option_views, get_extension, extension_of};
use crate::text::{owned, concat, push_str, str_eq, parse_usize, parse_usize_spec};

verus! {

/// Usage of this command.
pub const USAGE: &'static str = "\
renamemovie [OPTIONS] <file_path/dir_path>
Rename video file to \"Title (year)\"
    
--help
-p <string> --provider=<string>   allowed value: local (default), api
--cache-path=<string>   Cache path
";

/// # Rename video file to "Title (year)"
pub struct RenameMovie {
    /// The path of the file to rename.
    pub file_path: String,
    /// Command options.
    pub cmd_options: CmdOptions,
}

/// Options of the renamemovie command.
pub struct RenameMovieOption {
    pub provider: String,
}

impl RenameMovieOption {
    /// The options of a renaming: provider `local`.
    pub fn new() -> (r: Self)
        ensures
            r.provider@ == "local"@,
    {
        RenameMovieOption { provider: owned("local") }
    }

    /// Sets the provider: `local` or `api`.
    pub fn set_provider(&mut self, value: &str) -> (r: Result<(), CmdError>)
        ensures
            (value@ == "local"@ || value@ == "api"@) ==> r is Ok && final(self).provider@ == value@,
            !(value@ == "local"@ || value@ == "api"@) ==> (r matches Err(e) && err_view(e) == (
                ErrorKind::NotFound,
                "Unknown value for provider"@,
            )) && final(self).provider@ == old(self).provider@,
    {
        if str_eq(value, "local") || str_eq(value, "api") {
            self.provider = owned(value);
            Ok(())
        } else {
            Err(CmdError::new(ErrorKind::NotFound, owned("Unknown value for provider")))
        }
    }
}

/// Help message for this command.
pub fn usage() -> (r: &'static str)
    ensures
        r@ == USAGE@,
{
    USAGE
}

/// Returns RenameMovie from the command line: the path is the last argument.
pub fn build_cmd(args: &Vec<String>, options: CmdOptions) -> (r: Result<RenameMovie, CmdError>)
    requires
        args.len() >= 1,
    ensures
        r matches Ok(c) && c.file_path@ == args@.last()@ && c.cmd_options == options,
{
    let file_path = match get_args_parameter(args, args.len() - 1, "\nrenameMovie error: 'file_path' parameter required\n") {
        Ok(v) => owned(v),
        Err(_) => String::new(),
    };
    Ok(RenameMovie { file_path, cmd_options: options })
}

/// The provider after the command-line options `opts` apply one after the
/// other; the first option that fails gives the error.
pub open spec fn rename_options_fold(provider: Seq<char>, opts: Seq<(Seq<char>, Seq<char>)>) -> Result<Seq<char>, ErrView>
    decreases opts.len(),
{
    if opts.len() == 0 {
        Ok(provider)
    } else {
        let (k, v) = opts[0];
        if k == "p"@ || k == "provider"@ {
            if v == "local"@ || v == "api"@ {
                rename_options_fold(v, opts.drop_first())
            } else {
                Err((ErrorKind::NotFound, "Unknown value for provider"@))
            }
        } else {
            Err((ErrorKind::InvalidInput, unknown_argument(k)))
        }
    }
}

/// `--provider` is the long name of `-p`: an option given under either name
/// does the same. A `local` or `api` value becomes the provider, and the
/// options after it apply to that; any other value is refused.
pub proof fn law_provider_option(p: Seq<char>, v: Seq<char>, rest: Seq<(Seq<char>, Seq<char>)>)
    ensures
        rename_options_fold(p, seq![("provider"@, v)] + rest) == rename_options_fold(p, seq![("p"@, v)] + rest),
        (v == "local"@ || v == "api"@) ==> rename_options_fold(p, seq![("provider"@, v)] + rest)
            == rename_options_fold(v, rest),
        (v == "local"@ || v == "api"@) ==> rename_options_fold(p, seq![("provider"@, v)])
            == Ok::<Seq<char>, ErrView>(v),
        !(v == "local"@ || v == "api"@) ==> rename_options_fold(p, seq![("provider"@, v)] + rest)
            == Err::<Seq<char>, ErrView>((ErrorKind::NotFound, "Unknown value for provider"@)),
{
    let long = seq![("provider"@, v)] + rest;
    let short = seq![("p"@, v)] + rest;
    assert(long[0] == ("provider"@, v));
    assert(short[0] == ("p"@, v));
    assert(long.drop_first() =~= rest);
    assert(short.drop_first() =~= rest);
    let single = seq![("provider"@, v)];
    assert(single[0] == ("provider"@, v));
    assert(single.drop_first() =~= Seq::<(Seq<char>, Seq<char>)>::empty());
    assert(rename_options_fold(v, single.drop_first()) == Ok::<Seq<char>, ErrView>(v));
}

/// What running a renamemovie command does.
pub enum RenamePlan {
    /// Display the usage of the command.
    ShowUsage,
    /// Rename with these options.
    Run(RenameMovieOption),
}

impl RenameMovie {
    /// What running the command does: the usage when the options ask for
    /// help; otherwise the options apply one after the other to the default
    /// ones, and the first that fails gives the error.
    pub fn configure(&self) -> (r: Result<RenamePlan, CmdError>)
        ensures
            asks_help(self.cmd_options@) ==> r matches Ok(RenamePlan::ShowUsage),
            !asks_help(self.cmd_options@) ==> match rename_options_fold("local"@, option_views(self.cmd_options@)) {
                Ok(p) => (r matches Ok(RenamePlan::Run(o)) && o.provider@ == p),
                Err(e) => (r matches Err(x) && err_view(x) == e),
            },
    {
        proof {
            reveal_strlit("p");
            reveal_strlit("provider");
        }
        if wants_help(&self.cmd_options) {
            return Ok(RenamePlan::ShowUsage);
        }
        let mut opt = RenameMovieOption::new();
        let ghost opts = option_views(self.cmd_options@);
        let mut i: usize = 0;
        assert(opts.skip(0) =~= opts);
        while i < self.cmd_options.len()
            invariant
                i <= self.cmd_options.len(),
                !asks_help(self.cmd_options@),
                opts == option_views(self.cmd_options@),
                rename_options_fold("local"@, opts) == rename_options_fold(opt.provider@, opts.skip(i as int)),
            decreases self.cmd_options.len() - i,
        {
            assert(opts.skip(i as int)[0] == opts[i as int]);
            assert(opts[i as int] == (self.cmd_options@[i as int].0@, self.cmd_options@[i as int].1@));
            assert(opts.skip(i as int).drop_first() =~= opts.skip(i + 1));
            let k = self.cmd_options[i].0.as_str();
            if str_eq(k, "p") || str_eq(k, "provider") {
                match opt.set_provider(self.cmd_options[i].1.as_str()) {
                    Ok(()) => {},
                    Err(e) => {
                        return Err(e);
                    },
                }
            } else {
                let m = concat(concat("\nUnkown argument ", k).as_str(), "\n");
                return Err(CmdError::new(ErrorKind::InvalidInput, m));
            }
            i = i + 1;
        }
        assert(opts.skip(i as int) =~= Seq::<(Seq<char>, Seq<char>)>::empty());
        Ok(RenamePlan::Run(opt))
    }
}

/// What a renaming does with its path, `kind` being what the file system
/// reports there: a directory or a file is renamed; any other path is an
/// error.
pub fn rename_target(file_path: &String, kind: &Result<PathKind, String>) -> (r: Result<Target, CmdError>)
    ensures
        *kind == Ok::<PathKind, String>(PathKind::Dir) ==> r == Ok::<Target, CmdError>(Target::Dir),
        *kind == Ok::<PathKind, String>(PathKind::File) ==> r == Ok::<Target, CmdError>(Target::File),
        !(*kind == Ok::<PathKind, String>(PathKind::File) || *kind == Ok::<PathKind, String>(PathKind::Dir)) ==> (r matches Err(e) && is_error(
            e,
            ErrorKind::AddrInUse,
            "\nCannot rename file "@ + file_path@ + "\n"@,
        )),
{
    match kind {
        Ok(PathKind::Dir) => Ok(Target::Dir),
        Ok(PathKind::File) => Ok(Target::File),
        _ => {
            let mut m = concat("\nCannot rename file ", file_path.as_str());
            push_str(&mut m, "\n");
            Err(CmdError::new(ErrorKind::AddrInUse, m))
        },
    }
}

/// The movie a user chose among those a provider found, each a title and a
/// year: with more than one, `answer` is the number the user typed (empty
/// to pass the file over); with one, that one; with none, an error.
pub open spec fn chosen_movie(videos: Seq<(Seq<char>, Seq<char>)>, answer: Seq<char>, file_name: Seq<char>) -> Result<(Seq<char>, Seq<char>), ErrView> {
    if videos.len() > 1 {
        if answer.len() == 0 {
            Ok((Seq::empty(), Seq::empty()))
        } else {
            match parse_usize_spec(answer) {
                Some(n) if n < videos.len() => Ok(videos[n as int]),
                _ => Err((ErrorKind::InvalidInput, "Invalid index"@)),
            }
        }
    } else if videos.len() == 1 {
        Ok(videos[0])
    } else {
        Err((ErrorKind::InvalidInput, "No information from providers found for "@ + file_name))
    }
}

/// The movie a user chose among those a provider found for `file_name`.
pub fn choose_movie(videos: &Vec<(String, String)>, answer: &String, file_name: &String) -> (r: Result<(String, String), CmdError>)
    ensures
        match chosen_movie(option_views(videos@), answer@, file_name@) {
            Ok(m) => (r matches Ok(x) && x.0@ == m.0 && x.1@ == m.1),
            Err(e) => (r matches Err(x) && err_view(x) == e),
        },
{
    let ghost vs = option_views(videos@);
    if videos.len() > 1 {
        if answer.as_str().is_empty() {
            return Ok((String::new(), String::new()));
        }
        match parse_usize(answer.as_str()) {
            Some(n) if n < videos.len() => {
                assert(vs[n as int] == (videos@[n as int].0@, videos@[n as int].1@));
                Ok((videos[n].0.clone(), videos[n].1.clone()))
            },
            _ => Err(CmdError::new(ErrorKind::InvalidInput, owned("Invalid index"))),
        }
    } else if videos.len() == 1 {
        assert(vs[0] == (videos@[0].0@, videos@[0].1@));
        Ok((videos[0].0.clone(), videos[0].1.clone()))
    } else {
        Err(CmdError::new(ErrorKind::InvalidInput, concat("No information from providers found for ", file_name.as_str())))
    }
}

/// The name `Title (year).ext`.
pub open spec fn movie_name(title: Seq<char>, year: Seq<char>, extension: Seq<char>) -> Seq<char> {
    title + " ("@ + year + ")."@ + extension
}

/// The name `Title (year).ext`.
pub fn make_movie_name(title: &str, year: &str, extension: &str) -> (r: String)
    ensures
        r@ == movie_name(title@, year@, extension@),
{
    let mut r = concat(title, " (");
    push_str(&mut r, year);
    push_str(&mut r, ").");
    push_str(&mut r, extension);
    r
}

/// Whether two names are the same but for case.
pub fn same_name(a: &str, b: &str) -> (r: bool)
    ensures
        r == (lowercase(a@) == lowercase(b@)),
{
    let la = to_lowercase(a);
    let lb = to_lowercase(b);
    str_eq(la.as_str(), lb.as_str())
}

/// Whether the file `file_name` already has the name its title and year
/// give, with its extension in lowercase.
pub fn already_named(file_name: &String, title: &String, year: &String) -> (r: bool)
    ensures
        r == (lowercase(file_name@) == lowercase(movie_name(title@, year@, lowercase(extension_of(file_name@))))),
{
    let e = to_lowercase(get_extension(file_name.as_str()).as_str());
    let n = make_movie_name(title.as_str(), year.as_str(), e.as_str());
    same_name(file_name.as_str(), n.as_str())
}

/// The title and year a file is renamed with: those the provider gave, when
/// it gave both; else those read from the file name.
pub fn title_year(title: String, year: String, provided: Option<(String, String)>) -> (r: (String, String))
    ensures
        match provided {
            Some(p) if p.0@.len() > 0 && p.1@.len() > 0 => r.0@ == p.0@ && r.1@ == p.1@,
            _ => r.0@ == title@ && r.1@ == year@,
        },
{
    match provided {
        Some(p) if !p.0.as_str().is_empty() && !p.1.as_str().is_empty() => p,
        _ => (title, year),
    }
}

/// What a renaming does with a video file.
pub enum Renaming {
    /// No year is known: pass the file over.
    Skip,
    /// The file already has its new name.
    Keep,
    /// Rename the file to this name.
    Rename(String),
}

/// What a renaming does with the video file `file_name`, given its title
/// and year: without a year (`0` or empty) it is passed over; otherwise it
/// is renamed `Title (year).ext`, the extension in lowercase, unless it has
/// that name already but for case.
pub fn renaming(file_name: &String, title: &String, year: &String) -> (r: Renaming)
    ensures
        (year@ == "0"@ || year@.len() == 0) ==> r is Skip,
        !(year@ == "0"@ || year@.len() == 0) ==> ({
            let n = movie_name(title@, year@, lowercase(lowercase(extension_of(file_name@))));
            &&& lowercase(file_name@) == lowercase(n) ==> r is Keep
            &&& lowercase(file_name@) != lowercase(n) ==> (r matches Renaming::Rename(m) && m@ == n)
        }),
{
    if str_eq(year.as_str(), "0") || year.as_str().is_empty() {
        return Renaming::Skip;
    }
    let e = to_lowercase(get_extension(file_name.as_str()).as_str());
    let e2 = to_lowercase(e.as_str());
    let n = make_movie_name(title.as_str(), year.as_str(), e2.as_str());
    if same_name(file_name.as_str(), n.as_str()) {
        Renaming::Keep
    } else {
        Renaming::Rename(n)
    }
}

} // verus!
