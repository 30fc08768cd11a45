//! Options of the `search` command.

use vstd::prelude::*;
use crate::commands::{CmdError, ErrorKind, OPTION_SEPARATOR};
use crate::foreign::{cpu_count, lowercase, to_lowercase};
use crate::text::{views, split_char, lowercase_all, contains_string, parse_usize, parse_usize_spec,
    split_spec, owned, str_eq};

verus! {

/// The number of worker threads to use on a machine with `cpus` CPUs: one
/// less than the CPUs, at least one.
pub open spec fn threads_for_spec(cpus: nat) -> nat {
    if cpus > 2 { (cpus - 1) as nat } else { 1 }
}

/// The number of worker threads to use on a machine with `cpus` CPUs: one
/// less than the CPUs, at least one.
pub fn threads_for(cpus: usize) -> (r: usize)
    ensures
        r == threads_for_spec(cpus as nat),
        r >= 1,
{
    if cpus > 2 { cpus - 1 } else { 1 }
}

/// The lowercase items of a list option such as `avi,MP4`.
pub open spec fn list_of(value: Seq<char>) -> Seq<Seq<char>> {
    split_spec(value, OPTION_SEPARATOR).map_values(|p: Seq<char>| lowercase(p))
}

/// The lowercase items of a list option such as `avi,MP4`.
pub fn list_from(value: &String) -> (r: Vec<String>)
    ensures
        views(r@) == list_of(value@),
{
    let pieces = split_char(value.as_str(), OPTION_SEPARATOR);
    lowercase_all(&pieces)
}

/// What the options of a search are.
pub struct SearchSettings {
    pub search_term: Seq<char>,
    pub display: Seq<char>,
    pub thread: nat,
    pub pause: nat,
    pub extensions: Seq<Seq<char>>,
    pub exclude_extensions: Seq<Seq<char>>,
    pub files: Seq<Seq<char>>,
    pub exclude_files: Seq<Seq<char>>,
    pub provider: Seq<char>,
}

/// Options of a search.
pub struct SearchOption {
    pub search_term: String,
    pub display: String,
    pub thread: usize,
    /// Pause between two files, in milliseconds.
    pub pause: usize,
    pub extensions: Vec<String>,
    pub exclude_extensions: Vec<String>,
    pub files: Vec<String>,
    pub exclude_files: Vec<String>,
    pub provider: String,
}

impl View for SearchOption {
    type V = SearchSettings;

    open spec fn view(&self) -> SearchSettings {
        SearchSettings {
            search_term: self.search_term@,
            display: self.display@,
            thread: self.thread as nat,
            pause: self.pause as nat,
            extensions: views(self.extensions@),
            exclude_extensions: views(self.exclude_extensions@),
            files: views(self.files@),
            exclude_files: views(self.exclude_files@),
            provider: self.provider@,
        }
    }
}

/// The options of a search before any command-line option applies.
pub open spec fn initial_search(search_term: Seq<char>, thread: nat) -> SearchSettings {
    SearchSettings {
        search_term,
        display: "all"@,
        thread,
        pause: 0,
        extensions: Seq::empty(),
        exclude_extensions: Seq::empty(),
        files: Seq::empty(),
        exclude_files: Seq::empty(),
        provider: "local"@,
    }
}

/// Whether a search looks into files with extension `e`.
pub open spec fn admits_extension(s: SearchSettings, e: Seq<char>) -> bool {
    s.extensions.len() == 0 || s.extensions.contains(lowercase(e))
}

/// Whether a search leaves out files with extension `e`.
pub open spec fn excludes_extension(s: SearchSettings, e: Seq<char>) -> bool {
    s.exclude_extensions.len() > 0 && e.len() > 0 && s.exclude_extensions.contains(e)
}

/// Whether a search looks into files named `f`.
pub open spec fn admits_file(s: SearchSettings, f: Seq<char>) -> bool {
    s.files.len() == 0 || f.len() == 0 || s.files.contains(f)
}

/// Whether a search leaves out files named `f`.
pub open spec fn excludes_file(s: SearchSettings, f: Seq<char>) -> bool {
    s.exclude_files.len() > 0 && f.len() > 0 && s.exclude_files.contains(f)
}

/// An error as a kind and a message.
pub type ErrView = (ErrorKind, Seq<char>);

/// The view of an error.
pub open spec fn err_view(e: CmdError) -> ErrView {
    (e.kind, e.message@)
}

/// The message of the error for an option that a command does not know.
pub open spec fn unknown_argument(key: Seq<char>) -> Seq<char> {
    "\nUnkown argument "@ + key + "\n"@
}

/// What one command-line option does to the options of a search.
pub open spec fn search_option_step(s: SearchSettings, key: Seq<char>, value: Seq<char>) -> Result<SearchSettings, ErrView> {
    if key == "display"@ {
        if value == "file-only"@ || value == "debug"@ {
            Ok(SearchSettings { display: value, ..s })
        } else {
            Err((ErrorKind::NotFound, "Unknown value for display"@))
        }
    } else if key == "pause"@ {
        match parse_usize_spec(value) {
            Some(n) => Ok(SearchSettings { pause: n, ..s }),
            None => Err((ErrorKind::NotFound, "Invalid value for pause"@)),
        }
    } else if key == "e"@ || key == "extensions"@ {
        Ok(SearchSettings { extensions: list_of(value), ..s })
    } else if key == "exclude-extensions"@ {
        Ok(SearchSettings { exclude_extensions: list_of(value), ..s })
    } else if key == "f"@ || key == "files"@ {
        Ok(SearchSettings { files: list_of(value), ..s })
    } else if key == "exclude-files"@ {
        Ok(SearchSettings { exclude_files: list_of(value), ..s })
    } else {
        Err((ErrorKind::InvalidInput, unknown_argument(key)))
    }
}

/// The options of a search after the command-line options apply, one after
/// the other; the first that fails gives the error.
pub open spec fn search_options_fold(s: SearchSettings, opts: Seq<(Seq<char>, Seq<char>)>) -> Result<SearchSettings, ErrView>
    decreases opts.len(),
{
    if opts.len() == 0 {
        Ok(s)
    } else {
        match search_option_step(s, opts[0].0, opts[0].1) {
            Ok(s2) => search_options_fold(s2, opts.drop_first()),
            Err(e) => Err(e),
        }
    }
}

impl Clone for SearchOption {
    fn clone(&self) -> (r: Self)
        ensures
            r@ == self@,
    {
        SearchOption {
            search_term: self.search_term.clone(),
            display: self.display.clone(),
            thread: self.thread,
            pause: self.pause,
            extensions: self.extensions.clone(),
            exclude_extensions: self.exclude_extensions.clone(),
            files: self.files.clone(),
            exclude_files: self.exclude_files.clone(),
            provider: self.provider.clone(),
        }
    }
}

impl SearchOption {
    /// The options of a search for `search_term`: display `all`, provider
    /// `local`, no filter, no pause, and one thread less than the CPUs (at
    /// least one).
    pub fn new(search_term: String) -> (r: Self)
        ensures
            r@ == initial_search(search_term@, r@.thread),
            r.thread >= 1,
    {
        let thread = threads_for(cpu_count());
        let r = SearchOption {
            search_term,
            display: owned("all"),
            thread,
            pause: 0,
            extensions: Vec::new(),
            exclude_extensions: Vec::new(),
            files: Vec::new(),
            exclude_files: Vec::new(),
            provider: owned("local"),
        };
        assert(views(r.extensions@) =~= Seq::<Seq<char>>::empty());
        assert(views(r.exclude_extensions@) =~= Seq::<Seq<char>>::empty());
        assert(views(r.files@) =~= Seq::<Seq<char>>::empty());
        assert(views(r.exclude_files@) =~= Seq::<Seq<char>>::empty());
        r
    }

    /// Sets the provider: `local` or `api`.
    pub fn set_provider(&mut self, value: &str) -> (r: Result<(), CmdError>)
        ensures
            (value@ == "local"@ || value@ == "api"@) ==> r is Ok && final(self)@
                == (SearchSettings { provider: value@, ..old(self)@ }),
            !(value@ == "local"@ || value@ == "api"@) ==> (r matches Err(e) && err_view(e) == (
                ErrorKind::NotFound,
                "Unknown value for provider"@,
            )) && final(self)@ == old(self)@,
    {
        if str_eq(value, "local") || str_eq(value, "api") {
            self.provider = owned(value);
            Ok(())
        } else {
            Err(CmdError::new(ErrorKind::NotFound, owned("Unknown value for provider")))
        }
    }

    /// Sets the number of threads: a decimal number, at least one.
    pub fn set_thread(&mut self, value: &String) -> (r: Result<(), CmdError>)
        ensures
            match parse_usize_spec(value@) {
                Some(n) => r is Ok && final(self)@ == (SearchSettings {
                    thread: if n >= 1 { n } else { 1 },
                    ..old(self)@
                }),
                None => (r matches Err(e) && err_view(e) == (ErrorKind::NotFound, "Invalid value for pause"@))
                    && final(self)@ == old(self)@,
            },
    {
        match parse_usize(value.as_str()) {
            Some(v) => {
                self.thread = if v >= 1 { v } else { 1 };
                Ok(())
            },
            None => Err(CmdError::new(ErrorKind::NotFound, owned("Invalid value for pause"))),
        }
    }

    /// Sets the pause between two files, in milliseconds.
    pub fn set_pause(&mut self, value: &String) -> (r: Result<(), CmdError>)
        ensures
            match parse_usize_spec(value@) {
                Some(n) => r is Ok && final(self)@ == (SearchSettings { pause: n, ..old(self)@ }),
                None => (r matches Err(e) && err_view(e) == (ErrorKind::NotFound, "Invalid value for pause"@))
                    && final(self)@ == old(self)@,
            },
    {
        match parse_usize(value.as_str()) {
            Some(v) => {
                self.pause = v;
                Ok(())
            },
            None => Err(CmdError::new(ErrorKind::NotFound, owned("Invalid value for pause"))),
        }
    }

    /// Sets the display: `file-only` or `debug`.
    pub fn set_display(&mut self, value: &String) -> (r: Result<(), CmdError>)
        ensures
            (value@ == "file-only"@ || value@ == "debug"@) ==> r is Ok && final(self)@
                == (SearchSettings { display: value@, ..old(self)@ }),
            !(value@ == "file-only"@ || value@ == "debug"@) ==> (r matches Err(e) && err_view(e)
                == (ErrorKind::NotFound, "Unknown value for display"@)) && final(self)@ == old(self)@,
    {
        if str_eq(value.as_str(), "file-only") || str_eq(value.as_str(), "debug") {
            self.display = value.clone();
            Ok(())
        } else {
            Err(CmdError::new(ErrorKind::NotFound, owned("Unknown value for display")))
        }
    }

    /// Searches only in files with these extensions (separated by `,`,
    /// compared in lowercase).
    pub fn extensions_from(&mut self, value: &String) -> (r: Result<(), CmdError>)
        ensures
            r is Ok,
            final(self)@ == (SearchSettings { extensions: list_of(value@), ..old(self)@ }),
    {
        self.extensions = list_from(value);
        Ok(())
    }

    /// Leaves out files with these extensions (separated by `,`).
    pub fn exclude_extensions_from(&mut self, value: &String) -> (r: Result<(), CmdError>)
        ensures
            r is Ok,
            final(self)@ == (SearchSettings { exclude_extensions: list_of(value@), ..old(self)@ }),
    {
        self.exclude_extensions = list_from(value);
        Ok(())
    }

    /// Searches only in files with these names (separated by `,`).
    pub fn files_from(&mut self, value: &String) -> (r: Result<(), CmdError>)
        ensures
            r is Ok,
            final(self)@ == (SearchSettings { files: list_of(value@), ..old(self)@ }),
    {
        self.files = list_from(value);
        Ok(())
    }

    /// Leaves out files with these names (separated by `,`).
    pub fn exclude_files_from(&mut self, value: &String) -> (r: Result<(), CmdError>)
        ensures
            r is Ok,
            final(self)@ == (SearchSettings { exclude_files: list_of(value@), ..old(self)@ }),
    {
        self.exclude_files = list_from(value);
        Ok(())
    }

    /// Whether the search looks into files with this extension: every
    /// extension when none is given.
    pub fn has_extension(&self, extension: &String) -> (r: bool)
        ensures
            r == admits_extension(self@, extension@),
    {
        if self.extensions.len() == 0 {
            return true;
        }
        let l = to_lowercase(extension.as_str());
        contains_string(&self.extensions, &l)
    }

    /// Whether the search leaves out files with this extension.
    pub fn is_extension_excluded(&self, extension: &String) -> (r: bool)
        ensures
            r == excludes_extension(self@, extension@),
    {
        if self.exclude_extensions.len() == 0 {
            return false;
        }
        if extension.as_str().is_empty() {
            return false;
        }
        contains_string(&self.exclude_extensions, extension)
    }

    /// Whether the search looks into files with this name: every name when
    /// none is given, and an empty name.
    pub fn has_file(&self, file_name: &String) -> (r: bool)
        ensures
            r == admits_file(self@, file_name@),
    {
        if self.files.len() == 0 {
            return true;
        }
        if file_name.as_str().is_empty() {
            return true;
        }
        contains_string(&self.files, file_name)
    }

    /// Whether the search leaves out files with this name.
    pub fn is_file_excluded(&self, file_name: &String) -> (r: bool)
        ensures
            r == excludes_file(self@, file_name@),
    {
        if self.exclude_files.len() == 0 {
            return false;
        }
        if file_name.as_str().is_empty() {
            return false;
        }
        contains_string(&self.exclude_files, file_name)
    }

    /// Applies one command-line option of the search command.
    pub fn apply_option(&mut self, key: &String, value: &String) -> (r: Result<(), CmdError>)
        ensures
            match search_option_step(old(self)@, key@, value@) {
                Ok(s) => r is Ok && final(self)@ == s,
                Err(e) => (r matches Err(x) && err_view(x) == e),
            },
    {
        proof {
            reveal_strlit("display");
            reveal_strlit("pause");
            reveal_strlit("e");
            reveal_strlit("extensions");
            reveal_strlit("exclude-extensions");
            reveal_strlit("f");
            reveal_strlit("files");
            reveal_strlit("exclude-files");
        }
        let k = key.as_str();
        if str_eq(k, "display") {
            self.set_display(value)
        } else if str_eq(k, "pause") {
            self.set_pause(value)
        } else if str_eq(k, "e") || str_eq(k, "extensions") {
            self.extensions_from(value)
        } else if str_eq(k, "exclude-extensions") {
            self.exclude_extensions_from(value)
        } else if str_eq(k, "f") || str_eq(k, "files") {
            self.files_from(value)
        } else if str_eq(k, "exclude-files") {
            self.exclude_files_from(value)
        } else {
            let m = crate::text::concat(crate::text::concat("\nUnkown argument ", k).as_str(), "\n");
            Err(CmdError::new(ErrorKind::InvalidInput, m))
        }
    }
}

/// No command-line option changes the search term.
pub proof fn lemma_fold_keeps_term(s: SearchSettings, opts: Seq<(Seq<char>, Seq<char>)>)
    ensures
        search_options_fold(s, opts) matches Ok(t) ==> t.search_term == s.search_term,
    decreases opts.len(),
{
    if opts.len() > 0 {
        match search_option_step(s, opts[0].0, opts[0].1) {
            Ok(s2) => lemma_fold_keeps_term(s2, opts.drop_first()),
            Err(_) => {},
        }
    }
}

/// A list option always has at least one item.
pub proof fn lemma_list_of_nonempty(value: Seq<char>)
    ensures
        list_of(value).len() >= 1,
{
    crate::text::lemma_split_nonempty(value, OPTION_SEPARATOR);
}

/// Once `extensions_from(value)` sets the extensions of a search, it looks
/// into files with extension `e` exactly when `e` in lowercase is one of the
/// lowercase items of `value`.
pub proof fn law_extension_filter(s: SearchSettings, value: Seq<char>, e: Seq<char>)
    ensures
        admits_extension(SearchSettings { extensions: list_of(value), ..s }, e) == list_of(value).contains(lowercase(e)),
{
    lemma_list_of_nonempty(value);
}

/// `-e` and `--extensions`, and `-f` and `--files`, are two names of one
/// option each: either sets the list from its value, and leaves the rest of
/// the options as they were.
pub proof fn law_search_option_names(s: SearchSettings, value: Seq<char>)
    ensures
        search_option_step(s, "extensions"@, value) == search_option_step(s, "e"@, value),
        search_option_step(s, "files"@, value) == search_option_step(s, "f"@, value),
        search_option_step(s, "e"@, value) matches Ok(n)
            && n == (SearchSettings { extensions: list_of(value), ..s }),
        search_option_step(s, "f"@, value) matches Ok(n)
            && n == (SearchSettings { files: list_of(value), ..s }),
        search_option_step(s, "exclude-extensions"@, value) matches Ok(n)
            && n == (SearchSettings { exclude_extensions: list_of(value), ..s }),
        search_option_step(s, "exclude-files"@, value) matches Ok(n)
            && n == (SearchSettings { exclude_files: list_of(value), ..s }),
{
    reveal_strlit("display");
    reveal_strlit("pause");
    reveal_strlit("e");
    reveal_strlit("extensions");
    reveal_strlit("exclude-extensions");
    reveal_strlit("f");
    reveal_strlit("files");
    reveal_strlit("exclude-files");
    assert("display"@.len() == 7);
    assert("pause"@.len() == 5);
    assert("e"@.len() == 1);
    assert("extensions"@.len() == 10);
    assert("exclude-extensions"@.len() == 18);
    assert("f"@.len() == 1);
    assert("files"@.len() == 5);
    assert("exclude-files"@.len() == 13);
    assert("display"@[0] == 'd');
    assert("pause"@[0] == 'p');
    assert("e"@[0] == 'e');
    assert("extensions"@[0] == 'e');
    assert("exclude-extensions"@[0] == 'e');
    assert("f"@[0] == 'f');
    assert("files"@[0] == 'f');
    assert("exclude-files"@[0] == 'e');
}

} // verus!
