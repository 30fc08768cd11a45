//! Options of the `info` command.

use vstd::prelude::*;
use crate::commands::{CmdError, ErrorKind};
use crate::commands::search::option::{threads_for, err_view, ErrView, unknown_argument};
use crate::foreign::cpu_count;
use crate::helpers::{Elastic, rtrim_slash, strip_last};
use crate::text::{views, owned, str_eq, trim, trim_spec, parse_usize, parse_usize_spec};

verus! {

/// What the options of an info command are.
pub struct InfoSettings {
    pub base_path: Seq<char>,
    pub list: Seq<Seq<char>>,
    pub display_preview: bool,
    /// URL of the Elastic server, when there is one.
    pub elastic: Option<Seq<char>>,
    pub thread: nat,
    pub provider: Seq<char>,
}

/// Options of an info command.
pub struct InfoOption {
    pub base_path: String,
    pub list: Vec<String>,
    pub display_preview: bool,
    pub elastic: Option<Elastic>,
    pub thread: usize,
    pub provider: String,
}

/// The URL of an Elastic connection, when there is one.
pub open spec fn elastic_view(e: Option<Elastic>) -> Option<Seq<char>> {
    match e {
        Some(c) => Some(c.url@),
        None => None,
    }
}

impl View for InfoOption {
    type V = InfoSettings;

    open spec fn view(&self) -> InfoSettings {
        InfoSettings {
            base_path: self.base_path@,
            list: views(self.list@),
            display_preview: self.display_preview,
            elastic: elastic_view(self.elastic),
            thread: self.thread as nat,
            provider: self.provider@,
        }
    }
}

/// The options of an info command before any command-line option applies.
pub open spec fn initial_info(thread: nat) -> InfoSettings {
    InfoSettings {
        base_path: Seq::empty(),
        list: Seq::empty(),
        display_preview: true,
        elastic: None,
        thread,
        provider: "api"@,
    }
}

/// What a command-line option of the info command gets from outside.
pub enum InfoInput {
    /// Nothing.
    Nothing,
    /// The lines of the file that a `list` option names (`None` when it
    /// could not be read).
    Lines(Option<Vec<String>>),
    /// The connection to the server that an `elastic-url` option names.
    Server(Result<Elastic, CmdError>),
}

/// The view of what an option gets from outside.
pub enum InfoInputView {
    Nothing,
    Lines(Option<Seq<Seq<char>>>),
    Server(Result<Seq<char>, ErrView>),
}

/// The view of what an option gets from outside.
pub open spec fn input_view(i: InfoInput) -> InfoInputView {
    match i {
        InfoInput::Nothing => InfoInputView::Nothing,
        InfoInput::Lines(Some(v)) => InfoInputView::Lines(Some(views(v@))),
        InfoInput::Lines(None) => InfoInputView::Lines(None),
        InfoInput::Server(Ok(c)) => InfoInputView::Server(Ok(c.url@)),
        InfoInput::Server(Err(e)) => InfoInputView::Server(Err(err_view(e))),
    }
}

/// What an option needs from outside: the lines of a file for `list`, a
/// connection for `elastic-url`.
pub open spec fn input_fits(key: Seq<char>, i: InfoInputView) -> bool {
    &&& key == "list"@ ==> i is Lines
    &&& key == "elastic-url"@ ==> i is Server
}

/// What one command-line option does to the options of an info command
/// and to the path it runs on: a `list` option adds the lines of its file
/// to the list and empties the path.
pub open spec fn info_option_step(s: InfoSettings, path: Seq<char>, key: Seq<char>, value: Seq<char>, input: InfoInputView) -> Result<(InfoSettings, Seq<char>), ErrView> {
    if key == "p"@ || key == "provider"@ {
        if value == "local"@ || value == "api"@ {
            Ok((InfoSettings { provider: value, ..s }, path))
        } else {
            Err((ErrorKind::NotFound, "Unknown value for provider"@))
        }
    } else if key == "hide-preview"@ {
        Ok((InfoSettings { display_preview: false, ..s }, path))
    } else if key == "elastic-url"@ {
        match input {
            InfoInputView::Server(Ok(url)) => Ok((InfoSettings { elastic: Some(url), ..s }, path)),
            InfoInputView::Server(Err(e)) => Err(e),
            _ => Ok((s, path)),
        }
    } else if key == "t"@ || key == "thread"@ {
        match parse_usize_spec(value) {
            Some(n) => Ok((InfoSettings { thread: n, ..s }, path)),
            None => Err((ErrorKind::NotFound, "Invalid value for thread"@)),
        }
    } else if key == "list"@ {
        match input {
            InfoInputView::Lines(Some(l)) => Ok((InfoSettings { list: s.list + l, ..s }, Seq::empty())),
            InfoInputView::Lines(None) => Err((ErrorKind::NotFound, "Unknown value for list"@)),
            _ => Ok((s, Seq::empty())),
        }
    } else {
        Err((ErrorKind::InvalidInput, unknown_argument(key)))
    }
}

/// The options of an info command and its path after the command-line
/// options `opts` apply one after the other, `inputs[i]` being what option
/// `i` gets from outside; the first option that fails gives the error.
pub open spec fn info_options_fold(s: InfoSettings, path: Seq<char>, opts: Seq<(Seq<char>, Seq<char>)>, inputs: Seq<InfoInputView>) -> Result<(InfoSettings, Seq<char>), ErrView>
    decreases opts.len(),
{
    if opts.len() == 0 {
        Ok((s, path))
    } else {
        match info_option_step(s, path, opts[0].0, opts[0].1, inputs[0]) {
            Ok(n) => info_options_fold(n.0, n.1, opts.drop_first(), inputs.drop_first()),
            Err(e) => Err(e),
        }
    }
}

impl InfoOption {
    /// The options of an info command: no base path, no list, preview
    /// shown, no Elastic server, provider `api`, and one thread less than
    /// the CPUs (at least one).
    pub fn new() -> (r: Self)
        ensures
            r@ == initial_info(r@.thread),
            r.thread >= 1,
    {
        let r = InfoOption {
            base_path: String::new(),
            list: Vec::new(),
            display_preview: true,
            elastic: None,
            thread: threads_for(cpu_count()),
            provider: owned("api"),
        };
        assert(views(r.list@) =~= Seq::<Seq<char>>::empty());
        r
    }

    /// Sets the provider: `local` or `api`.
    pub fn set_provider(&mut self, value: &str) -> (r: Result<(), CmdError>)
        ensures
            (value@ == "local"@ || value@ == "api"@) ==> r is Ok && final(self)@
                == (InfoSettings { provider: value@, ..old(self)@ }),
            !(value@ == "local"@ || value@ == "api"@) ==> (r matches Err(e) && err_view(e) == (
                ErrorKind::NotFound,
                "Unknown value for provider"@,
            )) && final(self)@ == old(self)@,
    {
        if str_eq(value, "local") || str_eq(value, "api") {
            self.provider = owned(value);
            Ok(())
        } else {
            Err(CmdError::new(ErrorKind::NotFound, owned("Unknown value for provider")))
        }
    }

    /// Sets the base path from the path `value`, when it is a directory
    /// (`is_dir`): without a trailing `/`, trimmed. Otherwise nothing
    /// changes.
    pub fn set_basepath(&mut self, value: &String, is_dir: bool) -> (r: Result<(), CmdError>)
        ensures
            r is Ok,
            is_dir ==> final(self)@ == (InfoSettings { base_path: trim_spec(strip_last(value@, '/')), ..old(self)@ }),
            !is_dir ==> final(self)@ == old(self)@,
    {
        if is_dir {
            let t = rtrim_slash(value);
            self.base_path = trim(t.as_str());
        }
        Ok(())
    }

    /// Hides the preview of what is found.
    pub fn hide_preview(&mut self)
        ensures
            final(self)@ == (InfoSettings { display_preview: false, ..old(self)@ }),
    {
        self.display_preview = false;
    }

    /// Adds the lines of a list file (`None` when it could not be read) to
    /// the files to look at.
    pub fn set_list(&mut self, lines: Option<Vec<String>>) -> (r: Result<(), CmdError>)
        ensures
            match lines {
                Some(l) => r is Ok && final(self)@ == (InfoSettings { list: old(self)@.list + views(l@), ..old(self)@ }),
                None => (r matches Err(e) && err_view(e) == (ErrorKind::NotFound, "Unknown value for list"@))
                    && final(self)@ == old(self)@,
            },
    {
        match lines {
            Some(ls) => {
                let ghost l0 = old(self)@.list;
                let mut i: usize = 0;
                assert(views(ls@).take(0) =~= Seq::<Seq<char>>::empty());
                assert(l0 + views(ls@).take(0) =~= l0);
                while i < ls.len()
                    invariant
                        i <= ls.len(),
                        self@ == (InfoSettings { list: l0 + views(ls@).take(i as int), ..old(self)@ }),
                    decreases ls.len() - i,
                {
                    let ghost before = self.list@;
                    let line = ls[i].clone();
                    self.list.push(line);
                    assert(views(self.list@) =~= views(before).push(ls@[i as int]@));
                    assert(views(self.list@) =~= l0 + views(ls@).take(i + 1));
                    i = i + 1;
                }
                assert(views(ls@).take(ls.len() as int) =~= views(ls@));
                Ok(())
            },
            None => Err(CmdError::new(ErrorKind::NotFound, owned("Unknown value for list"))),
        }
    }

    /// Sets the Elastic server from the connection to it, or fails as the
    /// connection did.
    pub fn set_elastic(&mut self, elastic: Result<Elastic, CmdError>) -> (r: Result<(), CmdError>)
        ensures
            match elastic {
                Ok(c) => r is Ok && final(self)@ == (InfoSettings { elastic: Some(c.url@), ..old(self)@ }),
                Err(e) => (r matches Err(x) && err_view(x) == err_view(e)) && final(self)@ == old(self)@,
            },
    {
        match elastic {
            Ok(c) => {
                self.elastic = Some(c);
                Ok(())
            },
            Err(e) => Err(e),
        }
    }

    /// Sets the number of threads: a decimal number.
    pub fn set_thread(&mut self, value: &String) -> (r: Result<(), CmdError>)
        ensures
            match parse_usize_spec(value@) {
                Some(n) => r is Ok && final(self)@ == (InfoSettings { thread: n, ..old(self)@ }),
                None => (r matches Err(e) && err_view(e) == (ErrorKind::NotFound, "Invalid value for thread"@))
                    && final(self)@ == old(self)@,
            },
    {
        match parse_usize(value.as_str()) {
            Some(v) => {
                self.thread = v;
                Ok(())
            },
            None => Err(CmdError::new(ErrorKind::NotFound, owned("Invalid value for thread"))),
        }
    }

    /// Applies one command-line option of the info command to the options
    /// and to the path it runs on, `input` being what the option gets from
    /// outside.
    pub fn apply_option(&mut self, path: &mut String, key: &String, value: &String, input: InfoInput) -> (r: Result<(), CmdError>)
        requires
            input_fits(key@, input_view(input)),
        ensures
            match info_option_step(old(self)@, old(path)@, key@, value@, input_view(input)) {
                Ok(n) => r is Ok && final(self)@ == n.0 && final(path)@ == n.1,
                Err(e) => (r matches Err(x) && err_view(x) == e),
            },
    {
        proof {
            reveal_strlit("p");
            reveal_strlit("provider");
            reveal_strlit("hide-preview");
            reveal_strlit("elastic-url");
            reveal_strlit("t");
            reveal_strlit("thread");
            reveal_strlit("list");
        }
        let k = key.as_str();
        if str_eq(k, "p") || str_eq(k, "provider") {
            self.set_provider(value.as_str())
        } else if str_eq(k, "hide-preview") {
            self.hide_preview();
            Ok(())
        } else if str_eq(k, "elastic-url") {
            match input {
                InfoInput::Server(c) => self.set_elastic(c),
                _ => Ok(()),
            }
        } else if str_eq(k, "t") || str_eq(k, "thread") {
            self.set_thread(value)
        } else if str_eq(k, "list") {
            let r = match input {
                InfoInput::Lines(l) => self.set_list(l),
                _ => Ok(()),
            };
            if r.is_ok() {
                *path = String::new();
            }
            r
        } else {
            let m = crate::text::concat(crate::text::concat("\nUnkown argument ", k).as_str(), "\n");
            Err(CmdError::new(ErrorKind::InvalidInput, m))
        }
    }
}

/// The `hide-preview` option always applies, and it mutes the preview: the
/// options come out with the preview hidden and the rest of them, and the
/// path, unchanged. No option shows a hidden preview again.
pub proof fn law_hide_preview(s: InfoSettings, path: Seq<char>, key: Seq<char>, value: Seq<char>, input: InfoInputView)
    ensures
        key == "hide-preview"@ ==> (info_option_step(s, path, key, value, input) matches Ok(n) && {
            &&& !n.0.display_preview
            &&& n.0.base_path == s.base_path
            &&& n.0.list == s.list
            &&& n.0.elastic == s.elastic
            &&& n.0.thread == s.thread
            &&& n.0.provider == s.provider
            &&& n.1 == path
        }),
        info_option_step(s, path, key, value, input) matches Ok(n) ==> (n.0.display_preview ==> s.display_preview),
{
    reveal_strlit("p");
    reveal_strlit("provider");
    reveal_strlit("hide-preview");
    assert("p"@.len() == 1);
    assert("provider"@.len() == 8);
    assert("hide-preview"@.len() == 12);
}

/// Once the preview is hidden, it stays hidden whatever options follow.
proof fn lemma_preview_stays_hidden(s: InfoSettings, path: Seq<char>, opts: Seq<(Seq<char>, Seq<char>)>, inputs: Seq<InfoInputView>)
    requires
        !s.display_preview,
    ensures
        info_options_fold(s, path, opts, inputs) matches Ok(n) ==> !n.0.display_preview,
    decreases opts.len(),
{
    if opts.len() > 0 {
        law_hide_preview(s, path, opts[0].0, opts[0].1, inputs[0]);
        match info_option_step(s, path, opts[0].0, opts[0].1, inputs[0]) {
            Ok(n) => lemma_preview_stays_hidden(n.0, n.1, opts.drop_first(), inputs.drop_first()),
            Err(_) => {},
        }
    }
}

/// A command line that holds a `hide-preview` option, at any place among
/// the options, runs with the preview hidden whenever its options apply.
pub proof fn law_hide_preview_in_command(s: InfoSettings, path: Seq<char>, opts: Seq<(Seq<char>, Seq<char>)>, inputs: Seq<InfoInputView>, k: int)
    requires
        0 <= k < opts.len(),
        opts[k].0 == "hide-preview"@,
    ensures
        info_options_fold(s, path, opts, inputs) matches Ok(n) ==> !n.0.display_preview,
    decreases opts.len(),
{
    law_hide_preview(s, path, opts[0].0, opts[0].1, inputs[0]);
    match info_option_step(s, path, opts[0].0, opts[0].1, inputs[0]) {
        Ok(n) => {
            if k == 0 {
                lemma_preview_stays_hidden(n.0, n.1, opts.drop_first(), inputs.drop_first());
            } else {
                assert(opts.drop_first()[k - 1] == opts[k]);
                law_hide_preview_in_command(n.0, n.1, opts.drop_first(), inputs.drop_first(), k - 1);
            }
        },
        Err(_) => {},
    }
}

/// `-p` and `--provider`, and `-t` and `--thread`, are two names of one
/// option each; a provider is `local` or `api`, and any other is refused.
pub proof fn law_info_option_names(s: InfoSettings, path: Seq<char>, value: Seq<char>, input: InfoInputView)
    ensures
        info_option_step(s, path, "provider"@, value, input) == info_option_step(s, path, "p"@, value, input),
        info_option_step(s, path, "thread"@, value, input) == info_option_step(s, path, "t"@, value, input),
        (value == "local"@ || value == "api"@) ==> (info_option_step(s, path, "provider"@, value, input) matches Ok(n)
            && n.0.provider == value && n.1 == path),
        !(value == "local"@ || value == "api"@) ==> info_option_step(s, path, "provider"@, value, input)
            == Err::<(InfoSettings, Seq<char>), ErrView>((ErrorKind::NotFound, "Unknown value for provider"@)),
{
    reveal_strlit("p");
    reveal_strlit("provider");
    reveal_strlit("hide-preview");
    reveal_strlit("elastic-url");
    reveal_strlit("t");
    reveal_strlit("thread");
    reveal_strlit("list");
    assert("p"@.len() == 1);
    assert("provider"@.len() == 8);
    assert("hide-preview"@.len() == 12);
    assert("elastic-url"@.len() == 11);
    assert("t"@.len() == 1);
    assert("thread"@.len() == 6);
    assert("list"@.len() == 4);
    assert("p"@[0] == 'p');
    assert("provider"@[0] == 'p');
    assert("hide-preview"@[0] == 'h');
    assert("elastic-url"@[0] == 'e');
    assert("t"@[0] == 't');
    assert("thread"@[0] == 't');
    assert("list"@[0] == 'l');
}

impl Clone for InfoOption {
    fn clone(&self) -> (r: Self)
        ensures
            r@ == self@,
    {
        let elastic = match &self.elastic {
            Some(c) => Some(c.clone()),
            None => None,
        };
        InfoOption {
            base_path: self.base_path.clone(),
            list: self.list.clone(),
            display_preview: self.display_preview,
            elastic,
            thread: self.thread,
            provider: self.provider.clone(),
        }
    }
}

} // verus!
