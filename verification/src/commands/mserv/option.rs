//! Options of the `mserv` command.

use vstd::prelude::*;
use crate::commands::{CmdError, ErrorKind};
use crate::commands::search::option::{threads_for, err_view, ErrView, unknown_argument};
use crate::foreign::cpu_count;
use crate::helpers::{Elastic, rtrim_slash, strip_last};
use crate::text::{views, owned, concat, push_str, str_eq, starts_with, trim, trim_spec, parse_usize,
    parse_usize_spec};

verus! {

/// The address the server listens on when no `url` option is given.
pub const DEFAULT_URL: &'static str = "localhost:7777";

/// What the options of a media server are.
pub struct MservSettings {
    pub base_path: Seq<char>,
    pub urls: Seq<Seq<char>>,
    pub elastic: Option<Seq<char>>,
    pub provider: Seq<char>,
    pub transcode_output: Seq<char>,
    pub transcode_thread: nat,
}

/// Options of a media server.
pub struct MservOption {
    pub base_path: String,
    /// The socket addresses the server listens on, as `ip:port`.
    pub urls: Vec<String>,
    pub elastic: Option<Elastic>,
    pub provider: String,
    pub transcode_output: String,
    pub transcode_thread: usize,
}

/// The URL of an Elastic connection, when there is one.
pub open spec fn server_view(e: Option<Elastic>) -> Option<Seq<char>> {
    match e {
        Some(c) => Some(c.url@),
        None => None,
    }
}

impl View for MservOption {
    type V = MservSettings;

    open spec fn view(&self) -> MservSettings {
        MservSettings {
            base_path: self.base_path@,
            urls: views(self.urls@),
            elastic: server_view(self.elastic),
            provider: self.provider@,
            transcode_output: self.transcode_output@,
            transcode_thread: self.transcode_thread as nat,
        }
    }
}

/// The options of a media server before any command-line option applies,
/// `urls` being the addresses `DEFAULT_URL` resolves to.
pub open spec fn initial_mserv(urls: Seq<Seq<char>>, thread: nat) -> MservSettings {
    MservSettings {
        base_path: Seq::empty(),
        urls,
        elastic: None,
        provider: "api"@,
        transcode_output: "mp4"@,
        transcode_thread: thread,
    }
}

/// How the addresses of a server are displayed: each with `http://` in
/// front unless it starts with `http`, followed by a space.
pub open spec fn urls_text(urls: Seq<Seq<char>>) -> Seq<char>
    decreases urls.len(),
{
    if urls.len() == 0 {
        Seq::empty()
    } else {
        let u = urls.last();
        let shown = if "http"@.is_prefix_of(u) { u } else { "http://"@ + u };
        urls_text(urls.drop_last()) + shown + " "@
    }
}

/// What a command-line option of the mserv command gets from outside.
pub enum MservInput {
    /// Nothing.
    Nothing,
    /// Whether the path that a `base-path` option names is a directory.
    IsDir(bool),
    /// The socket addresses that a `url` option resolves to (`None` when it
    /// does not resolve).
    Addrs(Option<Vec<String>>),
    /// The connection to the server that an `elastic-url` option names.
    Server(Result<Elastic, CmdError>),
}

/// The view of what an option gets from outside.
pub enum MservInputView {
    Nothing,
    IsDir(bool),
    Addrs(Option<Seq<Seq<char>>>),
    Server(Result<Seq<char>, ErrView>),
}

/// The view of what an option gets from outside.
pub open spec fn mserv_input_view(i: MservInput) -> MservInputView {
    match i {
        MservInput::Nothing => MservInputView::Nothing,
        MservInput::IsDir(b) => MservInputView::IsDir(b),
        MservInput::Addrs(Some(v)) => MservInputView::Addrs(Some(views(v@))),
        MservInput::Addrs(None) => MservInputView::Addrs(None),
        MservInput::Server(Ok(c)) => MservInputView::Server(Ok(c.url@)),
        MservInput::Server(Err(e)) => MservInputView::Server(Err(err_view(e))),
    }
}

/// What an option needs from outside.
pub open spec fn mserv_input_fits(key: Seq<char>, i: MservInputView) -> bool {
    &&& key == "base-path"@ ==> i is IsDir
    &&& key == "url"@ ==> i is Addrs
    &&& key == "elastic-url"@ ==> i is Server
}

/// What one command-line option does to the options of a media server.
pub open spec fn mserv_option_step(s: MservSettings, key: Seq<char>, value: Seq<char>, input: MservInputView) -> Result<MservSettings, ErrView> {
    if key == "p"@ || key == "provider"@ {
        if value == "local"@ || value == "api"@ {
            Ok(MservSettings { provider: value, ..s })
        } else {
            Err((ErrorKind::NotFound, "Unknown value for provider"@))
        }
    } else if key == "base-path"@ {
        match input {
            MservInputView::IsDir(true) => Ok(MservSettings { base_path: trim_spec(strip_last(value, '/')), ..s }),
            MservInputView::IsDir(false) => Err((ErrorKind::InvalidInput, "Base path "@ + value + " is not a directory"@)),
            _ => Ok(s),
        }
    } else if key == "elastic-url"@ {
        match input {
            MservInputView::Server(Ok(url)) => Ok(MservSettings { elastic: Some(url), ..s }),
            MservInputView::Server(Err(e)) => Err(e),
            _ => Ok(s),
        }
    } else if key == "url"@ {
        match input {
            MservInputView::Addrs(Some(a)) => Ok(MservSettings { urls: a, ..s }),
            MservInputView::Addrs(None) => Err((ErrorKind::InvalidInput, "Invalid url "@ + value)),
            _ => Ok(s),
        }
    } else if key == "transcode-output"@ {
        Ok(MservSettings { transcode_output: value, ..s })
    } else if key == "transcode-thread"@ {
        match parse_usize_spec(value) {
            Some(n) => Ok(MservSettings { transcode_thread: n, ..s }),
            None => Err((ErrorKind::NotFound, "Invalid value for transcode thread"@)),
        }
    } else {
        Err((ErrorKind::InvalidInput, unknown_argument(key)))
    }
}

/// The options of a media server after the command-line options `opts`
/// apply one after the other, `inputs[i]` being what option `i` gets from
/// outside; the first option that fails gives the error.
pub open spec fn mserv_options_fold(s: MservSettings, opts: Seq<(Seq<char>, Seq<char>)>, inputs: Seq<MservInputView>) -> Result<MservSettings, ErrView>
    decreases opts.len(),
{
    if opts.len() == 0 {
        Ok(s)
    } else {
        match mserv_option_step(s, opts[0].0, opts[0].1, inputs[0]) {
            Ok(n) => mserv_options_fold(n, opts.drop_first(), inputs.drop_first()),
            Err(e) => Err(e),
        }
    }
}

/// A copy of a list of strings.
pub fn copy_strings(v: &Vec<String>) -> (r: Vec<String>)
    ensures
        views(r@) == views(v@),
{
    let c = v.clone();
    assert(views(c@) =~= views(v@));
    c
}

impl MservOption {
    /// The options of a media server listening on `default_addrs` (the
    /// addresses `DEFAULT_URL` resolves to): no base path, no Elastic
    /// server, provider `api`, output `mp4`, and one thread less than the
    /// CPUs (at least one) for transcoding.
    pub fn new(default_addrs: Vec<String>) -> (r: Self)
        ensures
            r@ == initial_mserv(views(default_addrs@), r@.transcode_thread),
            r.transcode_thread >= 1,
    {
        MservOption {
            base_path: String::new(),
            urls: default_addrs,
            elastic: None,
            provider: owned("api"),
            transcode_output: owned("mp4"),
            transcode_thread: threads_for(cpu_count()),
        }
    }

    /// The addresses of the server as they are displayed.
    pub fn display_urls(&self) -> (r: String)
        ensures
            r@ == urls_text(self@.urls),
    {
        let mut r = String::new();
        let ghost u = views(self.urls@);
        let mut i: usize = 0;
        assert(u.take(0) =~= Seq::<Seq<char>>::empty());
        while i < self.urls.len()
            invariant
                i <= self.urls.len(),
                u == views(self.urls@),
                r@ == urls_text(u.take(i as int)),
            decreases self.urls.len() - i,
        {
            assert(u.take(i + 1).drop_last() =~= u.take(i as int));
            assert(u.take(i + 1).last() == self.urls@[i as int]@);
            let url = &self.urls[i];
            if starts_with(url.as_str(), "http") {
                push_str(&mut r, url.as_str());
            } else {
                push_str(&mut r, "http://");
                push_str(&mut r, url.as_str());
            }
            push_str(&mut r, " ");
            i = i + 1;
        }
        assert(u.take(i as int) =~= u);
        r
    }

    /// Sets the provider: `local` or `api`.
    pub fn set_provider(&mut self, value: &str) -> (r: Result<(), CmdError>)
        ensures
            (value@ == "local"@ || value@ == "api"@) ==> r is Ok && final(self)@
                == (MservSettings { provider: value@, ..old(self)@ }),
            !(value@ == "local"@ || value@ == "api"@) ==> (r matches Err(e) && err_view(e) == (
                ErrorKind::NotFound,
                "Unknown value for provider"@,
            )) && final(self)@ == old(self)@,
    {
        if str_eq(value, "local") || str_eq(value, "api") {
            self.provider = owned(value);
            Ok(())
        } else {
            Err(CmdError::new(ErrorKind::NotFound, owned("Unknown value for provider")))
        }
    }

    /// Sets the addresses to listen on, those that `value` resolves to
    /// (`None` when it does not resolve).
    pub fn set_url(&mut self, value: &String, addrs: Option<Vec<String>>) -> (r: Result<(), CmdError>)
        ensures
            match addrs {
                Some(a) => r is Ok && final(self)@ == (MservSettings { urls: views(a@), ..old(self)@ }),
                None => (r matches Err(e) && err_view(e) == (ErrorKind::InvalidInput, "Invalid url "@ + value@))
                    && final(self)@ == old(self)@,
            },
    {
        match addrs {
            Some(a) => {
                self.urls = a;
                Ok(())
            },
            None => Err(CmdError::new(ErrorKind::InvalidInput, concat("Invalid url ", value.as_str()))),
        }
    }

    /// Sets the extension of the outputs of transcoding.
    pub fn set_transcode_output(&mut self, value: &String)
        ensures
            final(self)@ == (MservSettings { transcode_output: value@, ..old(self)@ }),
    {
        self.transcode_output = value.clone();
    }

    /// Sets the number of threads of transcoding: a decimal number.
    pub fn set_transcode_thread(&mut self, value: &String) -> (r: Result<(), CmdError>)
        ensures
            match parse_usize_spec(value@) {
                Some(n) => r is Ok && final(self)@ == (MservSettings { transcode_thread: n, ..old(self)@ }),
                None => (r matches Err(e) && err_view(e) == (ErrorKind::NotFound, "Invalid value for transcode thread"@))
                    && final(self)@ == old(self)@,
            },
    {
        match parse_usize(value.as_str()) {
            Some(v) => {
                self.transcode_thread = v;
                Ok(())
            },
            None => Err(CmdError::new(ErrorKind::NotFound, owned("Invalid value for transcode thread"))),
        }
    }

    /// Sets the base path from `value`, which must be a directory
    /// (`is_dir`): without a trailing `/`, trimmed.
    pub fn set_basepath(&mut self, value: &String, is_dir: bool) -> (r: Result<(), CmdError>)
        ensures
            is_dir ==> r is Ok && final(self)@ == (MservSettings { base_path: trim_spec(strip_last(value@, '/')), ..old(self)@ }),
            !is_dir ==> (r matches Err(e) && err_view(e) == (ErrorKind::InvalidInput, "Base path "@ + value@ + " is not a directory"@))
                && final(self)@ == old(self)@,
    {
        if is_dir {
            let t = rtrim_slash(value);
            self.base_path = trim(t.as_str());
            Ok(())
        } else {
            let mut m = concat("Base path ", value.as_str());
            push_str(&mut m, " is not a directory");
            Err(CmdError::new(ErrorKind::InvalidInput, m))
        }
    }

    /// Sets the Elastic server from the connection to it, or fails as the
    /// connection did.
    pub fn set_elastic(&mut self, elastic: Result<Elastic, CmdError>) -> (r: Result<(), CmdError>)
        ensures
            match elastic {
                Ok(c) => r is Ok && final(self)@ == (MservSettings { elastic: Some(c.url@), ..old(self)@ }),
                Err(e) => (r matches Err(x) && err_view(x) == err_view(e)) && final(self)@ == old(self)@,
            },
    {
        match elastic {
            Ok(c) => {
                self.elastic = Some(c);
                Ok(())
            },
            Err(e) => Err(e),
        }
    }

    /// Applies one command-line option of the mserv command, `input` being
    /// what the option gets from outside.
    pub fn apply_option(&mut self, key: &String, value: &String, input: MservInput) -> (r: Result<(), CmdError>)
        requires
            mserv_input_fits(key@, mserv_input_view(input)),
        ensures
            match mserv_option_step(old(self)@, key@, value@, mserv_input_view(input)) {
                Ok(s) => r is Ok && final(self)@ == s,
                Err(e) => (r matches Err(x) && err_view(x) == e),
            },
    {
        proof {
            reveal_strlit("p");
            reveal_strlit("provider");
            reveal_strlit("base-path");
            reveal_strlit("elastic-url");
            reveal_strlit("url");
            reveal_strlit("transcode-output");
            reveal_strlit("transcode-thread");
        }
        let k = key.as_str();
        if str_eq(k, "p") || str_eq(k, "provider") {
            self.set_provider(value.as_str())
        } else if str_eq(k, "base-path") {
            match input {
                MservInput::IsDir(b) => self.set_basepath(value, b),
                _ => Ok(()),
            }
        } else if str_eq(k, "elastic-url") {
            match input {
                MservInput::Server(c) => self.set_elastic(c),
                _ => Ok(()),
            }
        } else if str_eq(k, "url") {
            match input {
                MservInput::Addrs(a) => self.set_url(value, a),
                _ => Ok(()),
            }
        } else if str_eq(k, "transcode-output") {
            self.set_transcode_output(value);
            Ok(())
        } else if str_eq(k, "transcode-thread") {
            self.set_transcode_thread(value)
        } else {
            let m = concat(concat("\nUnkown argument ", k).as_str(), "\n");
            Err(CmdError::new(ErrorKind::InvalidInput, m))
        }
    }
}

impl Clone for MservOption {
    fn clone(&self) -> (r: Self)
        ensures
            r@ == self@,
    {
        let elastic = match &self.elastic {
            Some(c) => Some(c.clone()),
            None => None,
        };
        MservOption {
            base_path: self.base_path.clone(),
            urls: copy_strings(&self.urls),
            elastic,
            provider: self.provider.clone(),
            transcode_output: self.transcode_output.clone(),
            transcode_thread: self.transcode_thread,
        }
    }
}

/// `-p` and `--provider` are two names of one option; a provider is `local`
/// or `api`, and any other is refused.
pub proof fn law_mserv_provider_names(s: MservSettings, value: Seq<char>, input: MservInputView)
    ensures
        mserv_option_step(s, "provider"@, value, input) == mserv_option_step(s, "p"@, value, input),
        (value == "local"@ || value == "api"@) ==> mserv_option_step(s, "provider"@, value, input)
            == Ok::<MservSettings, ErrView>(MservSettings { provider: value, ..s }),
        !(value == "local"@ || value == "api"@) ==> mserv_option_step(s, "provider"@, value, input)
            == Err::<MservSettings, ErrView>((ErrorKind::NotFound, "Unknown value for provider"@)),
{
}

} // verus!
