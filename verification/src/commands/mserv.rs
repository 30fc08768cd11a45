//! The `mserv` command: the media server.

pub mod option;
pub mod request;
pub mod tasks;

use vstd::prelude::*;
use crate::commands::{CmdError, CmdOptions, ErrorKind, wants_help, asks_help, is_error};
use crate::commands::mserv::option::{MservOption, MservSettings, MservInput, MservInputView,
    mserv_input_view, mserv_input_fits, initial_mserv, mserv_options_fold, urls_text};
use crate::commands::search::option::err_view;
use crate::helpers::option_views;
use crate::text::{views, owned, concat, push_str};

verus! {

/// Usage of this command.
pub const USAGE: &'static str = "\
mserv --elastic-url=<string> --url=<string>  --cache-path=<string> --base-path=<string>
    Launch media server
    Prerequisites:
        - Transcode your video files into a streamable format (like H.264)
        - Elsastic search for indexing, with cors allowed, see elastic configuration
        - [Optional] ffmpeg and ffprobe, for video duration
        - [Optional] ImageMagick (convert + ghostscript) with pdf enabled, for pdf and image thumbnail
        - [Optional] exiftool to update video metadata

    --help
    --cache-path=<string>   Cache path, default ./.oms/
    --base-path=<string>   Dir path of relative root
    -p <string> --provider=<string>   possible value: local, api (default)
        If you use api, set the environment variables 
            TMDB_ACCESS_TOKEN, you can get one here https://developer.themoviedb.org/v4/reference/auth-create-access-token)
            OMDB_KEY here https://www.omdbapi.com/apikey.aspx
    --elastic-url=<string>  Url of elastic search server (with index, e.g. http://localhost:9200/oms)
    --url=<string> without http:// e.g. localhost:7777 or 192.168.33.106:7777
    --transcode-output=<string>   Extension of transcode feature (e.g. webm)
    --transcode-thread=<int>    Number of max thread used
";

/// # Media server command
pub struct Mserv {
    /// Command options.
    pub cmd_options: CmdOptions,
}

/// Help message for this command.
pub fn usage() -> (r: &'static str)
    ensures
        r@ == USAGE@,
{
    USAGE
}

/// Returns Mserv from the command line options.
pub fn build_cmd(_args: &Vec<String>, options: CmdOptions) -> (r: Result<Mserv, CmdError>)
    ensures
        r matches Ok(c) && c.cmd_options == options,
{
    Ok(Mserv { cmd_options: options })
}

/// What running a media server does.
pub enum MservPlan {
    /// Display the usage of the command.
    ShowUsage,
    /// Serve with these options.
    Serve(MservOption),
}

/// The views of what the options get from outside.
pub open spec fn mserv_inputs_view(inputs: Seq<MservInput>) -> Seq<MservInputView> {
    inputs.map_values(|i: MservInput| mserv_input_view(i))
}

/// Whether each option gets from outside what it needs.
pub open spec fn mserv_inputs_fit(opts: Seq<(String, String)>, inputs: Seq<MservInput>) -> bool {
    &&& inputs.len() == opts.len()
    &&& forall|i: int| 0 <= i < opts.len() ==> #[trigger] mserv_input_fits(opts[i].0@, mserv_input_view(inputs[i]))
}

/// The message of the error when no base path is given.
pub const BASE_PATH_REQUIRED: &'static str = "\nYou must provide base-path option\n";

/// What running the server does once its options are read: serve when a
/// base path is set, fail otherwise.
pub open spec fn serve_plan(r: Result<MservSettings, (ErrorKind, Seq<char>)>) -> Result<MservSettings, (ErrorKind, Seq<char>)> {
    match r {
        Ok(s) => if s.base_path.len() == 0 { Err((ErrorKind::InvalidInput, BASE_PATH_REQUIRED@)) } else { Ok(s) },
        Err(e) => Err(e),
    }
}

impl Mserv {
    /// What running the server does, starting from the options `option`:
    /// the usage when the options ask for help; otherwise the options apply
    /// one after the other (`inputs[i]` being what option `i` gets from
    /// outside), the first that fails giving the error, and a base path
    /// must be set.
    pub fn configure(&self, option: MservOption, inputs: Vec<MservInput>) -> (r: Result<MservPlan, CmdError>)
        requires
            mserv_inputs_fit(self.cmd_options@, inputs@),
        ensures
            asks_help(self.cmd_options@) ==> r matches Ok(MservPlan::ShowUsage),
            !asks_help(self.cmd_options@) ==> match serve_plan(mserv_options_fold(option@, option_views(self.cmd_options@), mserv_inputs_view(inputs@))) {
                Ok(s) => (r matches Ok(MservPlan::Serve(o)) && o@ == s),
                Err(e) => (r matches Err(x) && err_view(x) == e),
            },
    {
        if wants_help(&self.cmd_options) {
            return Ok(MservPlan::ShowUsage);
        }
        let mut opt = option;
        let mut rest = inputs;
        let ghost opts = option_views(self.cmd_options@);
        let ghost ins = mserv_inputs_view(inputs@);
        let ghost all = inputs@;
        let ghost start = option@;
        let mut i: usize = 0;
        assert(opts.skip(0) =~= opts);
        assert(ins.skip(0) =~= ins);
        assert(all.skip(0) =~= all);
        while i < self.cmd_options.len()
            invariant
                i <= self.cmd_options.len(),
                mserv_inputs_fit(self.cmd_options@, all),
                !asks_help(self.cmd_options@),
                opts == option_views(self.cmd_options@),
                ins == mserv_inputs_view(all),
                all == inputs@,
                rest@ == all.skip(i as int),
                start == option@,
                mserv_options_fold(start, opts, ins) == mserv_options_fold(opt@, opts.skip(i as int), ins.skip(i as int)),
            decreases self.cmd_options.len() - i,
        {
            assert(opts.skip(i as int)[0] == opts[i as int]);
            assert(ins.skip(i as int)[0] == ins[i as int]);
            assert(opts[i as int] == (self.cmd_options@[i as int].0@, self.cmd_options@[i as int].1@));
            assert(ins[i as int] == mserv_input_view(all[i as int]));
            assert(opts.skip(i as int).drop_first() =~= opts.skip(i + 1));
            assert(ins.skip(i as int).drop_first() =~= ins.skip(i + 1));
            let ghost before = opt@;
            let input = rest.remove(0);
            assert(rest@ =~= all.skip(i + 1));
            assert(mserv_input_fits(self.cmd_options@[i as int].0@, mserv_input_view(all[i as int])));
            match opt.apply_option(&self.cmd_options[i].0, &self.cmd_options[i].1, input) {
                Ok(()) => {},
                Err(e) => {
                    assert(mserv_options_fold(before, opts.skip(i as int), ins.skip(i as int)) == Err::<MservSettings, (ErrorKind, Seq<char>)>(err_view(e)));
                    return Err(e);
                },
            }
            i = i + 1;
        }
        assert(opts.skip(i as int) =~= Seq::<(Seq<char>, Seq<char>)>::empty());
        if opt.base_path.as_str().is_empty() {
            return Err(CmdError::new(ErrorKind::InvalidInput, owned(BASE_PATH_REQUIRED)));
        }
        Ok(MservPlan::Serve(opt))
    }
}

/// The error when the server cannot listen on its addresses, `reason`
/// saying why.
pub fn bind_error(option: &MservOption, reason: &str) -> (e: CmdError)
    ensures
        is_error(e, ErrorKind::AddrNotAvailable, "\nUnable to start server on "@ + urls_text(option@.urls) + ", "@ + reason@ + "\n"@),
{
    let u = option.display_urls();
    let mut m = concat("\nUnable to start server on ", u.as_str());
    push_str(&mut m, ", ");
    push_str(&mut m, reason);
    push_str(&mut m, "\n");
    CmdError::new(ErrorKind::AddrNotAvailable, m)
}

/// The line printed once the server listens.
pub fn started_message(option: &MservOption) -> (r: String)
    ensures
        r@ == "Server started at "@ + urls_text(option@.urls),
{
    let u = option.display_urls();
    concat("Server started at ", u.as_str())
}

} // verus!
