//! The `info` command: finds information related to files.

pub mod option;

use vstd::prelude::*;
use crate::commands::{CmdError, CmdOptions, ErrorKind, get_args_parameter, is_error, wants_help,
    asks_help, PathKind, Target};
use crate::commands::info::option::{InfoOption, InfoSettings, InfoInput, InfoInputView, input_view,
    input_fits, initial_info, info_options_fold};
use crate::commands::search::option::err_view;
use crate::helpers::{option_views, strip_last, is_video_ext, is_audio_ext, is_image_ext, is_pdf_ext,
    is_video_extension, is_audio_extension, is_image_extension, is_pdf_extension};
use crate::text::{owned, concat, push_str, str_eq, trim_spec};

verus! {

/// Usage of this command.
pub const USAGE: &'static str = "\
info [OPTIONS] <file_path/dir_path>
    Display/get file informations
    --help
    -p <string> --provider=<string>   possible value: local, api (default)
    --cache-path=<string>   Cache path, default ./.oms/
    --elastic-url=<string>  Elastic search server
    --hide-preview=<bool>   Mute display
    --list=<sting>          Path of a file containing the list of files to parse

    For videos: info --elastic-url=<string> --cache-path=<string> [dir_path]
";

/// Message of the error when the file path is missing.
pub const FILE_PATH_REQUIRED: &'static str = "\ninfo error: 'file_path' parameter required\n";

/// # Info command
///
/// Finds information related to the file: `oms info /home/me/video.mp4`.
pub struct Info {
    /// The path of the file.
    pub file_path: String,
    /// Command options.
    pub cmd_options: CmdOptions,
}

/// Help message for this command.
pub fn usage() -> (r: &'static str)
    ensures
        r@ == USAGE@,
{
    USAGE
}

/// Returns Info from the command line: the file path is the last argument
/// and must not be empty.
pub fn build_cmd(args: &Vec<String>, options: CmdOptions) -> (r: Result<Info, CmdError>)
    requires
        args.len() >= 1,
    ensures
        args@.last()@.len() == 0 ==> (r matches Err(e) && is_error(e, ErrorKind::InvalidInput, FILE_PATH_REQUIRED@)),
        args@.last()@.len() > 0 ==> (r matches Ok(c) && c.file_path@ == args@.last()@
            && c.cmd_options == options),
{
    let file_path = match get_args_parameter(args, args.len() - 1, FILE_PATH_REQUIRED) {
        Ok(v) => owned(v),
        Err(_) => String::new(),
    };
    if file_path.as_str().is_empty() {
        return Err(CmdError::new(ErrorKind::InvalidInput, owned(FILE_PATH_REQUIRED)));
    }
    Ok(Info { file_path, cmd_options: options })
}

/// What running an info command does.
pub enum InfoPlan {
    /// Display the usage of the command.
    ShowUsage,
    /// Look at the files with these options, from this path (empty when the
    /// files come from a list).
    Run(InfoOption, String),
}

/// The views of what the options get from outside.
pub open spec fn inputs_view(inputs: Seq<InfoInput>) -> Seq<InfoInputView> {
    inputs.map_values(|i: InfoInput| input_view(i))
}

/// Whether each option gets from outside what it needs.
pub open spec fn inputs_fit(opts: Seq<(String, String)>, inputs: Seq<InfoInput>) -> bool {
    &&& inputs.len() == opts.len()
    &&& forall|i: int| 0 <= i < opts.len() ==> #[trigger] input_fits(opts[i].0@, input_view(inputs[i]))
}

/// The options of an info command once the base path is set from the path
/// `path`, a directory when `is_dir`.
pub open spec fn with_base(s: InfoSettings, path: Seq<char>, is_dir: bool) -> InfoSettings {
    if is_dir { InfoSettings { base_path: trim_spec(strip_last(path, '/')), ..s } } else { s }
}

impl Info {
    /// What running the command does, starting from the default options:
    /// `path_is_dir` tells whether its path is a directory, `inputs[i]` is
    /// what option `i` gets from outside.
    pub fn configure(&self, path_is_dir: bool, inputs: Vec<InfoInput>) -> (r: Result<InfoPlan, CmdError>)
        requires
            inputs_fit(self.cmd_options@, inputs@),
        ensures
            asks_help(self.cmd_options@) ==> r matches Ok(InfoPlan::ShowUsage),
            !asks_help(self.cmd_options@) ==> exists|t: nat| t >= 1 && match info_options_fold(
                with_base(#[trigger] initial_info(t), self.file_path@, path_is_dir),
                self.file_path@,
                option_views(self.cmd_options@),
                inputs_view(inputs@),
            ) {
                Ok(n) => (r matches Ok(InfoPlan::Run(o, p)) && o@ == n.0 && p@ == n.1),
                Err(e) => (r matches Err(x) && err_view(x) == e),
            },
    {
        let mut option = InfoOption::new();
        let ghost t = option@.thread;
        let _ = option.set_basepath(&self.file_path, path_is_dir);
        let ghost inputs0 = inputs@;
        let r = self.configure_from(option, inputs);
        assert(!asks_help(self.cmd_options@) ==> match info_options_fold(
                with_base(initial_info(t), self.file_path@, path_is_dir),
                self.file_path@,
                option_views(self.cmd_options@),
                inputs_view(inputs0),
            ) {
                Ok(n) => (r matches Ok(InfoPlan::Run(o, p)) && o@ == n.0 && p@ == n.1),
                Err(e) => (r matches Err(x) && err_view(x) == e),
            });
        r
    }

    /// What running the command does, starting from the options `option`:
    /// the usage when the options ask for help; otherwise the options of
    /// the command line apply one after the other, and the first that
    /// fails gives the error.
    pub fn configure_from(&self, option: InfoOption, inputs: Vec<InfoInput>) -> (r: Result<InfoPlan, CmdError>)
        requires
            inputs_fit(self.cmd_options@, inputs@),
        ensures
            asks_help(self.cmd_options@) ==> r matches Ok(InfoPlan::ShowUsage),
            !asks_help(self.cmd_options@) ==> match info_options_fold(option@, self.file_path@, option_views(self.cmd_options@), inputs_view(inputs@)) {
                Ok(n) => (r matches Ok(InfoPlan::Run(o, p)) && o@ == n.0 && p@ == n.1),
                Err(e) => (r matches Err(x) && err_view(x) == e),
            },
    {
        if wants_help(&self.cmd_options) {
            return Ok(InfoPlan::ShowUsage);
        }
        let mut opt = option;
        let mut path = self.file_path.clone();
        let mut rest = inputs;
        let ghost opts = option_views(self.cmd_options@);
        let ghost ins = inputs_view(inputs@);
        let ghost all = inputs@;
        let ghost start = (option@, self.file_path@);
        let mut i: usize = 0;
        assert(opts.skip(0) =~= opts);
        assert(ins.skip(0) =~= ins);
        assert(all.skip(0) =~= all);
        while i < self.cmd_options.len()
            invariant
                i <= self.cmd_options.len(),
                inputs_fit(self.cmd_options@, all),
                !asks_help(self.cmd_options@),
                opts == option_views(self.cmd_options@),
                ins == inputs_view(all),
                all == inputs@,
                rest@ == all.skip(i as int),
                start == (option@, self.file_path@),
                info_options_fold(start.0, start.1, opts, ins) == info_options_fold(opt@, path@, opts.skip(i as int), ins.skip(i as int)),
            decreases self.cmd_options.len() - i,
        {
            assert(opts.skip(i as int)[0] == opts[i as int]);
            assert(ins.skip(i as int)[0] == ins[i as int]);
            assert(opts[i as int] == (self.cmd_options@[i as int].0@, self.cmd_options@[i as int].1@));
            assert(ins[i as int] == input_view(all[i as int]));
            assert(opts.skip(i as int).drop_first() =~= opts.skip(i + 1));
            assert(ins.skip(i as int).drop_first() =~= ins.skip(i + 1));
            let ghost before = (opt@, path@);
            let input = rest.remove(0);
            assert(rest@ =~= all.skip(i + 1));
            assert(input_fits(self.cmd_options@[i as int].0@, input_view(all[i as int])));
            match opt.apply_option(&mut path, &self.cmd_options[i].0, &self.cmd_options[i].1, input) {
                Ok(()) => {},
                Err(e) => {
                    assert(info_options_fold(before.0, before.1, opts.skip(i as int), ins.skip(i as int)) == Err::<(InfoSettings, Seq<char>), (ErrorKind, Seq<char>)>(err_view(e)));
                    return Err(e);
                },
            }
            i = i + 1;
        }
        assert(opts.skip(i as int) =~= Seq::<(Seq<char>, Seq<char>)>::empty());
        Ok(InfoPlan::Run(opt, path))
    }
}

/// What an info command does with its path, `kind` being what the file
/// system reports there: the files under a directory are looked at; any
/// other path is looked at as a file.
pub fn info_target(kind: &Result<PathKind, String>) -> (r: Target)
    ensures
        *kind == Ok::<PathKind, String>(PathKind::Dir) ==> r == Target::Dir,
        *kind != Ok::<PathKind, String>(PathKind::Dir) ==> r == Target::File,
{
    match kind {
        Ok(PathKind::Dir) => Target::Dir,
        _ => Target::File,
    }
}

/// How the information of a file is found.
#[derive(Debug, Clone, Copy, PartialEq, Eq, Structural)]
pub enum InfoKind {
    Pdf,
    Image,
    Video,
    Audio,
    /// A file that goes with a video and is passed over.
    Ignored,
    /// A format that is not supported.
    Unsupported,
}

/// Whether `e` is the extension of a file that goes with a video (such as
/// subtitles) and is passed over.
pub open spec fn is_video_ignored_ext(e: Seq<char>) -> bool {
    e == "srt"@ || e == "sub"@ || e == "idx"@ || e == "nfo"@
}

/// How the information of a file with this (lowercase) extension is found:
/// a file without extension is taken for a video.
pub open spec fn info_kind_of(e: Seq<char>) -> InfoKind {
    if is_pdf_ext(e) {
        InfoKind::Pdf
    } else if is_image_ext(e) {
        InfoKind::Image
    } else if is_video_ext(e) || e.len() == 0 {
        InfoKind::Video
    } else if is_audio_ext(e) {
        InfoKind::Audio
    } else if is_video_ignored_ext(e) {
        InfoKind::Ignored
    } else {
        InfoKind::Unsupported
    }
}

/// A file without extension is looked at as a video, and a `pdf` file as
/// a PDF document.
pub proof fn law_info_kinds(e: Seq<char>)
    ensures
        e.len() == 0 ==> info_kind_of(e) == InfoKind::Video,
        e == "pdf"@ ==> info_kind_of(e) == InfoKind::Pdf,
{
    reveal_strlit("pdf");
    reveal_strlit("jpg");
    reveal_strlit("jpeg");
    reveal_strlit("png");
    reveal_strlit("gif");
    reveal_strlit("bmp");
    reveal_strlit("webp");
    assert("pdf"@.len() == 3);
    assert("jpg"@.len() == 3);
    assert("jpeg"@.len() == 4);
    assert("png"@.len() == 3);
    assert("gif"@.len() == 3);
    assert("bmp"@.len() == 3);
    assert("webp"@.len() == 4);
}

/// How the information of a file with this (lowercase) extension is found.
pub fn info_kind(extension: &str) -> (r: InfoKind)
    ensures
        r == info_kind_of(extension@),
{
    if is_pdf_extension(extension) {
        InfoKind::Pdf
    } else if is_image_extension(extension) {
        InfoKind::Image
    } else if is_video_extension(extension) || extension.is_empty() {
        InfoKind::Video
    } else if is_audio_extension(extension) {
        InfoKind::Audio
    } else if str_eq(extension, "srt") || str_eq(extension, "sub") || str_eq(extension, "idx")
        || str_eq(extension, "nfo") {
        InfoKind::Ignored
    } else {
        InfoKind::Unsupported
    }
}

/// The message for a file whose format is not supported.
pub fn unsupported_message(file_path: &str) -> (r: String)
    ensures
        r@ == "\n"@ + file_path@ + ": Format not supported\n"@,
{
    let mut m = concat("\n", file_path);
    push_str(&mut m, ": Format not supported\n");
    m
}

/// The information of a video file, found by the media helpers.
pub struct VideoInfo<'a> {
    pub file_path: &'a String,
    pub info_option: &'a InfoOption,
}

/// The information of an audio file, found by the media helpers.
pub struct AudioInfo<'a> {
    pub file_path: &'a String,
    pub info_option: &'a InfoOption,
}

/// The information of an image, found by the media helpers.
pub struct ImageInfo<'a> {
    pub file_path: &'a String,
    pub info_option: &'a InfoOption,
}

/// The information of a PDF document, found by the media helpers.
pub struct PdfInfo<'a> {
    pub file_path: &'a String,
    pub info_option: &'a InfoOption,
}

/// The information of a movie, from its raw name.
pub struct MovieInfo<'a> {
    pub movie_raw_name: &'a String,
    pub file_path: &'a String,
    pub info_option: &'a InfoOption,
}

/// The rule above each result shown.
pub const RESULT_RULE: &'static str = "------------------------------------------------------------------------";

/// How a result is shown: a line break, the rule, a line break, the result
/// and a line break.
pub fn result_block(result: &str) -> (r: String)
    ensures
        r@ == "\n"@ + RESULT_RULE@ + "\n"@ + result@ + "\n"@,
{
    let mut r = concat("\n", RESULT_RULE);
    push_str(&mut r, "\n");
    push_str(&mut r, result);
    push_str(&mut r, "\n");
    r
}

/// How an error is shown: between two line breaks.
pub fn error_block(error: &str) -> (r: String)
    ensures
        r@ == "\n"@ + error@ + "\n"@,
{
    let mut r = concat("\n", error);
    push_str(&mut r, "\n");
    r
}

} // verus!
