//! The `transcode` command: transcodes video files for streaming.

pub mod option;

use vstd::prelude::*;
use crate::commands::{CmdError, CmdOptions, ErrorKind, OPTION_SEPARATOR, get_args_parameter,
    wants_help, asks_help, is_error, PathKind, Target};
use crate::commands::search::option::{err_view, list_of};
use crate::commands::transcode::option::{TranscodeOption, TranscodeSettings, initial_transcode,
    transcode_options_fold, files_view, lines_view, admits_input, copy_lines};
use crate::foreign::{string_push, lowercase, to_lowercase, regex_matches, regex_is_match};
use crate::helpers::{option_views, get_file_name, file_name_of, get_extension, extension_of,
    is_video_file, is_video_path};
use crate::text::{owned, concat, push_str, contains, contains_sub, replace_all, replace_spec,
    ends_with, views, join, join_spec};
use crate::order::{texts_sorted, sort_texts};

verus! {

/// Marker in the name of a finished output file.
pub const TRANSCODED_MARK: &'static str = ".oms_transcoded.";

/// Marker in the name of an output file being written.
pub const TEMP_MARK: &'static str = ".oms_transcode_temp.";

/// Pattern of the names of the parts a split file is cut into.
pub const PART_PATTERN: &'static str = "^part\\-[0-9]{7}\\.";

/// # transcode command
///
/// Transcodes video files for streaming: `oms transcode --extensions="avi,webm" ~/Videos`.
pub struct Transcode {
    /// Path of the file or directory to transcode.
    pub file_path: String,
    /// Command options.
    pub cmd_options: CmdOptions,
}

/// The usage of this command.
pub open spec fn usage_text() -> Seq<char> {
    "transcode [options] <file_path|directory_path>
    Transcode video files into a streamable format.
    Transcode only files that are not encoded in VP8, VP9, H.264, AV1, Ogg
    Prerequists:
        Need to install ffmpeg

    --help
    -c --check  Seek for invalid video, don't transcode
    -d  Delete original file after transcoding
    --keep-smallest Keep the smallest (size) file between input and output
    -f --force  Force transcode even if the file is already streamable
    --list=<sting>  Path of a file containing the list of files to transcore
    -e <string> --extensions=<string>   Only transcode files with these extensions, separated by '"@
        + seq![OPTION_SEPARATOR] + "'
    -t <int> --thread=<int> Number of threads used
    -o <string> --output=<string>   Output extension, default mp4, (Output can be something like flv>webm,avi>mp4,mp4)
    -s <int> --split=<int>  Number in second. Split the source file into x seconds, then transcode these parts. 
                            Use this if you want to resume transcoding. Available only for transcoding single file
"@
}

/// Help message for this command.
pub fn usage() -> (r: String)
    ensures
        r@ == usage_text(),
{
    let mut r = owned("transcode [options] <file_path|directory_path>
    Transcode video files into a streamable format.
    Transcode only files that are not encoded in VP8, VP9, H.264, AV1, Ogg
    Prerequists:
        Need to install ffmpeg

    --help
    -c --check  Seek for invalid video, don't transcode
    -d  Delete original file after transcoding
    --keep-smallest Keep the smallest (size) file between input and output
    -f --force  Force transcode even if the file is already streamable
    --list=<sting>  Path of a file containing the list of files to transcore
    -e <string> --extensions=<string>   Only transcode files with these extensions, separated by '");
    string_push(&mut r, OPTION_SEPARATOR);
    push_str(&mut r, "'
    -t <int> --thread=<int> Number of threads used
    -o <string> --output=<string>   Output extension, default mp4, (Output can be something like flv>webm,avi>mp4,mp4)
    -s <int> --split=<int>  Number in second. Split the source file into x seconds, then transcode these parts. 
                            Use this if you want to resume transcoding. Available only for transcoding single file
");
    assert(r@ =~= usage_text());
    r
}

/// Returns Transcode from the command line: the path is the last argument.
pub fn build_cmd(args: &Vec<String>, options: CmdOptions) -> (r: Result<Transcode, CmdError>)
    requires
        args.len() >= 1,
    ensures
        r matches Ok(c) && c.file_path@ == args@.last()@ && c.cmd_options == options,
{
    let file_path = match get_args_parameter(args, args.len() - 1, "\nread error: 'file_path' parameter required\n") {
        Ok(v) => owned(v),
        Err(_) => String::new(),
    };
    Ok(Transcode { file_path, cmd_options: options })
}

/// What running a transcode command does.
pub enum TranscodePlan {
    /// Display the usage of the command.
    ShowUsage,
    /// Transcode with these options.
    Run(TranscodeOption),
}

impl Transcode {
    /// What running the command does, starting from the default options:
    /// `files[i]` holds the lines of the file that option `i` names, for a
    /// `list` or `skip-list` option (`None` when it could not be read).
    pub fn configure(&self, files: &Vec<Option<Vec<String>>>) -> (r: Result<TranscodePlan, CmdError>)
        requires
            files.len() == self.cmd_options.len(),
        ensures
            asks_help(self.cmd_options@) ==> r matches Ok(TranscodePlan::ShowUsage),
            !asks_help(self.cmd_options@) ==> exists|t: nat| t >= 1 && match transcode_options_fold(#[trigger] initial_transcode(t), option_views(self.cmd_options@), files_view(files@)) {
                Ok(s) => (r matches Ok(TranscodePlan::Run(o)) && o@ == s),
                Err(e) => (r matches Err(x) && err_view(x) == e),
            },
    {
        let option = TranscodeOption::new();
        let ghost t = option@.thread;
        let r = self.configure_from(option, files);
        assert(!asks_help(self.cmd_options@) ==> match transcode_options_fold(initial_transcode(t), option_views(self.cmd_options@), files_view(files@)) {
                Ok(s) => (r matches Ok(TranscodePlan::Run(o)) && o@ == s),
                Err(e) => (r matches Err(x) && err_view(x) == e),
            });
        r
    }

    /// What running the command does, starting from the options `option`:
    /// the usage when the options ask for help; otherwise the options of
    /// the command line apply one after the other, and the first that
    /// fails gives the error.
    pub fn configure_from(&self, option: TranscodeOption, files: &Vec<Option<Vec<String>>>) -> (r: Result<TranscodePlan, CmdError>)
        requires
            files.len() == self.cmd_options.len(),
        ensures
            asks_help(self.cmd_options@) ==> r matches Ok(TranscodePlan::ShowUsage),
            !asks_help(self.cmd_options@) ==> match transcode_options_fold(option@, option_views(self.cmd_options@), files_view(files@)) {
                Ok(s) => (r matches Ok(TranscodePlan::Run(o)) && o@ == s),
                Err(e) => (r matches Err(x) && err_view(x) == e),
            },
    {
        if wants_help(&self.cmd_options) {
            return Ok(TranscodePlan::ShowUsage);
        }
        let mut opt = option;
        let ghost opts = option_views(self.cmd_options@);
        let ghost fs = files_view(files@);
        let ghost start = opt@;
        let mut i: usize = 0;
        assert(opts.skip(0) =~= opts);
        assert(fs.skip(0) =~= fs);
        while i < self.cmd_options.len()
            invariant
                i <= self.cmd_options.len(),
                files.len() == self.cmd_options.len(),
                !asks_help(self.cmd_options@),
                opts == option_views(self.cmd_options@),
                fs == files_view(files@),
                start == option@,
                transcode_options_fold(start, opts, fs) == transcode_options_fold(opt@, opts.skip(i as int), fs.skip(i as int)),
            decreases self.cmd_options.len() - i,
        {
            let ghost before = opt@;
            assert(opts.skip(i as int)[0] == opts[i as int]);
            assert(fs.skip(i as int)[0] == fs[i as int]);
            assert(opts[i as int] == (self.cmd_options@[i as int].0@, self.cmd_options@[i as int].1@));
            assert(fs[i as int] == lines_view(files@[i as int]));
            assert(opts.skip(i as int).drop_first() =~= opts.skip(i + 1));
            assert(fs.skip(i as int).drop_first() =~= fs.skip(i + 1));
            let lines = copy_lines(&files[i]);
            match opt.apply_option(&self.cmd_options[i].0, &self.cmd_options[i].1, lines) {
                Ok(()) => {},
                Err(e) => {
                    return Err(e);
                },
            }
            i = i + 1;
        }
        assert(opts.skip(i as int) =~= Seq::<(Seq<char>, Seq<char>)>::empty());
        Ok(TranscodePlan::Run(opt))
    }
}

/// The message of an error on the path given on the command line.
pub open spec fn target_error(path: Seq<char>, what: Seq<char>) -> Seq<char> {
    "\n"@ + path + "\ntranscode error: "@ + what + "\n\n"@
}

/// What a transcoding does with the path given on the command line, `kind`
/// being what the file system reports there (`Err(m)` when it could not be
/// read, `m` saying why): a file is transcoded; a directory is when no
/// split is asked for; a split of anything but a file is refused, and so
/// is a path that is neither file nor directory.
pub fn target_of(file_path: &String, kind: &Result<PathKind, String>, split: usize) -> (r: Result<Target, CmdError>)
    ensures
        *kind == Ok::<PathKind, String>(PathKind::File) ==> r == Ok::<Target, CmdError>(Target::File),
        (*kind == Ok::<PathKind, String>(PathKind::Dir) && split == 0) ==> r == Ok::<Target, CmdError>(Target::Dir),
        (kind matches Ok(k) && k != PathKind::File && split > 0) ==> (r matches Err(e) && is_error(
            e,
            ErrorKind::InvalidInput,
            target_error(file_path@, "split only available for file, not directory"@),
        )),
        (*kind == Ok::<PathKind, String>(PathKind::Other) && split == 0) ==> (r matches Err(e) && is_error(
            e,
            ErrorKind::InvalidInput,
            target_error(file_path@, "unknown file"@),
        )),
        (kind matches Err(m) ==> (r matches Err(e) && is_error(e, ErrorKind::NotFound, target_error(file_path@, m@)))),
{
    match kind {
        Ok(PathKind::File) => Ok(Target::File),
        Ok(PathKind::Dir) if split == 0 => Ok(Target::Dir),
        Ok(_) => {
            let what = if split > 0 { "split only available for file, not directory" } else { "unknown file" };
            Err(CmdError::new(ErrorKind::InvalidInput, target_message(file_path.as_str(), what)))
        },
        Err(m) => Err(CmdError::new(ErrorKind::NotFound, target_message(file_path.as_str(), m.as_str()))),
    }
}

/// The message of an error on the path given on the command line.
fn target_message(path: &str, what: &str) -> (r: String)
    ensures
        r@ == target_error(path@, what@),
{
    let mut m = concat("\n", path);
    push_str(&mut m, "\ntranscode error: ");
    push_str(&mut m, what);
    push_str(&mut m, "\n\n");
    assert(m@ =~= target_error(path@, what@));
    m
}

/// What a transcoding does with one file.
#[derive(Debug, Clone, Copy, PartialEq, Eq, Structural)]
pub enum FileStep {
    /// The file is on the skip list.
    Skip,
    /// Only check whether the video is valid.
    Check,
    /// Split the file into parts and transcode them.
    Split,
    /// Transcode the file as a whole.
    Single,
}

/// What a transcoding with the options `s` does with the file at `path`.
pub open spec fn file_step_spec(s: TranscodeSettings, path: Seq<char>) -> FileStep {
    if s.skip_list.contains(file_name_of(path)) {
        FileStep::Skip
    } else if s.check {
        FileStep::Check
    } else if s.split > 0 {
        FileStep::Split
    } else {
        FileStep::Single
    }
}

/// What a transcoding with `option` does with the file at `file_path`:
/// nothing when its name is on the skip list; else a check when only
/// checking; else a split transcoding when a split is asked for; else a
/// transcoding of the whole file.
pub fn file_step(option: &TranscodeOption, file_path: &String) -> (r: FileStep)
    ensures
        r == file_step_spec(option@, file_path@),
{
    let name = get_file_name(file_path.as_str());
    if crate::text::contains_string(&option.skip_list, &name) {
        FileStep::Skip
    } else if option.check {
        FileStep::Check
    } else if option.split > 0 {
        FileStep::Split
    } else {
        FileStep::Single
    }
}

/// Whether the name `name` is that of an output of a transcoding.
pub open spec fn is_output_name(name: Seq<char>) -> bool {
    contains_sub(name, TRANSCODED_MARK@) || contains_sub(name, TEMP_MARK@)
}

/// Whether a transcoding with the options `s` takes the file at `path` as a
/// whole: a video, with an extension the options admit, that is no output
/// of a transcoding.
pub open spec fn takes_single(s: TranscodeSettings, path: Seq<char>) -> bool {
    &&& is_video_path(path)
    &&& admits_input(s, lowercase(extension_of(path)))
    &&& !is_output_name(file_name_of(path))
}

/// Whether a transcoding with `option` takes the file at `file_path` as a
/// whole.
pub fn takes_single_file(option: &TranscodeOption, file_path: &String) -> (r: bool)
    ensures
        r == takes_single(option@, file_path@),
        r ==> is_video_path(file_path@),
        r ==> option@.extensions.len() == 0
            || option@.extensions.contains(lowercase(lowercase(extension_of(file_path@)))),
        r ==> !is_output_name(file_name_of(file_path@)),
{
    let extension = to_lowercase(get_extension(file_path.as_str()).as_str());
    if !is_video_file(file_path.as_str()) {
        return false;
    }
    if !option.has_extension(&extension) {
        return false;
    }
    let name = get_file_name(file_path.as_str());
    !(contains(name.as_str(), TRANSCODED_MARK) || contains(name.as_str(), TEMP_MARK))
}

/// Once `--extensions` is given `value`, a transcoding takes a file as a
/// whole exactly when it is a video that is no output of a transcoding and
/// its extension, in lowercase, is one of the lowercase items of `value`:
/// files of other extensions are left alone.
pub proof fn law_single_file_filter(s: TranscodeSettings, value: Seq<char>, path: Seq<char>)
    ensures
        takes_single(TranscodeSettings { extensions: list_of(value), ..s }, path) <==> (
            is_video_path(path)
            && !is_output_name(file_name_of(path))
            && list_of(value).contains(lowercase(lowercase(extension_of(path))))),
{
    crate::commands::transcode::option::law_input_filter(s, value, lowercase(extension_of(path)));
}

/// Whether a file is transcoded, `need_reencode` telling whether its
/// encoding is not streamable: only then, or when forced.
pub fn needs_transcoding(option: &TranscodeOption, need_reencode: bool) -> (r: bool)
    ensures
        r == (need_reencode || option.force),
{
    need_reencode || option.force
}

/// What follows the transcoding of a file.
#[derive(Debug, Clone, Copy, PartialEq, Eq, Structural)]
pub enum Outcome {
    /// Keep both files.
    KeepBoth,
    /// The output seems invalid: keep the original, warn.
    OutputInvalid,
    /// The output is bigger: remove it, keep the original.
    RemoveOutput,
    /// Remove the original file.
    RemoveOriginal,
}

/// What follows the transcoding of a whole file: nothing unless the
/// original is deleted; then the original stays when the output seems
/// invalid, or when it is bigger and the smallest is kept; else it goes.
pub fn single_outcome(option: &TranscodeOption, output_valid: bool, output_size: u64, input_size: u64) -> (r: Outcome)
    ensures
        !option.delete ==> r == Outcome::KeepBoth,
        option.delete && !output_valid ==> r == Outcome::OutputInvalid,
        option.delete && output_valid && option.keep_smallest && output_size > input_size ==> r == Outcome::RemoveOutput,
        option.delete && output_valid && !(option.keep_smallest && output_size > input_size) ==> r == Outcome::RemoveOriginal,
{
    if !option.delete {
        Outcome::KeepBoth
    } else if !output_valid {
        Outcome::OutputInvalid
    } else if option.keep_smallest && output_size > input_size {
        Outcome::RemoveOutput
    } else {
        Outcome::RemoveOriginal
    }
}

/// What follows the transcoding of a split file, once its parts are joined:
/// nothing unless the original is deleted; then the output goes when it is
/// bigger and the smallest is kept; else the original goes when the output
/// seems valid.
pub fn split_outcome(option: &TranscodeOption, output_valid: bool, output_size: u64, input_size: u64) -> (r: Outcome)
    ensures
        !option.delete ==> r == Outcome::KeepBoth,
        option.delete && option.keep_smallest && output_size > input_size ==> r == Outcome::RemoveOutput,
        option.delete && !(option.keep_smallest && output_size > input_size) && output_valid ==> r == Outcome::RemoveOriginal,
        option.delete && !(option.keep_smallest && output_size > input_size) && !output_valid ==> r == Outcome::OutputInvalid,
{
    if !option.delete {
        Outcome::KeepBoth
    } else if option.keep_smallest && output_size > input_size {
        Outcome::RemoveOutput
    } else if output_valid {
        Outcome::RemoveOriginal
    } else {
        Outcome::OutputInvalid
    }
}

/// The path a finished output is renamed to: its marker replaced by `.`.
pub fn final_output_path(output: &String) -> (r: String)
    ensures
        r@ == replace_spec(output@, TRANSCODED_MARK@, "."@),
{
    proof { reveal_strlit(".oms_transcoded."); }
    replace_all(output.as_str(), TRANSCODED_MARK, ".")
}

/// Whether a file name is that of a part of a split file (`part-` and seven
/// digits, then a `.`), as the `regex` crate matches `PART_PATTERN`.
pub fn is_split_part(file_name: &str) -> (r: bool)
    ensures
        r == (regex_matches(PART_PATTERN@, file_name@) == Some(true)),
{
    match regex_is_match(PART_PATTERN, file_name) {
        Some(b) => b,
        None => false,
    }
}

/// Whether a split transcoding takes the file at `file_path`: a video that
/// is not itself a part of a split file.
pub fn takes_split_file(file_path: &String) -> (r: bool)
    ensures
        r == (is_video_path(file_path@) && regex_matches(PART_PATTERN@, file_name_of(file_path@)) != Some(true)),
{
    if !is_video_file(file_path.as_str()) {
        return false;
    }
    let name = get_file_name(file_path.as_str());
    !is_split_part(name.as_str())
}

/// The path a part of a split file is transcoded to, with the output
/// extension `extension`.
pub fn part_output_path(part: &String, extension: &str) -> (r: String)
    ensures
        r@ == part@ + TEMP_MARK@ + extension@,
{
    let mut r = concat(part.as_str(), TEMP_MARK);
    push_str(&mut r, extension);
    r
}

/// The path a transcoded part is renamed to once finished.
pub fn finished_part_path(output: &String) -> (r: String)
    ensures
        r@ == replace_spec(output@, TEMP_MARK@, TRANSCODED_MARK@),
{
    proof { reveal_strlit(".oms_transcode_temp."); }
    replace_all(output.as_str(), TEMP_MARK, TRANSCODED_MARK)
}

/// Whether a file left in the directory of a split file is removed once the
/// parts are joined: the list of parts and every output of a part.
pub fn is_split_leftover(path: &String) -> (r: bool)
    ensures
        r == (file_name_of(path@) == "oms_output.txt"@ || is_output_name(path@)),
{
    let name = get_file_name(path.as_str());
    crate::text::str_eq(name.as_str(), "oms_output.txt") || contains(path.as_str(), TRANSCODED_MARK)
        || contains(path.as_str(), TEMP_MARK)
}

/// Whether the output of a transcoding ends with its extension twice, as
/// in `movie.mp4.mp4`; it is then renamed without the last one.
pub fn has_double_extension(output: &String) -> (r: bool)
    ensures
        r == ("."@ + extension_of(output@) + "."@ + extension_of(output@)).is_suffix_of(output@),
{
    let e = get_extension(output.as_str());
    let mut suffix = concat(".", e.as_str());
    push_str(&mut suffix, ".");
    push_str(&mut suffix, e.as_str());
    assert(suffix@ =~= "."@ + extension_of(output@) + "."@ + extension_of(output@));
    ends_with(output.as_str(), suffix.as_str())
}

/// The line of the list of parts, for joining them, that names the part at
/// `path`.
pub open spec fn part_entry(path: Seq<char>) -> Seq<char> {
    "file '"@ + file_name_of(path) + "'"@
}

/// The lines that name the finished parts among `files` whose extension is
/// `extension`, in the order of `files`.
pub open spec fn part_entries(files: Seq<Seq<char>>, extension: Seq<char>) -> Seq<Seq<char>>
    decreases files.len(),
{
    if files.len() == 0 {
        Seq::empty()
    } else {
        let prev = part_entries(files.drop_last(), extension);
        let f = files.last();
        if contains_sub(f, TRANSCODED_MARK@) && extension_of(f) == extension {
            prev.push(part_entry(f))
        } else {
            prev
        }
    }
}

/// The list of parts that are joined into the output of a split file: a
/// line `file '<name>'` for each finished part among `files` whose
/// extension is `extension`, the lines in order, one per line.
pub fn parts_list(files: &Vec<String>, extension: &str) -> (r: String)
    ensures
        exists|s: Seq<Seq<char>>| #![trigger join_spec(s, "\n"@)]
            texts_sorted(s) && s.to_multiset() == part_entries(views(files@), extension@).to_multiset()
            && r@ == join_spec(s, "\n"@),
{
    let ghost fs = views(files@);
    let mut entries: Vec<String> = Vec::new();
    let mut i: usize = 0;
    assert(fs.take(0) =~= Seq::<Seq<char>>::empty());
    assert(views(entries@) =~= Seq::<Seq<char>>::empty());
    while i < files.len()
        invariant
            i <= files.len(),
            fs == views(files@),
            views(entries@) == part_entries(fs.take(i as int), extension@),
        decreases files.len() - i,
    {
        assert(fs.take(i + 1).drop_last() =~= fs.take(i as int));
        assert(fs.take(i + 1).last() == files@[i as int]@);
        let f = &files[i];
        if contains(f.as_str(), TRANSCODED_MARK) && crate::text::str_eq(get_extension(f.as_str()).as_str(), extension) {
            let mut e = concat("file '", get_file_name(f.as_str()).as_str());
            push_str(&mut e, "'");
            let ghost before = views(entries@);
            entries.push(e);
            assert(views(entries@) =~= before.push(e@));
        }
        i = i + 1;
    }
    assert(fs.take(i as int) =~= fs);
    let sorted = sort_texts(entries);
    let r = join(&sorted, "\n");
    assert(r@ == join_spec(views(sorted@), "\n"@));
    r
}

/// Where a split transcoding of a file stands before its parts are
/// transcoded.
pub enum SplitStart {
    /// The file is no video, or is itself a part: nothing to do.
    Skip,
    /// Stop with this message.
    Fail(String),
    /// Create this working directory and split the file into it.
    Split(String),
    /// The working directory is there: resume with the parts in it.
    Resume(String),
}

/// The working directory of a split transcoding of the file at `path`, in
/// the directory `dir` that holds the file: named after the file, without
/// its extension.
pub open spec fn split_dir_of(dir: Seq<char>, path: Seq<char>) -> Seq<char> {
    crate::commands::mserv::request::path_join(dir, crate::helpers::without_extension(file_name_of(path)))
}

/// How a split transcoding of the file at `file_path` starts: `dir` is the
/// directory that holds it (`None` when it has none), `work_kind` what the
/// file system reports at the working directory (`Err` when nothing is
/// there). A file there in place of the directory stops it; a missing
/// directory is created and the file split into it; an existing one is
/// resumed.
pub fn split_start(file_path: &String, dir: &Option<String>, work_kind: &Result<PathKind, String>) -> (r: SplitStart)
    ensures
        !(is_video_path(file_path@) && regex_matches(PART_PATTERN@, file_name_of(file_path@)) != Some(true)) ==> r is Skip,
        (is_video_path(file_path@) && regex_matches(PART_PATTERN@, file_name_of(file_path@)) != Some(true)) ==> match dir {
            None => (r matches SplitStart::Fail(m) && m@ == "Transcode error: unable to find directory for "@ + file_path@),
            Some(d) => {
                let w = split_dir_of(d@, file_path@);
                match work_kind {
                    Ok(PathKind::File) => (r matches SplitStart::Fail(m) && m@ == "Transcode error: file exists instead of directory: "@ + w),
                    Ok(_) => (r matches SplitStart::Resume(x) && x@ == w),
                    Err(_) => (r matches SplitStart::Split(x) && x@ == w),
                }
            },
        },
{
    if !takes_split_file(file_path) {
        return SplitStart::Skip;
    }
    match dir {
        None => SplitStart::Fail(concat("Transcode error: unable to find directory for ", file_path.as_str())),
        Some(d) => {
            let name = get_file_name(file_path.as_str());
            let stem = crate::helpers::remove_extension(name.as_str());
            let w = crate::commands::mserv::request::join_path(d.as_str(), stem.as_str());
            match work_kind {
                Ok(PathKind::File) => SplitStart::Fail(concat("Transcode error: file exists instead of directory: ", w.as_str())),
                Ok(_) => SplitStart::Resume(w),
                Err(_) => SplitStart::Split(w),
            }
        },
    }
}

/// The parts among `files` (the files of the working directory) that are
/// still to transcode: those named as parts that are no output of a
/// transcoding, in the order of `files`.
pub open spec fn parts_to_do(files: Seq<Seq<char>>) -> Seq<Seq<char>>
    decreases files.len(),
{
    if files.len() == 0 {
        Seq::empty()
    } else {
        let prev = parts_to_do(files.drop_last());
        let f = files.last();
        if regex_matches(PART_PATTERN@, file_name_of(f)) == Some(true) && !is_output_name(f) {
            prev.push(f)
        } else {
            prev
        }
    }
}

/// The parts among the files of the working directory that are still to
/// transcode.
pub fn parts_to_transcode(files: &Vec<String>) -> (r: Vec<String>)
    ensures
        views(r@) == parts_to_do(views(files@)),
{
    let ghost fs = views(files@);
    let mut r: Vec<String> = Vec::new();
    let mut i: usize = 0;
    assert(fs.take(0) =~= Seq::<Seq<char>>::empty());
    assert(views(r@) =~= Seq::<Seq<char>>::empty());
    while i < files.len()
        invariant
            i <= files.len(),
            fs == views(files@),
            views(r@) == parts_to_do(fs.take(i as int)),
        decreases files.len() - i,
    {
        assert(fs.take(i + 1).drop_last() =~= fs.take(i as int));
        assert(fs.take(i + 1).last() == files@[i as int]@);
        let f = &files[i];
        let name = get_file_name(f.as_str());
        if is_split_part(name.as_str()) && !(contains(f.as_str(), TRANSCODED_MARK) || contains(f.as_str(), TEMP_MARK)) {
            let ghost before = views(r@);
            r.push(f.clone());
            assert(views(r@) =~= before.push(f@));
        }
        i = i + 1;
    }
    assert(fs.take(i as int) =~= fs);
    r
}

/// The output of a split transcoding: the working directory's path with the
/// output extension.
pub fn split_output_path(work_dir: &String, output_format: &str) -> (r: String)
    ensures
        r@ == work_dir@ + "."@ + output_format@,
{
    let mut r = concat(work_dir.as_str(), ".");
    push_str(&mut r, output_format);
    r
}

} // verus!
