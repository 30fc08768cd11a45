//! What the media server starts for a request: transcodings, scans,
//! metadata updates, and the service log.

use vstd::prelude::*;
use crate::commands::{CmdError, CmdOptions, ErrorKind, is_error};
use crate::commands::info::Info;
use crate::commands::mserv::option::MservOption;
use crate::commands::transcode::Transcode;
use crate::foreign::{lowercase, to_lowercase, regex_matches, regex_is_match};
use crate::helpers::{option_views, insert_option, set_option, strip_last, strip_first, rtrim_slash,
    ltrim_slash, rtrim_char, get_file_name, file_name_of, is_video_ext,
    is_video_extension, is_video_path, is_pdf_ext, extension_of, get_extension, is_video_file};
use crate::text::{views, owned, concat, push_str, str_eq, replace_all, replace_spec, join,
    join_spec, usize_to_string, decimal};

verus! {

/// The video extensions the program handles, in order.
pub open spec fn video_extension_list() -> Seq<Seq<char>> {
    seq!["mkv"@, "mp4"@, "avi"@, "webm"@, "mov"@, "wmv"@, "flv"@, "m4v"@, "mpg"@, "mpeg"@, "ts"@, "3gp"@, "ogv"@]
}

/// The video extensions the program handles, in order.
pub fn video_extensions() -> (r: Vec<String>)
    ensures
        views(r@) == video_extension_list(),
{
    let r: Vec<String> = vec![owned("mkv"), owned("mp4"), owned("avi"), owned("webm"), owned("mov"),
        owned("wmv"), owned("flv"), owned("m4v"), owned("mpg"), owned("mpeg"), owned("ts"),
        owned("3gp"), owned("ogv")];
    assert(views(r@) =~= video_extension_list());
    r
}

/// The extensions transcoded when the whole base path is: the video
/// extensions joined by `,`, with `mp4`, `ts` and `webm` taken out of that
/// text, `,,` made `,`, and a `,` at either end taken off.
pub open spec fn non_streaming_extensions() -> Seq<char> {
    let j = join_spec(video_extension_list(), ","@);
    let a = replace_spec(replace_spec(replace_spec(j, "mp4"@, Seq::empty()), "ts"@, Seq::empty()), "webm"@, Seq::empty());
    strip_first(strip_last(replace_spec(a, ",,"@, ","@), ','), ',')
}

/// The extensions transcoded when the whole base path is.
pub fn non_streaming_extension_list() -> (r: String)
    ensures
        r@ == non_streaming_extensions(),
{
    proof {
        reveal_strlit("mp4");
        reveal_strlit("ts");
        reveal_strlit("webm");
        reveal_strlit(",,");
        reveal_strlit("");
        assert(""@ =~= Seq::<char>::empty());
    }
    let list = video_extensions();
    let j = join(&list, ",");
    let a = replace_all(j.as_str(), "mp4", "");
    let b = replace_all(a.as_str(), "ts", "");
    let c = replace_all(b.as_str(), "webm", "");
    let d = replace_all(c.as_str(), ",,", ",");
    let e = crate::helpers::rtrim_char(&d, ',');
    crate::helpers::ltrim_char(&e, ',')
}

/// The pattern of a transcoding request that names an extension.
pub const EXTENSION_PATTERN: &'static str = "^(?im)[0-9a-z]{2,5}$";

/// What a transcoding request asks for.
pub enum TranscodeRequest {
    /// Nothing to do.
    Skip,
    /// Run this transcoding.
    Run(Transcode),
    /// Transcode the file at this path under the base path, with these
    /// options, once the path is found to be a video under the base path.
    File(String, CmdOptions),
}

/// The options of a transcoding that a request starts: delete the
/// originals, the server's output and threads.
pub open spec fn transcode_request_options(o: MservOption) -> Seq<(Seq<char>, Seq<char>)> {
    insert_option(insert_option(insert_option(Seq::empty(), "d"@, Seq::empty()), "output"@, o@.transcode_output), "thread"@, decimal(o@.transcode_thread))
}

/// What the request path `/transcode-dir...` asks for: with nothing after
/// it, every video of the base path but streaming formats; with an
/// extension (two to five letters or digits), the videos with that
/// extension (nothing when it is no video extension); otherwise the file
/// it names. Nothing without a base path.
pub fn transcode_request(path: &String, option: &MservOption) -> (r: TranscodeRequest)
    ensures
        ({
            let p = strip_first(replace_spec(path@, "/transcode-dir"@, Seq::empty()), '/');
            let opts = transcode_request_options(*option);
            &&& option@.base_path.len() == 0 ==> r is Skip
            &&& option@.base_path.len() > 0 && p.len() == 0 ==> (r matches TranscodeRequest::Run(t)
                && t.file_path@ == option@.base_path
                && option_views(t.cmd_options@) == insert_option(opts, "extensions"@, non_streaming_extensions()))
            &&& option@.base_path.len() > 0 && p.len() > 0 && regex_matches(EXTENSION_PATTERN@, p) == Some(true) ==> (
                if is_video_ext(lowercase(p)) {
                    (r matches TranscodeRequest::Run(t) && t.file_path@ == option@.base_path
                        && option_views(t.cmd_options@) == insert_option(opts, "extensions"@, p))
                } else {
                    r is Skip
                })
            &&& option@.base_path.len() > 0 && p.len() > 0 && regex_matches(EXTENSION_PATTERN@, p) != Some(true) ==> (
                r matches TranscodeRequest::File(f, o) && f@ == p && option_views(o@) == opts)
        }),
{
    proof {
        reveal_strlit("/transcode-dir");
        reveal_strlit("");
        assert(""@ =~= Seq::<char>::empty());
    }
    let stripped = replace_all(path.as_str(), "/transcode-dir", "");
    let p = ltrim_slash(&stripped);
    if option.base_path.as_str().is_empty() {
        return TranscodeRequest::Skip;
    }
    let mut opts: CmdOptions = Vec::new();
    assert(option_views(opts@) =~= Seq::<(Seq<char>, Seq<char>)>::empty());
    set_option(&mut opts, owned("d"), String::new());
    set_option(&mut opts, owned("output"), option.transcode_output.clone());
    set_option(&mut opts, owned("thread"), usize_to_string(option.transcode_thread));
    if p.as_str().is_empty() {
        set_option(&mut opts, owned("extensions"), non_streaming_extension_list());
        return TranscodeRequest::Run(Transcode { file_path: option.base_path.clone(), cmd_options: opts });
    }
    let is_extension = match regex_is_match(EXTENSION_PATTERN, p.as_str()) {
        Some(b) => b,
        None => false,
    };
    if is_extension {
        let l = to_lowercase(p.as_str());
        if !is_video_extension(l.as_str()) {
            return TranscodeRequest::Skip;
        }
        set_option(&mut opts, owned("extensions"), p);
        TranscodeRequest::Run(Transcode { file_path: option.base_path.clone(), cmd_options: opts })
    } else {
        TranscodeRequest::File(p, opts)
    }
}

/// What a scan request scans: the base path when it names nothing, else
/// the path it names with the base path taken out of it, to be found under
/// the base path.
pub enum ScanTarget {
    Base,
    Under(String),
}

/// What a scan request for `file_path` scans.
pub fn scan_target(file_path: &String, option: &MservOption) -> (r: ScanTarget)
    ensures
        file_path@.len() == 0 ==> r is Base,
        file_path@.len() > 0 && option@.base_path.len() > 0 ==> (r matches ScanTarget::Under(p) && p@ == replace_spec(file_path@, option@.base_path, Seq::empty())),
        file_path@.len() > 0 && option@.base_path.len() == 0 ==> (r matches ScanTarget::Under(p) && p@ == file_path@),
{
    if file_path.as_str().is_empty() {
        return ScanTarget::Base;
    }
    if option.base_path.as_str().is_empty() {
        return ScanTarget::Under(file_path.clone());
    }
    proof {
        reveal_strlit("");
        assert(""@ =~= Seq::<char>::empty());
    }
    ScanTarget::Under(replace_all(file_path.as_str(), option.base_path.as_str(), ""))
}

/// The options of the info command a scan runs: no preview, the server's
/// transcoding threads, provider and base path; with an update of the
/// metadata, one thread; the Elastic server when there is one.
pub open spec fn scan_options_of(o: MservOption, update: bool) -> Seq<(Seq<char>, Seq<char>)> {
    let base = insert_option(insert_option(insert_option(insert_option(Seq::empty(), "hide-preview"@, Seq::empty()), "thread"@, decimal(o@.transcode_thread)), "provider"@, o@.provider), "base-path"@, o@.base_path);
    let updated = if update { insert_option(insert_option(base, "update-metadata"@, Seq::empty()), "thread"@, "1"@) } else { base };
    match o@.elastic {
        Some(url) => insert_option(updated, "elastic-url"@, url),
        None => updated,
    }
}

/// The info command a scan of `file_path` runs.
pub fn scan_command(file_path: &String, option: &MservOption, update: bool) -> (r: Info)
    ensures
        r.file_path@ == file_path@,
        option_views(r.cmd_options@) == scan_options_of(*option, update),
{
    let mut opts: CmdOptions = Vec::new();
    assert(option_views(opts@) =~= Seq::<(Seq<char>, Seq<char>)>::empty());
    set_option(&mut opts, owned("hide-preview"), String::new());
    set_option(&mut opts, owned("thread"), usize_to_string(option.transcode_thread));
    set_option(&mut opts, owned("provider"), option.provider.clone());
    set_option(&mut opts, owned("base-path"), option.base_path.clone());
    if update {
        set_option(&mut opts, owned("update-metadata"), String::new());
        set_option(&mut opts, owned("thread"), owned("1"));
    }
    match &option.elastic {
        Some(e) => {
            set_option(&mut opts, owned("elastic-url"), e.url.clone());
        },
        None => {},
    }
    Info { file_path: file_path.clone(), cmd_options: opts }
}

/// Whether a scan of `file_path` drops the whole index first: when there is
/// an Elastic server, the whole base path is scanned, and no metadata is
/// updated.
pub fn drops_index(file_path: &String, option: &MservOption, update: bool) -> (r: bool)
    ensures
        r == (option@.elastic is Some && file_path@ == option@.base_path && !update),
{
    option.elastic.is_some() && str_eq(file_path.as_str(), option.base_path.as_str()) && !update
}

/// The message of the errors of a metadata update on no file.
pub const METADATA_PATH_EMPTY: &'static str = "Update metadata: error file_path is empty";

/// What a metadata update of `file_path` looks for under the base path: the
/// path with the base path taken out of it; an error when it is empty.
pub fn metadata_target(file_path: &String, option: &MservOption) -> (r: Result<String, CmdError>)
    ensures
        file_path@.len() == 0 ==> (r matches Err(e) && is_error(e, ErrorKind::InvalidInput, METADATA_PATH_EMPTY@)),
        file_path@.len() > 0 && option@.base_path.len() > 0 ==> (r matches Ok(p) && p@ == replace_spec(file_path@, option@.base_path, Seq::empty())),
        file_path@.len() > 0 && option@.base_path.len() == 0 ==> (r matches Ok(p) && p@ == file_path@),
{
    match scan_target(file_path, option) {
        ScanTarget::Base => Err(CmdError::new(ErrorKind::InvalidInput, owned(METADATA_PATH_EMPTY))),
        ScanTarget::Under(p) => Ok(p),
    }
}

/// What kind of file gets its metadata updated.
#[derive(Debug, Clone, Copy, PartialEq, Eq, Structural)]
pub enum MetadataKind {
    Video,
    Pdf,
}

/// What kind of file the found path `resolved` is, for a metadata update:
/// an error when nothing was found (empty) or when it is neither a video
/// nor a PDF document.
pub fn metadata_kind(resolved: &String) -> (r: Result<MetadataKind, CmdError>)
    ensures
        resolved@.len() == 0 ==> (r matches Err(e) && is_error(e, ErrorKind::InvalidInput, METADATA_PATH_EMPTY@)),
        resolved@.len() > 0 && is_video_path(resolved@) ==> r == Ok::<MetadataKind, CmdError>(MetadataKind::Video),
        resolved@.len() > 0 && !is_video_path(resolved@) && is_pdf_ext(lowercase(extension_of(resolved@))) ==> r == Ok::<MetadataKind, CmdError>(MetadataKind::Pdf),
        resolved@.len() > 0 && !is_video_path(resolved@) && !is_pdf_ext(lowercase(extension_of(resolved@))) ==> (r matches Err(e) && is_error(e, ErrorKind::Unsupported, "Update metadata: error file not supported"@)),
{
    if resolved.as_str().is_empty() {
        return Err(CmdError::new(ErrorKind::InvalidInput, owned(METADATA_PATH_EMPTY)));
    }
    if is_video_file(resolved.as_str()) {
        return Ok(MetadataKind::Video);
    }
    let e = to_lowercase(get_extension(resolved.as_str()).as_str());
    if crate::helpers::is_pdf_extension(e.as_str()) {
        Ok(MetadataKind::Pdf)
    } else {
        Err(CmdError::new(ErrorKind::Unsupported, owned("Update metadata: error file not supported")))
    }
}

/// The systemd unit whose log the server shows: the file name of the base
/// path without a trailing `/`, then without a trailing `\\`, and
/// `.service`.
pub fn service_unit(option: &MservOption) -> (r: String)
    ensures
        r@ == file_name_of(strip_last(strip_last(option@.base_path, '/'), '\\')) + ".service"@,
{
    let a = rtrim_slash(&option.base_path);
    let t = rtrim_char(&a, '\\');
    let mut u = get_file_name(t.as_str());
    push_str(&mut u, ".service");
    u
}

} // verus!
