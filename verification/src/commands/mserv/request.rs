//! Requests to the media server: reading them, routing them, and what the
//! responses hold.

use vstd::prelude::*;
use vstd::string::StringSliceAdditionalSpecFns;
use vstd::utf8::{encode_utf8, decode_utf8, is_char_boundary, encode_utf8_decode_utf8};
use crate::helpers::{first_index_of, lemma_first_index_of, first_index_exec, subvec, strip_last,
    strip_first, rtrim_slash, ltrim_slash, get_extension, extension_of, is_video_ext, is_audio_ext,
    is_image_ext, is_pdf_ext, is_video_extension, is_audio_extension, is_image_extension, is_pdf_extension};
use crate::foreign::{url_decoded, url_decode, lowercase, to_lowercase, sha256_hex, sha256_digest};
use crate::text::{chars_of, string_of, owned, concat, push_str, starts_with, replace_all, occurs_at_exec, str_eq, contains, contains_sub, ends_with, decimal, u64_to_string,
    replace_spec, trim, trim_spec, parse_usize, parse_usize_spec};

verus! {

/// The lines of a text, as `str::lines` gives them: the pieces between
/// line feeds, each without the carriage return before its line feed; a
/// final line feed ends the last line and starts no other.
pub open spec fn lines_of(s: Seq<char>) -> Seq<Seq<char>>
    decreases s.len(),
{
    if s.len() == 0 {
        Seq::empty()
    } else {
        let i = first_index_of(s, '\n');
        if i < 0 {
            seq![s]
        } else {
            proof { lemma_first_index_of(s, '\n'); }
            seq![strip_last(s.take(i), '\r')] + lines_of(s.skip(i + 1))
        }
    }
}

/// The lines of a text.
pub fn split_lines(s: &str) -> (r: Vec<String>)
    ensures
        crate::text::views(r@) == lines_of(s@),
{
    let v = chars_of(s);
    let mut r: Vec<String> = Vec::new();
    let mut start: usize = 0;
    assert(v@.skip(0) =~= v@);
    while start < v.len()
        invariant
            start <= v.len(),
            v@ == s@,
            crate::text::views(r@) + lines_of(v@.skip(start as int)) == lines_of(s@),
        decreases v.len() - start,
    {
        let rest = subvec(&v, start, v.len());
        assert(rest@ =~= v@.skip(start as int));
        proof { lemma_first_index_of(rest@, '\n'); }
        let ghost before = r@;
        match first_index_exec(&rest, '\n') {
            Some(i) => {
                let mut end = i;
                if end > 0 && rest[end - 1] == '\r' {
                    end = end - 1;
                }
                let line = subvec(&rest, 0, end);
                assert(line@ =~= strip_last(rest@.take(i as int), '\r'));
                r.push(string_of(&line));
                assert(rest@.skip(i + 1) =~= v@.skip(start + i + 1));
                assert(crate::text::views(r@) =~= crate::text::views(before).push(line@));
                assert(crate::text::views(r@) + lines_of(v@.skip(start + i + 1)) =~= crate::text::views(before) + lines_of(rest@));
                start = start + i + 1;
            },
            None => {
                r.push(string_of(&rest));
                assert(crate::text::views(r@) =~= crate::text::views(before).push(rest@));
                assert(v@.skip(v.len() as int) =~= Seq::<char>::empty());
                assert(crate::text::views(r@) + lines_of(v@.skip(v.len() as int)) =~= crate::text::views(before) + lines_of(rest@));
                start = v.len();
            },
        }
    }
    assert(v@.skip(start as int) =~= Seq::<char>::empty());
    assert(crate::text::views(r@) + Seq::<Seq<char>>::empty() =~= crate::text::views(r@));
    r
}

/// The length a header line gives, when it is a `Content-Length` line
/// whose value, once `Content-Length:` is taken out and the rest trimmed,
/// is a number.
pub open spec fn header_length(line: Seq<char>) -> Option<nat> {
    if "Content-Length"@.is_prefix_of(line) {
        parse_usize_spec(trim_spec(replace_spec(line, "Content-Length:"@, Seq::empty())))
    } else {
        None
    }
}

/// The length of the body of a request: that of its last `Content-Length`
/// line with a number, 0 when there is none.
pub open spec fn content_length_of(lines: Seq<Seq<char>>) -> nat
    decreases lines.len(),
{
    if lines.len() == 0 {
        0
    } else {
        match header_length(lines.last()) {
            Some(n) => n,
            None => content_length_of(lines.drop_last()),
        }
    }
}

/// The length of the body of a request, from its lines.
pub fn content_length(lines: &Vec<String>) -> (r: usize)
    ensures
        r == content_length_of(crate::text::views(lines@)),
{
    let ghost ls = crate::text::views(lines@);
    let mut r: usize = 0;
    let mut i: usize = 0;
    assert(ls.take(0) =~= Seq::<Seq<char>>::empty());
    while i < lines.len()
        invariant
            i <= lines.len(),
            ls == crate::text::views(lines@),
            r == content_length_of(ls.take(i as int)),
        decreases lines.len() - i,
    {
        assert(ls.take(i + 1).drop_last() =~= ls.take(i as int));
        assert(ls.take(i + 1).last() == lines@[i as int]@);
        let line = lines[i].as_str();
        proof {
            reveal_strlit("Content-Length:");
            reveal_strlit("");
            assert(""@ =~= Seq::<char>::empty());
        }
        if starts_with(line, "Content-Length") {
            let v = replace_all(line, "Content-Length:", "");
            let t = trim(v.as_str());
            assert(t@ == trim_spec(replace_spec(line@, "Content-Length:"@, Seq::empty())));
            match parse_usize(t.as_str()) {
                Some(n) => {
                    assert(header_length(line@) == Some(n as nat));
                    r = n;
                },
                None => {
                    assert(header_length(line@) is None);
                },
            }
        } else {
            assert(header_length(line@) is None);
        }
        i = i + 1;
    }
    assert(ls.take(i as int) =~= ls);
    r
}

/// The body of a request whose text is `text`: its last `length` bytes.
pub fn request_body(text: &str, length: usize) -> (r: String)
    requires
        encode_utf8(text@).len() <= usize::MAX,
        length <= encode_utf8(text@).len(),
        is_char_boundary(encode_utf8(text@), encode_utf8(text@).len() - length),
    ensures
        r@ == decode_utf8(encode_utf8(text@).skip(encode_utf8(text@).len() - length)),
{
    proof {
        assert(text.spec_bytes() == encode_utf8(text@));
    }
    let n = text.len() - length;
    let (_, tail) = text.split_at(n);
    proof {
        encode_utf8_decode_utf8(tail@);
        assert(tail.spec_bytes() == encode_utf8(tail@));
        assert(encode_utf8(text@).skip(n as int) =~= encode_utf8(text@).subrange(n as int, encode_utf8(text@).len() as int));
    }
    owned(tail)
}

/// Whether `c` is an ASCII capital letter.
pub open spec fn is_upper(c: char) -> bool {
    'A' <= c && c <= 'Z'
}

/// What separates the path of a request line from its protocol.
pub open spec fn protocol_mark() -> Seq<char> {
    " HTTP/"@
}

/// The last position `q` from `lo` to `p` where ` HTTP/` starts and is
/// followed by at least one character, `-1` when there is none.
pub open spec fn last_protocol_at(line: Seq<char>, lo: int, p: int) -> int
    decreases p - lo + 1,
{
    if p < lo {
        -1
    } else if occurs_at_mark(line, p) {
        p
    } else {
        last_protocol_at(line, lo, p - 1)
    }
}

/// Whether ` HTTP/` starts at `p` in `line` and is followed by at least one
/// character.
pub open spec fn occurs_at_mark(line: Seq<char>, p: int) -> bool {
    crate::text::occurs_at(line, protocol_mark(), p) && p + 6 < line.len()
}

/// The verb, the path and the protocol of a request line, as the regular
/// expression `^([A-Z]{3,7}) (/.{0,}) (HTTP/.{1,})$` captures them: three
/// to seven capital letters, a space, a path that starts with `/`, a space,
/// and `HTTP/` followed by at least one character; no line feed anywhere.
/// The path reaches the last ` HTTP/` that is followed by something.
pub open spec fn request_line(line: Seq<char>) -> Option<(Seq<char>, Seq<char>, Seq<char>)> {
    let sp = first_index_of(line, ' ');
    if first_index_of(line, '\n') >= 0 || sp < 3 || sp > 7 || sp + 1 >= line.len()
        || line[sp + 1] != '/' || exists|k: int| 0 <= k < sp && !is_upper(#[trigger] line[k]) {
        None
    } else {
        let q = last_protocol_at(line, sp + 2, line.len() - 7);
        if q < 0 {
            None
        } else {
            Some((line.take(sp), line.subrange(sp + 1, q), line.skip(q + 1)))
        }
    }
}

/// The verb, the path and the protocol of a request line; `None` when it
/// is no request line.
pub fn parse_request_line(line: &str) -> (r: Option<(String, String, String)>)
    ensures
        match request_line(line@) {
            Some(t) => (r matches Some(x) && x.0@ == t.0 && x.1@ == t.1 && x.2@ == t.2),
            None => r is None,
        },
{
    let v = chars_of(line);
    proof {
        lemma_first_index_of(v@, '\n');
        lemma_first_index_of(v@, ' ');
    }
    if first_index_exec(&v, '\n').is_some() {
        return None;
    }
    let sp = match first_index_exec(&v, ' ') {
        Some(i) => i,
        None => {
            return None;
        },
    };
    if sp < 3 || sp > 7 || sp + 1 >= v.len() || v[sp + 1] != '/' {
        return None;
    }
    let mut k: usize = 0;
    while k < sp
        invariant
            k <= sp < v.len(),
            v@ == line@,
            sp as int == first_index_of(line@, ' '),
            3 <= sp <= 7,
            forall|j: int| 0 <= j < k ==> is_upper(#[trigger] v@[j]),
        decreases sp - k,
    {
        if !('A' <= v[k] && v[k] <= 'Z') {
            assert(!is_upper(line@[k as int]));
            return None;
        }
        k = k + 1;
    }
    assert(!exists|j: int| 0 <= j < sp && !is_upper(#[trigger] line@[j]));
    let lo = sp + 2;
    if v.len() < 7 || v.len() - 7 < lo {
        assert(last_protocol_at(line@, lo as int, v.len() - 7) == -1);
        return None;
    }
    let mark = chars_of(" HTTP/");
    let mut cur: usize = v.len() - 7;
    while cur >= lo
        invariant
            lo <= cur + 1,
            lo == sp + 2,
            3 <= sp <= 7,
            sp as int == first_index_of(line@, ' '),
            first_index_of(line@, '\n') < 0,
            line@[sp + 1] == '/',
            forall|j: int| 0 <= j < sp ==> is_upper(#[trigger] line@[j]),
            cur + 7 <= v.len(),
            v@ == line@,
            mark@ == protocol_mark(),
            last_protocol_at(line@, lo as int, v.len() - 7) == last_protocol_at(line@, lo as int, cur as int),
        decreases cur,
    {
        if occurs_at_exec(&v, &mark, cur) && cur + 6 < v.len() {
            let verb = subvec(&v, 0, sp);
            let path = subvec(&v, sp + 1, cur);
            let proto = subvec(&v, cur + 1, v.len());
            assert(verb@ =~= line@.take(sp as int));
            assert(proto@ =~= line@.skip(cur + 1));
            assert(path@ =~= line@.subrange(sp + 1, cur as int));
            assert(!exists|j: int| 0 <= j < sp && !is_upper(#[trigger] line@[j]));
            return Some((string_of(&verb), string_of(&path), string_of(&proto)));
        }
        cur = cur - 1;
    }
    None
}

/// The content type of the static resource the server holds at `path`,
/// when it holds one there.
pub open spec fn static_type(path: Seq<char>) -> Option<Seq<char>> {
    if path == "/"@ {
        Some("text/html; charset=utf-8"@)
    } else if path == "/favicon.ico"@ {
        Some("image/x-icon"@)
    } else if path == "/assets/img/audio.png"@ {
        Some("image/png"@)
    } else if path == "/assets/img/pdf.png"@ {
        Some("image/png"@)
    } else if path == "/assets/js/main.js"@ {
        Some("text/javascript"@)
    } else if path == "/assets/js/components/media.js"@ {
        Some("text/javascript"@)
    } else if path == "/assets/js/components/medias.js"@ {
        Some("text/javascript"@)
    } else if path == "/assets/js/components/metadata.js"@ {
        Some("text/javascript"@)
    } else if path == "/assets/js/components/player.js"@ {
        Some("text/javascript"@)
    } else if path == "/assets/js/components/player/video.js"@ {
        Some("text/javascript"@)
    } else if path == "/assets/js/components/player/audio.js"@ {
        Some("text/javascript"@)
    } else if path == "/assets/js/components/search.js"@ {
        Some("text/javascript"@)
    } else if path == "/assets/js/components/summary.js"@ {
        Some("text/javascript"@)
    } else if path == "/assets/js/components/config.js"@ {
        Some("text/javascript"@)
    } else if path == "/assets/js/components/config/scandir.js"@ {
        Some("text/javascript"@)
    } else if path == "/assets/js/components/config/summary.js"@ {
        Some("text/javascript"@)
    } else if path == "/assets/js/components/config/genres.js"@ {
        Some("text/javascript"@)
    } else if path == "/assets/js/components/config/casts.js"@ {
        Some("text/javascript"@)
    } else if path == "/assets/js/components/config/service-log.js"@ {
        Some("text/javascript"@)
    } else if path == "/assets/js/components/config/prerequisites.js"@ {
        Some("text/javascript"@)
    } else if path == "/assets/js/services/app.js"@ {
        Some("text/javascript"@)
    } else if path == "/assets/js/services/elastic.js"@ {
        Some("text/javascript"@)
    } else if path == "/assets/js/services/EventBus.js"@ {
        Some("text/javascript"@)
    } else if path == "/assets/js/services/history.js"@ {
        Some("text/javascript"@)
    } else {
        None
    }
}

/// The content type of the static resource the server holds at `path`.
pub fn static_content_type(path: &str) -> (r: Option<&'static str>)
    ensures
        match static_type(path@) {
            Some(t) => (r matches Some(x) && x@ == t),
            None => r is None,
        },
{
    if str_eq(path, "/") {
        Some("text/html; charset=utf-8")
    } else if str_eq(path, "/favicon.ico") {
        Some("image/x-icon")
    } else if str_eq(path, "/assets/img/audio.png") {
        Some("image/png")
    } else if str_eq(path, "/assets/img/pdf.png") {
        Some("image/png")
    } else if str_eq(path, "/assets/js/main.js") {
        Some("text/javascript")
    } else if str_eq(path, "/assets/js/components/media.js") {
        Some("text/javascript")
    } else if str_eq(path, "/assets/js/components/medias.js") {
        Some("text/javascript")
    } else if str_eq(path, "/assets/js/components/metadata.js") {
        Some("text/javascript")
    } else if str_eq(path, "/assets/js/components/player.js") {
        Some("text/javascript")
    } else if str_eq(path, "/assets/js/components/player/video.js") {
        Some("text/javascript")
    } else if str_eq(path, "/assets/js/components/player/audio.js") {
        Some("text/javascript")
    } else if str_eq(path, "/assets/js/components/search.js") {
        Some("text/javascript")
    } else if str_eq(path, "/assets/js/components/summary.js") {
        Some("text/javascript")
    } else if str_eq(path, "/assets/js/components/config.js") {
        Some("text/javascript")
    } else if str_eq(path, "/assets/js/components/config/scandir.js") {
        Some("text/javascript")
    } else if str_eq(path, "/assets/js/components/config/summary.js") {
        Some("text/javascript")
    } else if str_eq(path, "/assets/js/components/config/genres.js") {
        Some("text/javascript")
    } else if str_eq(path, "/assets/js/components/config/casts.js") {
        Some("text/javascript")
    } else if str_eq(path, "/assets/js/components/config/service-log.js") {
        Some("text/javascript")
    } else if str_eq(path, "/assets/js/components/config/prerequisites.js") {
        Some("text/javascript")
    } else if str_eq(path, "/assets/js/services/app.js") {
        Some("text/javascript")
    } else if str_eq(path, "/assets/js/services/elastic.js") {
        Some("text/javascript")
    } else if str_eq(path, "/assets/js/services/EventBus.js") {
        Some("text/javascript")
    } else if str_eq(path, "/assets/js/services/history.js") {
        Some("text/javascript")
    } else {
        None
    }
}

/// Where a request goes.
pub enum Route {
    /// An `OPTIONS` request: an empty answer.
    Options,
    /// A static resource, of this content type.
    Static(&'static str),
    /// Stream the video or audio at this path under the base path.
    Stream(String),
    /// A thumbnail, 300 pixels wide, of the file at this path.
    Thumb(String),
    /// The poster, full size, of the file at this path.
    Poster(String),
    /// Send the file at this path.
    Open(String),
    /// Scan the whole base path, in the background.
    ScanAll,
    /// Scan this file, updating its metadata or not.
    ScanFile(String, bool),
    /// Update the metadata of this file from the body of the request.
    UpdateMetadata(String),
    /// Transcode what the path names.
    TranscodeDir(String),
    /// The number of files by extension.
    Summary,
    /// The paths of all the files.
    AllFilesPath,
    /// The log of the service.
    ServiceLog,
    /// The versions of the programs the server uses.
    Prerequisites,
    /// Nothing there.
    NotFound,
}

/// Where a request goes, in terms of character sequences.
pub enum RouteSpec {
    Options,
    Static(Seq<char>),
    Stream(Seq<char>),
    Thumb(Seq<char>),
    Poster(Seq<char>),
    Open(Seq<char>),
    ScanAll,
    ScanFile(Seq<char>, bool),
    UpdateMetadata(Seq<char>),
    TranscodeDir(Seq<char>),
    Summary,
    AllFilesPath,
    ServiceLog,
    Prerequisites,
    NotFound,
}

/// Where a request goes, in terms of character sequences.
pub open spec fn route_view(r: Route) -> RouteSpec {
    match r {
        Route::Options => RouteSpec::Options,
        Route::Static(t) => RouteSpec::Static(t@),
        Route::Stream(p) => RouteSpec::Stream(p@),
        Route::Thumb(p) => RouteSpec::Thumb(p@),
        Route::Poster(p) => RouteSpec::Poster(p@),
        Route::Open(p) => RouteSpec::Open(p@),
        Route::ScanAll => RouteSpec::ScanAll,
        Route::ScanFile(p, u) => RouteSpec::ScanFile(p@, u),
        Route::UpdateMetadata(p) => RouteSpec::UpdateMetadata(p@),
        Route::TranscodeDir(p) => RouteSpec::TranscodeDir(p@),
        Route::Summary => RouteSpec::Summary,
        Route::AllFilesPath => RouteSpec::AllFilesPath,
        Route::ServiceLog => RouteSpec::ServiceLog,
        Route::Prerequisites => RouteSpec::Prerequisites,
        Route::NotFound => RouteSpec::NotFound,
    }
}

/// The path of a request as the server reads it: URL-decoded (empty when
/// the decoded bytes are no UTF-8), every `//` made `/`.
pub open spec fn request_path(raw: Seq<char>) -> Seq<char> {
    let d = match url_decoded(raw) {
        Some(d) => d,
        None => Seq::empty(),
    };
    replace_spec(d, "//"@, "/"@)
}

/// The path of a request as the server reads it.
pub fn decode_request_path(raw: &str) -> (r: String)
    ensures
        r@ == request_path(raw@),
{
    proof {
        reveal_strlit("//");
    }
    let d = match url_decode(raw) {
        Some(d) => d,
        None => String::new(),
    };
    replace_all(d.as_str(), "//", "/")
}

/// The file path a scan request names: the path without `/scan-dir` and
/// `/update-metadata`, trimmed.
pub open spec fn scan_path(path: Seq<char>) -> Seq<char> {
    trim_spec(replace_spec(replace_spec(path, "/scan-dir"@, Seq::empty()), "/update-metadata"@, Seq::empty()))
}

/// Where a request with verb `verb` and (decoded) path `path` goes.
pub open spec fn route_of(verb: Seq<char>, path: Seq<char>) -> RouteSpec {
    if verb == "OPTIONS"@ {
        RouteSpec::Options
    } else if static_type(path) is Some {
        RouteSpec::Static(static_type(path).unwrap())
    } else if "/stream/"@.is_prefix_of(path) {
        RouteSpec::Stream(replace_spec(path, "/stream/"@, "/"@))
    } else if "/thumb/"@.is_prefix_of(path) {
        RouteSpec::Thumb(replace_spec(path, "/thumb/"@, "/"@))
    } else if "/poster/"@.is_prefix_of(path) {
        RouteSpec::Poster(replace_spec(path, "/poster/"@, "/"@))
    } else if "/open/"@.is_prefix_of(path) {
        RouteSpec::Open(replace_spec(path, "/open/"@, "/"@))
    } else if "/scan-dir"@.is_prefix_of(path) || "/update-metadata"@.is_prefix_of(path) {
        let update = !contains_sub(path, "/scan-dir"@) && contains_sub(path, "/update-metadata"@);
        let f = scan_path(path);
        if verb == "GET"@ {
            if f.len() == 0 { RouteSpec::ScanAll } else { RouteSpec::ScanFile(f, update) }
        } else if verb == "POST"@ {
            RouteSpec::UpdateMetadata(f)
        } else {
            RouteSpec::NotFound
        }
    } else if "/transcode-dir"@.is_prefix_of(path) {
        RouteSpec::TranscodeDir(path)
    } else if path == "/summary"@ {
        RouteSpec::Summary
    } else if path == "/all-files-path"@ {
        RouteSpec::AllFilesPath
    } else if path == "/service-log"@ {
        RouteSpec::ServiceLog
    } else if path == "/prerequistes"@ {
        RouteSpec::Prerequisites
    } else {
        RouteSpec::NotFound
    }
}

/// Where a request with verb `verb` and (decoded) path `path` goes.
pub fn route(verb: &str, path: &str) -> (r: Route)
    ensures
        route_view(r) == route_of(verb@, path@),
{
    proof {
        reveal_strlit("/stream/");
        reveal_strlit("/thumb/");
        reveal_strlit("/poster/");
        reveal_strlit("/open/");
        reveal_strlit("/scan-dir");
        reveal_strlit("/update-metadata");
        reveal_strlit("");
        assert(""@ =~= Seq::<char>::empty());
    }
    if str_eq(verb, "OPTIONS") {
        return Route::Options;
    }
    match static_content_type(path) {
        Some(t) => {
            return Route::Static(t);
        },
        None => {},
    }
    if starts_with(path, "/stream/") {
        Route::Stream(replace_all(path, "/stream/", "/"))
    } else if starts_with(path, "/thumb/") {
        Route::Thumb(replace_all(path, "/thumb/", "/"))
    } else if starts_with(path, "/poster/") {
        Route::Poster(replace_all(path, "/poster/", "/"))
    } else if starts_with(path, "/open/") {
        Route::Open(replace_all(path, "/open/", "/"))
    } else if starts_with(path, "/scan-dir") || starts_with(path, "/update-metadata") {
        let update = if contains(path, "/scan-dir") {
            false
        } else if contains(path, "/update-metadata") {
            true
        } else {
            false
        };
        let a = replace_all(path, "/scan-dir", "");
        let b = replace_all(a.as_str(), "/update-metadata", "");
        let f = trim(b.as_str());
        if str_eq(verb, "GET") {
            if f.as_str().is_empty() {
                Route::ScanAll
            } else {
                Route::ScanFile(f, update)
            }
        } else if str_eq(verb, "POST") {
            Route::UpdateMetadata(f)
        } else {
            Route::NotFound
        }
    } else if starts_with(path, "/transcode-dir") {
        Route::TranscodeDir(owned(path))
    } else if str_eq(path, "/summary") {
        Route::Summary
    } else if str_eq(path, "/all-files-path") {
        Route::AllFilesPath
    } else if str_eq(path, "/service-log") {
        Route::ServiceLog
    } else if str_eq(path, "/prerequistes") {
        Route::Prerequisites
    } else {
        Route::NotFound
    }
}

/// `a` joined with `b` as `std::path::Path::join` joins them on Unix: `b`
/// alone when it is absolute; else `b` after `a`, with a `/` between them
/// when `a` is not empty and does not end with one.
pub open spec fn path_join(a: Seq<char>, b: Seq<char>) -> Seq<char> {
    if b.len() > 0 && b[0] == '/' {
        b
    } else if a.len() == 0 || a.last() == '/' {
        a + b
    } else {
        a + "/"@ + b
    }
}

/// `a` joined with `b` as `std::path::Path::join` joins them on Unix.
pub fn join_path(a: &str, b: &str) -> (r: String)
    ensures
        r@ == path_join(a@, b@),
{
    proof {
        reveal_strlit("/");
        assert("/"@.len() == 1 && "/"@[0] == '/');
    }
    let bs = starts_with(b, "/");
    proof {
        if bs {
            assert(b@[0] == b@.take(1)[0]);
        }
        if b@.len() > 0 && b@[0] == '/' {
            assert(b@.take(1) =~= "/"@);
        }
    }
    if bs {
        return owned(b);
    }
    let ae = ends_with(a, "/");
    proof {
        if ae {
            assert(a@.last() == a@.skip(a@.len() - 1)[0]);
        }
        if a@.len() > 0 && a@.last() == '/' {
            assert(a@.skip(a@.len() - 1) =~= "/"@);
        }
    }
    if a.is_empty() || ae {
        concat(a, b)
    } else {
        let mut r = concat(a, "/");
        push_str(&mut r, b);
        r
    }
}

/// The path under the base path that a request names: the base path
/// without a trailing `/` joined with the request path without a leading
/// `/`.
pub open spec fn file_path_in(base: Seq<char>, file_path: Seq<char>) -> Seq<char> {
    path_join(strip_last(base, '/'), strip_first(file_path, '/'))
}

/// The path under the base path that a request names.
pub fn file_path_under(base: &String, file_path: &String) -> (r: String)
    ensures
        r@ == file_path_in(base@, file_path@),
{
    let a = rtrim_slash(base);
    let b = ltrim_slash(file_path);
    join_path(a.as_str(), b.as_str())
}

/// The path a request may reach under the base path `base`: `canonical` is
/// the canonical form of the path `file_path_under` gives for it (`None`
/// when there is no such file); it is kept only when it starts with the
/// base path, so that a request cannot leave the base path.
pub fn get_file_path(base: &String, canonical: Option<String>) -> (r: Option<String>)
    ensures
        match canonical {
            Some(c) => if base@.is_prefix_of(c@) { r == Some(c) } else { r is None },
            None => r is None,
        },
        r matches Some(p) ==> base@.is_prefix_of(p@),
{
    match canonical {
        Some(c) => {
            if starts_with(c.as_str(), base.as_str()) {
                Some(c)
            } else {
                None
            }
        },
        None => None,
    }
}

/// How many bytes a stream answer holds at most.
pub const STREAM_BUFFER: u64 = 1_500_000;

/// The byte range a stream answer holds, from `start` in a file of
/// `file_size` bytes: its last byte and its byte count.
pub open spec fn stream_range_of(start: nat, file_size: nat) -> (nat, nat) {
    let e: int = if start + STREAM_BUFFER < file_size { start + STREAM_BUFFER } else { file_size as int };
    let end: nat = if e > 0 { (e - 1) as nat } else { 0 };
    let count: nat = if end >= start { (end - start + 1) as nat } else { 0 };
    (end, count)
}

/// The byte range a stream answer holds, from `start` in a file of
/// `file_size` bytes: its last byte and its byte count.
pub fn stream_range(start: u64, file_size: u64) -> (r: (u64, u64))
    requires
        start + STREAM_BUFFER <= u64::MAX,
    ensures
        (r.0 as nat, r.1 as nat) == stream_range_of(start as nat, file_size as nat),
{
    let e = if start + STREAM_BUFFER < file_size { start + STREAM_BUFFER } else { file_size };
    let end = if e > 0 { e - 1 } else { 0 };
    let count = if end >= start { end - start + 1 } else { 0 };
    (end, count)
}

/// The headers of a stream answer for the file of type `content_type` and
/// `file_size` bytes, from byte `start`.
pub fn stream_headers(content_type: &String, start: u64, file_size: u64) -> (r: Vec<(String, String)>)
    requires
        start + STREAM_BUFFER <= u64::MAX,
    ensures
        ({
            let (end, count) = stream_range_of(start as nat, file_size as nat);
            crate::helpers::option_views(r@) == seq![
                ("Content-type"@, content_type@),
                ("Accept-Ranges"@, "bytes"@),
                ("Content-Range"@, "bytes "@ + decimal(start as nat) + "-"@ + decimal(end) + "/"@ + decimal(file_size as nat)),
                ("Content-Length"@, decimal(count)),
            ]
        }),
{
    let (end, count) = stream_range(start, file_size);
    let mut range = concat("bytes ", u64_to_string(start).as_str());
    push_str(&mut range, "-");
    push_str(&mut range, u64_to_string(end).as_str());
    push_str(&mut range, "/");
    push_str(&mut range, u64_to_string(file_size).as_str());
    let mut r: Vec<(String, String)> = Vec::new();
    r.push((owned("Content-type"), content_type.clone()));
    r.push((owned("Accept-Ranges"), owned("bytes")));
    r.push((owned("Content-Range"), range));
    r.push((owned("Content-Length"), u64_to_string(count)));
    assert(crate::helpers::option_views(r@) =~= seq![
        ("Content-type"@, content_type@),
        ("Accept-Ranges"@, "bytes"@),
        ("Content-Range"@, "bytes "@ + decimal(start as nat) + "-"@ + decimal(end as nat) + "/"@ + decimal(file_size as nat)),
        ("Content-Length"@, decimal(count as nat)),
    ]);
    r
}

/// Whether a stream answer serves a file with this extension (as it is,
/// not lowercased): videos and audio files.
pub fn streams_extension(extension: &str) -> (r: bool)
    ensures
        r == (is_video_ext(extension@) || is_audio_ext(extension@)),
{
    is_video_extension(extension) || is_audio_extension(extension)
}

/// The header lines of an answer.
pub open spec fn header_lines(headers: Seq<(Seq<char>, Seq<char>)>) -> Seq<char>
    decreases headers.len(),
{
    if headers.len() == 0 {
        Seq::empty()
    } else {
        let (k, v) = headers.last();
        header_lines(headers.drop_last()) + k + ": "@ + v + "\r\n"@
    }
}

/// The head of an answer: the status line, the header lines, an empty line.
pub fn response_head(status: &str, headers: &Vec<(String, String)>) -> (r: String)
    ensures
        r@ == "HTTP/1.1 "@ + status@ + "\r\n"@ + header_lines(crate::helpers::option_views(headers@)) + "\r\n"@,
{
    let ghost hs = crate::helpers::option_views(headers@);
    let mut lines = String::new();
    let mut i: usize = 0;
    assert(hs.take(0) =~= Seq::<(Seq<char>, Seq<char>)>::empty());
    while i < headers.len()
        invariant
            i <= headers.len(),
            hs == crate::helpers::option_views(headers@),
            lines@ == header_lines(hs.take(i as int)),
        decreases headers.len() - i,
    {
        assert(hs.take(i + 1).drop_last() =~= hs.take(i as int));
        assert(hs.take(i + 1).last() == (headers@[i as int].0@, headers@[i as int].1@));
        push_str(&mut lines, headers[i].0.as_str());
        push_str(&mut lines, ": ");
        push_str(&mut lines, headers[i].1.as_str());
        push_str(&mut lines, "\r\n");
        i = i + 1;
    }
    assert(hs.take(i as int) =~= hs);
    let mut r = concat("HTTP/1.1 ", status);
    push_str(&mut r, "\r\n");
    push_str(&mut r, lines.as_str());
    push_str(&mut r, "\r\n");
    r
}

/// The key under which the thumbnail of size `size` of a file is cached:
/// the SHA-256 digest of `<size>-<file_path>`.
pub fn thumb_cache_key(size: &str, file_path: &String) -> (r: String)
    ensures
        r@ == sha256_hex(size@ + "-"@ + file_path@),
{
    let mut k = concat(size, "-");
    push_str(&mut k, file_path.as_str());
    sha256_digest(k.as_str())
}

/// Where the thumbnail of a file comes from.
#[derive(Debug, Clone, Copy, PartialEq, Eq, Structural)]
pub enum ThumbSource {
    /// A frame of the video.
    Video,
    /// The image itself.
    Image,
    /// The first page of the document.
    Pdf,
    /// No thumbnail.
    Unsupported,
}

/// Where the thumbnail of the file at `path` comes from, by its extension
/// in lowercase.
pub open spec fn thumb_source_of(path: Seq<char>) -> ThumbSource {
    let e = lowercase(extension_of(path));
    if is_video_ext(e) {
        ThumbSource::Video
    } else if is_image_ext(e) {
        ThumbSource::Image
    } else if is_pdf_ext(e) {
        ThumbSource::Pdf
    } else {
        ThumbSource::Unsupported
    }
}

/// Where the thumbnail of the file at `file_path` comes from.
pub fn thumb_source(file_path: &String) -> (r: ThumbSource)
    ensures
        r == thumb_source_of(file_path@),
{
    let e = to_lowercase(get_extension(file_path.as_str()).as_str());
    if is_video_extension(e.as_str()) {
        ThumbSource::Video
    } else if is_image_extension(e.as_str()) {
        ThumbSource::Image
    } else if is_pdf_extension(e.as_str()) {
        ThumbSource::Pdf
    } else {
        ThumbSource::Unsupported
    }
}

/// The headers of a thumbnail answer.
pub fn thumb_headers() -> (r: Vec<(String, String)>)
    ensures
        crate::helpers::option_views(r@) == seq![
            ("Content-type"@, "image/jpeg"@),
            ("Cache-Control"@, "public, max-age=31536000, s-maxage=31536000, immutable"@),
        ],
{
    let mut r: Vec<(String, String)> = Vec::new();
    r.push((owned("Content-type"), owned("image/jpeg")));
    r.push((owned("Cache-Control"), owned("public, max-age=31536000, s-maxage=31536000, immutable")));
    assert(crate::helpers::option_views(r@) =~= seq![
        ("Content-type"@, "image/jpeg"@),
        ("Cache-Control"@, "public, max-age=31536000, s-maxage=31536000, immutable"@),
    ]);
    r
}

/// The sum of the counts of files by extension.
pub open spec fn count_sum(counts: Seq<(Seq<char>, usize)>) -> nat
    decreases counts.len(),
{
    if counts.len() == 0 { 0 } else { count_sum(counts.drop_last()) + counts.last().1 as nat }
}

/// The number of files of the base path, and how many by extension.
pub struct SummaryResult {
    pub files_count: usize,
    pub files_extension: Vec<(String, usize)>,
}

/// The counts of files by extension, in terms of character sequences.
pub open spec fn counts_view(c: Seq<(String, usize)>) -> Seq<(Seq<char>, usize)> {
    c.map_values(|p: (String, usize)| (p.0@, p.1))
}

/// The summary of the files of the base path from their counts by
/// extension: the total and the counts.
pub fn summary_of(counts: Vec<(String, usize)>) -> (r: SummaryResult)
    requires
        count_sum(counts_view(counts@)) <= usize::MAX,
    ensures
        r.files_count == count_sum(counts_view(counts@)),
        r.files_extension == counts,
{
    let ghost cv = counts_view(counts@);
    let mut total: usize = 0;
    let mut i: usize = 0;
    assert(cv.take(0) =~= Seq::<(Seq<char>, usize)>::empty());
    while i < counts.len()
        invariant
            i <= counts.len(),
            cv == counts_view(counts@),
            count_sum(cv) <= usize::MAX,
            total == count_sum(cv.take(i as int)),
        decreases counts.len() - i,
    {
        assert(cv.take(i + 1).drop_last() =~= cv.take(i as int));
        proof { lemma_count_sum_prefix(cv, i + 1); }
        total = total + counts[i].1;
        i = i + 1;
    }
    assert(cv.take(i as int) =~= cv);
    SummaryResult { files_count: total, files_extension: counts }
}

/// The sum of the counts of a prefix is at most the sum of all the counts.
pub proof fn lemma_count_sum_prefix(c: Seq<(Seq<char>, usize)>, n: int)
    requires
        0 <= n <= c.len(),
    ensures
        count_sum(c.take(n)) <= count_sum(c),
    decreases c.len() - n,
{
    if n < c.len() {
        lemma_count_sum_prefix(c, n + 1);
        assert(c.take(n + 1).drop_last() =~= c.take(n));
    } else {
        assert(c.take(n) =~= c);
    }
}

/// No line of a text holds a line feed.
pub proof fn law_lines_have_no_line_feed(s: Seq<char>)
    ensures
        forall|i: int| 0 <= i < lines_of(s).len() ==> !(#[trigger] lines_of(s)[i]).contains('\n'),
    decreases s.len(),
{
    if s.len() > 0 {
        lemma_first_index_of(s, '\n');
        let f = first_index_of(s, '\n');
        if f < 0 {
            assert forall|i: int| 0 <= i < lines_of(s).len() implies !(#[trigger] lines_of(s)[i]).contains('\n') by {
                assert(lines_of(s)[i] == s);
                if s.contains('\n') {
                    let k = choose|k: int| 0 <= k < s.len() && s[k] == '\n';
                }
            }
        } else {
            law_lines_have_no_line_feed(s.skip(f + 1));
            let head = strip_last(s.take(f), '\r');
            assert forall|i: int| 0 <= i < lines_of(s).len() implies !(#[trigger] lines_of(s)[i]).contains('\n') by {
                if i == 0 {
                    assert(lines_of(s)[0] == head);
                    if head.contains('\n') {
                        let k = choose|k: int| 0 <= k < head.len() && head[k] == '\n';
                        assert(s[k] == '\n');
                    }
                } else {
                    assert(lines_of(s)[i] == lines_of(s.skip(f + 1))[i - 1]);
                }
            }
        }
    }
}

/// `last_protocol_at` finds the last position that has the mark.
proof fn lemma_last_protocol_at(line: Seq<char>, lo: int, hi: int, q: int)
    requires
        lo <= q <= hi,
        occurs_at_mark(line, q),
        forall|p: int| q < p <= hi ==> !occurs_at_mark(line, p),
    ensures
        last_protocol_at(line, lo, hi) == q,
    decreases hi - lo + 1,
{
    if hi > q {
        lemma_last_protocol_at(line, lo, hi - 1, q);
    }
}

/// A request line written as a verb of three to seven capital letters, a
/// space, a path that starts with `/`, a space and `HTTP/` with a version
/// that has no space, and no line feed anywhere, is read back as that
/// verb, that path and `HTTP/` with that version.
pub proof fn law_request_line(verb: Seq<char>, path: Seq<char>, version: Seq<char>)
    requires
        3 <= verb.len() <= 7,
        forall|k: int| 0 <= k < verb.len() ==> is_upper(#[trigger] verb[k]),
        path.len() > 0,
        path[0] == '/',
        !path.contains('\n'),
        version.len() > 0,
        !version.contains('\n'),
        !version.contains(' '),
    ensures
        request_line(verb + " "@ + path + protocol_mark() + version) == Some((verb, path, "HTTP/"@ + version)),
{
    reveal_strlit(" ");
    reveal_strlit(" HTTP/");
    reveal_strlit("HTTP/");
    let line = verb + " "@ + path + protocol_mark() + version;
    let sp = verb.len() as int;
    let q = sp + 1 + path.len();
    assert(line[sp] == ' ');
    lemma_first_index_of(line, ' ');
    lemma_first_index_of(line, '\n');
    let f = first_index_of(line, ' ');
    assert(f == sp) by {
        if f < 0 || f > sp {
            assert(line[sp] != ' ');
        }
        if 0 <= f < sp {
            assert(line[f] == verb[f]);
            assert(is_upper(verb[f]));
        }
    }
    assert(first_index_of(line, '\n') < 0) by {
        let g = first_index_of(line, '\n');
        if g >= 0 {
            assert(line[g] == '\n');
            if g < sp {
                assert(line[g] == verb[g]);
                assert(is_upper(verb[g]));
            } else if g == sp {
            } else if g < q {
                assert(line[g] == path[g - sp - 1]);
                assert(path.contains('\n'));
            } else if g < q + 6 {
                assert(line[g] == protocol_mark()[g - q]);
            } else {
                assert(line[g] == version[g - q - 6]);
                assert(version.contains('\n'));
            }
        }
    }
    assert(line[sp + 1] == '/');
    assert(!exists|k: int| 0 <= k < sp && !is_upper(#[trigger] line[k])) by {
        assert forall|k: int| 0 <= k < sp implies is_upper(#[trigger] line[k]) by {
            assert(line[k] == verb[k]);
        }
    }
    assert(line.subrange(q, q + 6) =~= protocol_mark());
    assert(occurs_at_mark(line, q));
    assert forall|p: int| q < p <= line.len() - 7 implies !occurs_at_mark(line, p) by {
        if occurs_at_mark(line, p) {
            assert(line.subrange(p, p + 6)[0] == ' ');
            assert(line[p] == ' ');
            if p < q + 6 {
                assert(line[p] == protocol_mark()[p - q]);
            } else {
                assert(line[p] == version[p - q - 6]);
                assert(version.contains(' '));
            }
        }
    }
    lemma_last_protocol_at(line, sp + 2, line.len() - 7, q);
    assert(line.take(sp) =~= verb);
    assert(line.subrange(sp + 1, q) =~= path);
    assert(line.skip(q + 1) =~= "HTTP/"@ + version);
}

/// A stream answer holds at most `STREAM_BUFFER` bytes, and, in a file
/// that is not empty, the bytes it holds run from `start` to its last byte,
/// inside the file.
pub proof fn law_stream_range(start: nat, file_size: nat)
    ensures
        ({
            let (end, count) = stream_range_of(start, file_size);
            &&& count <= STREAM_BUFFER
            &&& file_size > 0 && count > 0 ==> end == start + count - 1 && end < file_size
        }),
{
    let e: int = if start + STREAM_BUFFER < file_size { start + STREAM_BUFFER } else { file_size as int };
    let r = stream_range_of(start, file_size);
    let end: nat = if e > 0 { (e - 1) as nat } else { 0 };
    assert(r.0 == end);
    assert(e <= start + STREAM_BUFFER);
    assert(e <= file_size);
    if end >= start {
        assert(r.1 == end - start + 1);
        assert(r.1 <= STREAM_BUFFER);
    } else {
        assert(r.1 == 0);
    }
}

/// Joining a path to another keeps it whole at the end of the result.
pub proof fn law_join_ends_with(a: Seq<char>, b: Seq<char>)
    ensures
        b.is_suffix_of(path_join(a, b)),
{
    let j = path_join(a, b);
    assert(j.skip(j.len() - b.len()) =~= b);
}

/// The first byte a range value such as `100-` or `100-200` asks for.
pub open spec fn range_value(v: Seq<char>) -> Option<nat> {
    let d = first_index_of(v, '-');
    if d < 0 { None } else { parse_usize_spec(v.take(d)) }
}

/// The first byte a request asks for: from its first `Range: bytes=` header
/// line, the number before the `-`; `None` when there is no such line or
/// its value is no number.
pub open spec fn range_start_of(lines: Seq<Seq<char>>) -> Option<nat>
    decreases lines.len(),
{
    if lines.len() == 0 {
        None
    } else if "Range: bytes="@.is_prefix_of(lines[0]) {
        range_value(lines[0].skip(13))
    } else {
        range_start_of(lines.drop_first())
    }
}

/// The first byte a request asks for, from its header lines.
pub fn range_start(lines: &Vec<String>) -> (r: Option<u64>)
    ensures
        match range_start_of(crate::text::views(lines@)) {
            Some(n) => r == Some(n as u64),
            None => r is None,
        },
{
    proof { reveal_strlit("Range: bytes="); }
    let ghost ls = crate::text::views(lines@);
    let mut i: usize = 0;
    assert(ls.skip(0) =~= ls);
    while i < lines.len()
        invariant
            i <= lines.len(),
            ls == crate::text::views(lines@),
            range_start_of(ls) == range_start_of(ls.skip(i as int)),
        decreases lines.len() - i,
    {
        assert(ls.skip(i as int)[0] == lines@[i as int]@);
        assert(ls.skip(i as int).drop_first() =~= ls.skip(i + 1));
        let line = lines[i].as_str();
        if starts_with(line, "Range: bytes=") {
            proof { reveal_strlit("Range: bytes="); }
            let v = chars_of(line);
            let value = subvec(&v, 13, v.len());
            assert(value@ =~= line@.skip(13));
            proof { lemma_first_index_of(value@, '-'); }
            return match first_index_exec(&value, '-') {
                Some(d) => {
                    let head = subvec(&value, 0, d);
                    assert(head@ =~= value@.take(d as int));
                    match parse_usize(string_of(&head).as_str()) {
                        Some(n) => Some(n as u64),
                        None => None,
                    }
                },
                None => None,
            };
        }
        i = i + 1;
    }
    assert(ls.skip(i as int) =~= Seq::<Seq<char>>::empty());
    None
}

/// A request for a static resource, with any verb but `OPTIONS`, is served
/// that resource with its content type.
pub proof fn law_static_routes(verb: Seq<char>, path: Seq<char>)
    requires
        verb != "OPTIONS"@,
        static_type(path) is Some,
    ensures
        route_of(verb, path) == RouteSpec::Static(static_type(path).unwrap()),
{
}

/// Every static resource of the web interface is served with its content
/// type: the page, the icon, the two images and each script.
pub proof fn law_static_resources()
    ensures
        static_type("/"@) == Some("text/html; charset=utf-8"@),
        static_type("/favicon.ico"@) == Some("image/x-icon"@),
        static_type("/assets/img/audio.png"@) == Some("image/png"@),
        static_type("/assets/img/pdf.png"@) == Some("image/png"@),
        static_type("/assets/js/main.js"@) == Some("text/javascript"@),
        static_type("/assets/js/components/media.js"@) == Some("text/javascript"@),
        static_type("/assets/js/components/medias.js"@) == Some("text/javascript"@),
        static_type("/assets/js/components/metadata.js"@) == Some("text/javascript"@),
        static_type("/assets/js/components/player.js"@) == Some("text/javascript"@),
        static_type("/assets/js/components/player/video.js"@) == Some("text/javascript"@),
        static_type("/assets/js/components/player/audio.js"@) == Some("text/javascript"@),
        static_type("/assets/js/components/search.js"@) == Some("text/javascript"@),
        static_type("/assets/js/components/summary.js"@) == Some("text/javascript"@),
        static_type("/assets/js/components/config.js"@) == Some("text/javascript"@),
        static_type("/assets/js/components/config/scandir.js"@) == Some("text/javascript"@),
        static_type("/assets/js/components/config/summary.js"@) == Some("text/javascript"@),
        static_type("/assets/js/components/config/genres.js"@) == Some("text/javascript"@),
        static_type("/assets/js/components/config/casts.js"@) == Some("text/javascript"@),
        static_type("/assets/js/components/config/service-log.js"@) == Some("text/javascript"@),
        static_type("/assets/js/components/config/prerequisites.js"@) == Some("text/javascript"@),
        static_type("/assets/js/services/app.js"@) == Some("text/javascript"@),
        static_type("/assets/js/services/elastic.js"@) == Some("text/javascript"@),
        static_type("/assets/js/services/EventBus.js"@) == Some("text/javascript"@),
        static_type("/assets/js/services/history.js"@) == Some("text/javascript"@),
{
    reveal_strlit("/");
    reveal_strlit("/favicon.ico");
    reveal_strlit("/assets/img/audio.png");
    reveal_strlit("/assets/img/pdf.png");
    reveal_strlit("/assets/js/main.js");
    reveal_strlit("/assets/js/components/media.js");
    reveal_strlit("/assets/js/components/medias.js");
    reveal_strlit("/assets/js/components/metadata.js");
    reveal_strlit("/assets/js/components/player.js");
    reveal_strlit("/assets/js/components/player/video.js");
    reveal_strlit("/assets/js/components/player/audio.js");
    reveal_strlit("/assets/js/components/search.js");
    reveal_strlit("/assets/js/components/summary.js");
    reveal_strlit("/assets/js/components/config.js");
    reveal_strlit("/assets/js/components/config/scandir.js");
    reveal_strlit("/assets/js/components/config/summary.js");
    reveal_strlit("/assets/js/components/config/genres.js");
    reveal_strlit("/assets/js/components/config/casts.js");
    reveal_strlit("/assets/js/components/config/service-log.js");
    reveal_strlit("/assets/js/components/config/prerequisites.js");
    reveal_strlit("/assets/js/services/app.js");
    reveal_strlit("/assets/js/services/elastic.js");
    reveal_strlit("/assets/js/services/EventBus.js");
    reveal_strlit("/assets/js/services/history.js");
    assert("/"@.len() == 1);
    assert("/favicon.ico"@.len() == 12);
    assert("/assets/img/audio.png"@.len() == 21);
    assert("/assets/img/pdf.png"@.len() == 19);
    assert("/assets/js/main.js"@.len() == 18);
    assert("/assets/js/components/media.js"@.len() == 30);
    assert("/assets/js/components/medias.js"@.len() == 31);
    assert("/assets/js/components/metadata.js"@.len() == 33);
    assert("/assets/js/components/player.js"@.len() == 31);
    assert("/assets/js/components/player/video.js"@.len() == 37);
    assert("/assets/js/components/player/audio.js"@.len() == 37);
    assert("/assets/js/components/search.js"@.len() == 31);
    assert("/assets/js/components/summary.js"@.len() == 32);
    assert("/assets/js/components/config.js"@.len() == 31);
    assert("/assets/js/components/config/scandir.js"@.len() == 39);
    assert("/assets/js/components/config/summary.js"@.len() == 39);
    assert("/assets/js/components/config/genres.js"@.len() == 38);
    assert("/assets/js/components/config/casts.js"@.len() == 37);
    assert("/assets/js/components/config/service-log.js"@.len() == 43);
    assert("/assets/js/components/config/prerequisites.js"@.len() == 45);
    assert("/assets/js/services/app.js"@.len() == 26);
    assert("/assets/js/services/elastic.js"@.len() == 30);
    assert("/assets/js/services/EventBus.js"@.len() == 31);
    assert("/assets/js/services/history.js"@.len() == 30);
    assert("/assets/js/components/media.js"@[11] == 'c');
    assert("/assets/js/components/media.js"@[20] == 's');
    assert("/assets/js/services/elastic.js"@[11] == 's');
    assert("/assets/js/services/elastic.js"@[20] == 'e');
    assert("/assets/js/services/history.js"@[11] == 's');
    assert("/assets/js/services/history.js"@[20] == 'h');
    assert("/assets/js/components/medias.js"@[11] == 'c');
    assert("/assets/js/components/medias.js"@[22] == 'm');
    assert("/assets/js/components/player.js"@[11] == 'c');
    assert("/assets/js/components/player.js"@[22] == 'p');
    assert("/assets/js/components/search.js"@[11] == 'c');
    assert("/assets/js/components/search.js"@[22] == 's');
    assert("/assets/js/components/config.js"@[11] == 'c');
    assert("/assets/js/components/config.js"@[22] == 'c');
    assert("/assets/js/services/EventBus.js"@[11] == 's');
    assert("/assets/js/services/EventBus.js"@[22] == 'e');
    assert("/assets/js/components/player/video.js"@[22] == 'p');
    assert("/assets/js/components/player/video.js"@[29] == 'v');
    assert("/assets/js/components/player/audio.js"@[22] == 'p');
    assert("/assets/js/components/player/audio.js"@[29] == 'a');
    assert("/assets/js/components/config/casts.js"@[22] == 'c');
    assert("/assets/js/components/config/casts.js"@[29] == 'c');
    assert("/assets/js/components/config/scandir.js"@[30] == 'c');
    assert("/assets/js/components/config/summary.js"@[30] == 'u');
}

} // verus!
