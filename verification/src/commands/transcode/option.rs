//! Options of the `transcode` command.

use vstd::prelude::*;
use crate::commands::{CmdError, ErrorKind, OPTION_SEPARATOR};
use crate::commands::search::option::{threads_for, list_of, list_from, err_view, ErrView};
use crate::foreign::{cpu_count, lowercase, to_lowercase};
use crate::helpers::{is_video_ext, is_video_extension, key_index, insert_option, option_views,
    set_option, option_key_index, copy_options, get_file_name, file_name_of};
use crate::text::{views, split_char, split_spec, contains_string, parse_usize, parse_usize_spec,
    owned, str_eq, trim, trim_spec, lemma_split_nonempty};

verus! {

/// What the options of a transcoding are.
pub struct TranscodeSettings {
    pub extensions: Seq<Seq<char>>,
    pub thread: nat,
    pub delete: bool,
    pub keep_smallest: bool,
    pub split: nat,
    pub force: bool,
    pub check: bool,
    pub list: Seq<Seq<char>>,
    pub skip_list: Seq<Seq<char>>,
    pub output_formats: Seq<(Seq<char>, Seq<char>)>,
}

/// Options of a transcoding.
pub struct TranscodeOption {
    pub extensions: Vec<String>,
    pub thread: usize,
    pub delete: bool,
    pub keep_smallest: bool,
    pub split: usize,
    pub force: bool,
    pub check: bool,
    pub list: Vec<String>,
    pub skip_list: Vec<String>,
    /// Output extension by input extension (`*` for every other input).
    pub output_formats: Vec<(String, String)>,
}

impl View for TranscodeOption {
    type V = TranscodeSettings;

    open spec fn view(&self) -> TranscodeSettings {
        TranscodeSettings {
            extensions: views(self.extensions@),
            thread: self.thread as nat,
            delete: self.delete,
            keep_smallest: self.keep_smallest,
            split: self.split as nat,
            force: self.force,
            check: self.check,
            list: views(self.list@),
            skip_list: views(self.skip_list@),
            output_formats: option_views(self.output_formats@),
        }
    }
}

/// The options of a transcoding before any command-line option applies.
pub open spec fn initial_transcode(thread: nat) -> TranscodeSettings {
    TranscodeSettings {
        extensions: Seq::empty(),
        thread,
        delete: false,
        keep_smallest: false,
        split: 0,
        force: false,
        check: false,
        list: Seq::empty(),
        skip_list: Seq::empty(),
        output_formats: Seq::empty(),
    }
}

/// The output extension recorded for `key`, if any.
pub open spec fn lookup(formats: Seq<(Seq<char>, Seq<char>)>, key: Seq<char>) -> Option<Seq<char>> {
    let i = key_index(formats, key);
    if i >= 0 { Some(formats[i].1) } else { None }
}

/// The output extension for input files with extension `extension`: the
/// one given for it (compared in lowercase), else the one given for every
/// input (`*`), else `mp4`.
pub open spec fn output_for(formats: Seq<(Seq<char>, Seq<char>)>, extension: Seq<char>) -> Seq<char> {
    match lookup(formats, lowercase(extension)) {
        Some(o) => o,
        None => match lookup(formats, "*"@) {
            Some(o) => o,
            None => "mp4"@,
        },
    }
}

/// The second piece of `parts`, empty when there is none.
pub open spec fn second_or_empty(parts: Seq<Seq<char>>) -> Seq<char> {
    if parts.len() > 1 { parts[1] } else { Seq::empty() }
}

/// What one item of the `--output` option says: `from>to` maps input
/// extension `from` to output `to`; a lone `to` is the output for every
/// input (`*`). An empty item, or one with nothing before `>`, says nothing.
/// The output extension is taken in lowercase.
pub open spec fn output_rule(piece: Seq<char>) -> Option<(Seq<char>, Seq<char>)> {
    let parts = split_spec(piece, '>');
    let from = parts[0];
    let to = second_or_empty(parts);
    if piece.len() == 0 || from.len() == 0 {
        None
    } else if to.len() == 0 {
        Some(("*"@, lowercase(from)))
    } else {
        Some((from, lowercase(to)))
    }
}

/// The output formats after the items of the `--output` option apply one
/// after the other; the first item whose output is no video extension
/// stops with an error, the items before it applied.
pub open spec fn apply_outputs(formats: Seq<(Seq<char>, Seq<char>)>, pieces: Seq<Seq<char>>) -> (Seq<(Seq<char>, Seq<char>)>, bool)
    decreases pieces.len(),
{
    if pieces.len() == 0 {
        (formats, true)
    } else {
        match output_rule(pieces[0]) {
            None => apply_outputs(formats, pieces.drop_first()),
            Some(rule) => if is_video_ext(rule.1) {
                apply_outputs(insert_option(formats, rule.0, rule.1), pieces.drop_first())
            } else {
                (formats, false)
            },
        }
    }
}

/// The nonempty lines of a list file, trimmed.
pub open spec fn list_lines(lines: Seq<Seq<char>>) -> Seq<Seq<char>>
    decreases lines.len(),
{
    if lines.len() == 0 {
        Seq::empty()
    } else {
        let prev = list_lines(lines.drop_last());
        if lines.last().len() > 0 { prev.push(trim_spec(lines.last())) } else { prev }
    }
}

/// The file names of the nonempty lines of a skip-list file, trimmed.
pub open spec fn skip_lines(lines: Seq<Seq<char>>) -> Seq<Seq<char>>
    decreases lines.len(),
{
    if lines.len() == 0 {
        Seq::empty()
    } else {
        let prev = skip_lines(lines.drop_last());
        if lines.last().len() > 0 { prev.push(file_name_of(trim_spec(lines.last()))) } else { prev }
    }
}

/// Whether a transcoding takes input files with extension `e`.
pub open spec fn admits_input(s: TranscodeSettings, e: Seq<char>) -> bool {
    s.extensions.len() == 0 || s.extensions.contains(lowercase(e))
}

/// What one command-line option does to the options of a transcoding;
/// `lines` are the lines of the file that a `list` or `skip-list` option
/// names (`None` when it could not be read).
pub open spec fn transcode_option_step(s: TranscodeSettings, key: Seq<char>, value: Seq<char>, lines: Option<Seq<Seq<char>>>) -> Result<TranscodeSettings, ErrView> {
    if key == "d"@ {
        Ok(TranscodeSettings { delete: true, ..s })
    } else if key == "keep-smallest"@ {
        Ok(TranscodeSettings { keep_smallest: true, ..s })
    } else if key == "c"@ || key == "check"@ {
        Ok(TranscodeSettings { check: true, ..s })
    } else if key == "f"@ || key == "force"@ {
        Ok(TranscodeSettings { force: true, ..s })
    } else if key == "t"@ || key == "thread"@ {
        match parse_usize_spec(value) {
            Some(n) => Ok(TranscodeSettings { thread: n, ..s }),
            None => Err((ErrorKind::NotFound, "Invalid value for thread"@)),
        }
    } else if key == "e"@ || key == "extensions"@ {
        Ok(TranscodeSettings { extensions: list_of(value), ..s })
    } else if key == "o"@ || key == "output"@ {
        let r = apply_outputs(s.output_formats, split_spec(value, ','));
        if r.1 {
            Ok(TranscodeSettings { output_formats: r.0, ..s })
        } else {
            Err((ErrorKind::NotFound, "Invalid value for output"@))
        }
    } else if key == "s"@ || key == "split"@ {
        match parse_usize_spec(if value.len() == 0 { "10"@ } else { value }) {
            Some(n) => Ok(TranscodeSettings { split: n, ..s }),
            None => Err((ErrorKind::NotFound, "Invalid value for split"@)),
        }
    } else if key == "skip-list"@ {
        match lines {
            Some(l) => Ok(TranscodeSettings { skip_list: s.skip_list + skip_lines(l), ..s }),
            None => Err((ErrorKind::NotFound, "Unknown value for skip-list"@)),
        }
    } else if key == "list"@ {
        match lines {
            Some(l) => Ok(TranscodeSettings { list: s.list + list_lines(l), ..s }),
            None => Err((ErrorKind::NotFound, "Unknown value for list"@)),
        }
    } else {
        Err((ErrorKind::InvalidInput, crate::commands::search::option::unknown_argument(key)))
    }
}

/// The options of a transcoding after the command-line options `opts`
/// apply one after the other, `files[i]` being the lines of the file that
/// option `i` names; the first option that fails gives the error.
pub open spec fn transcode_options_fold(s: TranscodeSettings, opts: Seq<(Seq<char>, Seq<char>)>, files: Seq<Option<Seq<Seq<char>>>>) -> Result<TranscodeSettings, ErrView>
    decreases opts.len(),
{
    if opts.len() == 0 {
        Ok(s)
    } else {
        match transcode_option_step(s, opts[0].0, opts[0].1, files[0]) {
            Ok(n) => transcode_options_fold(n, opts.drop_first(), files.drop_first()),
            Err(e) => Err(e),
        }
    }
}

/// The views of the lines of the files, when they could be read.
pub open spec fn files_view(files: Seq<Option<Vec<String>>>) -> Seq<Option<Seq<Seq<char>>>> {
    files.map_values(|f: Option<Vec<String>>| lines_view(f))
}

/// The views of the lines of a file, when it could be read.
pub open spec fn lines_view(lines: Option<Vec<String>>) -> Option<Seq<Seq<char>>> {
    match lines {
        Some(v) => Some(views(v@)),
        None => None,
    }
}

/// A copy of the lines of a file.
pub fn copy_lines(lines: &Option<Vec<String>>) -> (r: Option<Vec<String>>)
    ensures
        lines_view(r) == lines_view(*lines),
{
    match lines {
        Some(v) => {
            let c = v.clone();
            assert(views(c@) =~= views(v@));
            Some(c)
        },
        None => None,
    }
}

impl TranscodeOption {
    /// The options of a transcoding: no filter, no deletion, no split, the
    /// default output, and one thread less than the CPUs (at least one).
    pub fn new() -> (r: Self)
        ensures
            r@ == initial_transcode(r@.thread),
            r.thread >= 1,
    {
        let r = TranscodeOption {
            extensions: Vec::new(),
            thread: threads_for(cpu_count()),
            delete: false,
            keep_smallest: false,
            split: 0,
            force: false,
            check: false,
            output_formats: Vec::new(),
            list: Vec::new(),
            skip_list: Vec::new(),
        };
        assert(views(r.extensions@) =~= Seq::<Seq<char>>::empty());
        assert(views(r.list@) =~= Seq::<Seq<char>>::empty());
        assert(views(r.skip_list@) =~= Seq::<Seq<char>>::empty());
        assert(option_views(r.output_formats@) =~= Seq::<(Seq<char>, Seq<char>)>::empty());
        r
    }

    /// Deletes the original file after transcoding.
    pub fn set_delete(&mut self)
        ensures
            final(self)@ == (TranscodeSettings { delete: true, ..old(self)@ }),
    {
        self.delete = true;
    }

    /// Keeps the smallest of the input and the output.
    pub fn set_keep_smallest(&mut self)
        ensures
            final(self)@ == (TranscodeSettings { keep_smallest: true, ..old(self)@ }),
    {
        self.keep_smallest = true;
    }

    /// Only checks for invalid videos.
    pub fn set_check(&mut self)
        ensures
            final(self)@ == (TranscodeSettings { check: true, ..old(self)@ }),
    {
        self.check = true;
    }

    /// Transcodes even streamable files.
    pub fn set_force(&mut self)
        ensures
            final(self)@ == (TranscodeSettings { force: true, ..old(self)@ }),
    {
        self.force = true;
    }

    /// Sets the number of threads: a decimal number.
    pub fn set_thread(&mut self, value: &String) -> (r: Result<(), CmdError>)
        ensures
            match parse_usize_spec(value@) {
                Some(n) => r is Ok && final(self)@ == (TranscodeSettings { thread: n, ..old(self)@ }),
                None => (r matches Err(e) && err_view(e) == (ErrorKind::NotFound, "Invalid value for thread"@))
                    && final(self)@ == old(self)@,
            },
    {
        match parse_usize(value.as_str()) {
            Some(v) => {
                self.thread = v;
                Ok(())
            },
            None => Err(CmdError::new(ErrorKind::NotFound, owned("Invalid value for thread"))),
        }
    }

    /// Sets the length of the parts, in seconds, that a file is split into
    /// (10 when the value is empty).
    pub fn set_split(&mut self, value: &String) -> (r: Result<(), CmdError>)
        ensures
            match parse_usize_spec(if value@.len() == 0 { "10"@ } else { value@ }) {
                Some(n) => r is Ok && final(self)@ == (TranscodeSettings { split: n, ..old(self)@ }),
                None => (r matches Err(e) && err_view(e) == (ErrorKind::NotFound, "Invalid value for split"@))
                    && final(self)@ == old(self)@,
            },
    {
        let v = if value.as_str().is_empty() { owned("10") } else { value.clone() };
        match parse_usize(v.as_str()) {
            Some(n) => {
                self.split = n;
                Ok(())
            },
            None => Err(CmdError::new(ErrorKind::NotFound, owned("Invalid value for split"))),
        }
    }

    /// Sets the output formats, such as `flv>webm,avi>mp4,mp4`: each item
    /// `from>to` maps an input extension to an output extension, a lone
    /// item is the output for every other input. Every output must be a
    /// video extension; the items before the first one that is not stay
    /// applied.
    pub fn set_output(&mut self, value: &String) -> (r: Result<(), CmdError>)
        ensures
            ({
                let a = apply_outputs(old(self)@.output_formats, split_spec(value@, ','));
                &&& final(self)@ == (TranscodeSettings { output_formats: a.0, ..old(self)@ })
                &&& a.1 ==> r is Ok
                &&& !a.1 ==> (r matches Err(e) && err_view(e) == (ErrorKind::NotFound, "Invalid value for output"@))
            }),
    {
        let pieces = split_char(value.as_str(), ',');
        let ghost ps = views(pieces@);
        let ghost start = old(self)@.output_formats;
        let mut i: usize = 0;
        assert(ps.skip(0) =~= ps);
        while i < pieces.len()
            invariant
                i <= pieces.len(),
                ps == views(pieces@),
                ps == split_spec(value@, ','),
                start == old(self)@.output_formats,
                self@ == (TranscodeSettings { output_formats: self@.output_formats, ..old(self)@ }),
                apply_outputs(start, ps) == apply_outputs(self@.output_formats, ps.skip(i as int)),
            decreases pieces.len() - i,
        {
            let ghost rest = ps.skip(i as int);
            assert(rest[0] == pieces@[i as int]@);
            assert(rest.drop_first() =~= ps.skip(i + 1));
            let piece = &pieces[i];
            if !piece.as_str().is_empty() {
                let parts = split_char(piece.as_str(), '>');
                proof { lemma_split_nonempty(piece@, '>'); }
                let from = &parts[0];
                let to: String = if parts.len() > 1 { parts[1].clone() } else { String::new() };
                if !from.as_str().is_empty() {
                    let (key, out) = if to.as_str().is_empty() {
                        (owned("*"), to_lowercase(from.as_str()))
                    } else {
                        (from.clone(), to_lowercase(to.as_str()))
                    };
                    proof {
                        assert(output_rule(piece@) == Some((key@, out@)));
                    }
                    if is_video_extension(out.as_str()) {
                        set_option(&mut self.output_formats, key, out);
                    } else {
                        return Err(CmdError::new(ErrorKind::NotFound, owned("Invalid value for output")));
                    }
                }
            }
            i = i + 1;
        }
        assert(ps.skip(i as int) =~= Seq::<Seq<char>>::empty());
        Ok(())
    }

    /// Adds the nonempty lines of a list file (`None` when it could not be
    /// read), trimmed, to the files to transcode.
    pub fn set_list(&mut self, lines: Option<Vec<String>>) -> (r: Result<(), CmdError>)
        ensures
            match lines_view(lines) {
                Some(l) => r is Ok && final(self)@ == (TranscodeSettings { list: old(self)@.list + list_lines(l), ..old(self)@ }),
                None => (r matches Err(e) && err_view(e) == (ErrorKind::NotFound, "Unknown value for list"@))
                    && final(self)@ == old(self)@,
            },
    {
        match lines {
            Some(ls) => {
                let mut i: usize = 0;
                let ghost l = views(ls@);
                let ghost l0 = old(self)@.list;
                assert(l.take(0) =~= Seq::<Seq<char>>::empty());
                assert(l0 + list_lines(l.take(0)) =~= l0);
                while i < ls.len()
                    invariant
                        i <= ls.len(),
                        l == views(ls@),
                        self@ == (TranscodeSettings { list: l0 + list_lines(l.take(i as int)), ..old(self)@ }),
                    decreases ls.len() - i,
                {
                    assert(l.take(i + 1).drop_last() =~= l.take(i as int));
                    let line = &ls[i];
                    if !line.as_str().is_empty() {
                        let t = trim(line.as_str());
                        let ghost before = self.list@;
                        self.list.push(t);
                        assert(l.take(i + 1).last() == line@);
                        assert(views(self.list@) =~= views(before).push(t@));
                        assert(views(self.list@) =~= l0 + list_lines(l.take(i + 1)));
                    } else {
                        assert(l.take(i + 1).last() == line@);
                    }
                    i = i + 1;
                }
                assert(l.take(ls.len() as int) =~= l);
                Ok(())
            },
            None => Err(CmdError::new(ErrorKind::NotFound, owned("Unknown value for list"))),
        }
    }

    /// Adds the file names of the nonempty lines of a skip-list file
    /// (`None` when it could not be read), trimmed, to the files to skip.
    pub fn set_skiplist(&mut self, lines: Option<Vec<String>>) -> (r: Result<(), CmdError>)
        ensures
            match lines_view(lines) {
                Some(l) => r is Ok && final(self)@ == (TranscodeSettings { skip_list: old(self)@.skip_list + skip_lines(l), ..old(self)@ }),
                None => (r matches Err(e) && err_view(e) == (ErrorKind::NotFound, "Unknown value for skip-list"@))
                    && final(self)@ == old(self)@,
            },
    {
        match lines {
            Some(ls) => {
                let mut i: usize = 0;
                let ghost l = views(ls@);
                let ghost l0 = old(self)@.skip_list;
                assert(l.take(0) =~= Seq::<Seq<char>>::empty());
                assert(l0 + skip_lines(l.take(0)) =~= l0);
                while i < ls.len()
                    invariant
                        i <= ls.len(),
                        l == views(ls@),
                        self@ == (TranscodeSettings { skip_list: l0 + skip_lines(l.take(i as int)), ..old(self)@ }),
                    decreases ls.len() - i,
                {
                    assert(l.take(i + 1).drop_last() =~= l.take(i as int));
                    let line = &ls[i];
                    if !line.as_str().is_empty() {
                        let t = trim(line.as_str());
                        let name = get_file_name(t.as_str());
                        let ghost before = self.skip_list@;
                        self.skip_list.push(name);
                        assert(l.take(i + 1).last() == line@);
                        assert(views(self.skip_list@) =~= views(before).push(name@));
                        assert(views(self.skip_list@) =~= l0 + skip_lines(l.take(i + 1)));
                    } else {
                        assert(l.take(i + 1).last() == line@);
                    }
                    i = i + 1;
                }
                assert(l.take(ls.len() as int) =~= l);
                Ok(())
            },
            None => Err(CmdError::new(ErrorKind::NotFound, owned("Unknown value for skip-list"))),
        }
    }

    /// The output extension for input files with extension `extension`.
    pub fn get_output(&self, extension: &String) -> (r: String)
        ensures
            r@ == output_for(self@.output_formats, extension@),
    {
        let l = to_lowercase(extension.as_str());
        let ghost ov = option_views(self.output_formats@);
        match option_key_index(&self.output_formats, l.as_str()) {
            Some(i) => {
                assert(ov[i as int].1 == self.output_formats@[i as int].1@);
                self.output_formats[i].1.clone()
            },
            None => {
                let star = "*";
                match option_key_index(&self.output_formats, star) {
                    Some(j) => {
                        assert(ov[j as int].1 == self.output_formats@[j as int].1@);
                        self.output_formats[j].1.clone()
                    },
                    None => owned("mp4"),
                }
            },
        }
    }

    /// Applies one command-line option of the transcode command; `lines`
    /// are the lines of the file that a `list` or `skip-list` option names
    /// (`None` when it could not be read).
    pub fn apply_option(&mut self, key: &String, value: &String, lines: Option<Vec<String>>) -> (r: Result<(), CmdError>)
        ensures
            match transcode_option_step(old(self)@, key@, value@, lines_view(lines)) {
                Ok(s) => r is Ok && final(self)@ == s,
                Err(e) => (r matches Err(x) && err_view(x) == e),
            },
    {
        proof {
            reveal_strlit("d");
            reveal_strlit("keep-smallest");
            reveal_strlit("c");
            reveal_strlit("check");
            reveal_strlit("f");
            reveal_strlit("force");
            reveal_strlit("t");
            reveal_strlit("thread");
            reveal_strlit("e");
            reveal_strlit("extensions");
            reveal_strlit("o");
            reveal_strlit("output");
            reveal_strlit("s");
            reveal_strlit("split");
            reveal_strlit("skip-list");
            reveal_strlit("list");
        }
        let k = key.as_str();
        if str_eq(k, "d") {
            self.set_delete();
            Ok(())
        } else if str_eq(k, "keep-smallest") {
            self.set_keep_smallest();
            Ok(())
        } else if str_eq(k, "c") || str_eq(k, "check") {
            self.set_check();
            Ok(())
        } else if str_eq(k, "f") || str_eq(k, "force") {
            self.set_force();
            Ok(())
        } else if str_eq(k, "t") || str_eq(k, "thread") {
            self.set_thread(value)
        } else if str_eq(k, "e") || str_eq(k, "extensions") {
            self.extensions_from(value)
        } else if str_eq(k, "o") || str_eq(k, "output") {
            self.set_output(value)
        } else if str_eq(k, "s") || str_eq(k, "split") {
            self.set_split(value)
        } else if str_eq(k, "skip-list") {
            self.set_skiplist(lines)
        } else if str_eq(k, "list") {
            self.set_list(lines)
        } else {
            let m = crate::text::concat(crate::text::concat("\nUnkown argument ", k).as_str(), "\n");
            Err(CmdError::new(ErrorKind::InvalidInput, m))
        }
    }

    /// Whether the `keep-smallest` option is ignored: it only applies
    /// when the original file is deleted.
    pub fn keep_smallest_ignored(&self) -> (r: bool)
        ensures
            r == (!self.delete && self.keep_smallest),
    {
        !self.delete && self.keep_smallest
    }

    /// Transcodes only files with these extensions (separated by `,`,
    /// compared in lowercase).
    pub fn extensions_from(&mut self, value: &String) -> (r: Result<(), CmdError>)
        ensures
            r is Ok,
            final(self)@ == (TranscodeSettings { extensions: list_of(value@), ..old(self)@ }),
    {
        self.extensions = list_from(value);
        Ok(())
    }

    /// Whether files with this extension are transcoded: every extension
    /// when none is given.
    pub fn has_extension(&self, extension: &String) -> (r: bool)
        ensures
            r == admits_input(self@, extension@),
    {
        if self.extensions.len() == 0 {
            return true;
        }
        let l = to_lowercase(extension.as_str());
        contains_string(&self.extensions, &l)
    }
}

impl Clone for TranscodeOption {
    /// A copy of the options, except that its skip list is the list of
    /// files to transcode.
    fn clone(&self) -> (r: Self)
        ensures
            r@ == (TranscodeSettings { skip_list: self@.list, ..self@ }),
    {
        TranscodeOption {
            delete: self.delete,
            keep_smallest: self.keep_smallest,
            extensions: self.extensions.clone(),
            output_formats: copy_options(&self.output_formats),
            split: self.split,
            thread: self.thread,
            force: self.force,
            check: self.check,
            list: self.list.clone(),
            skip_list: self.list.clone(),
        }
    }
}

/// Setting the output `from>to` maps the inputs whose extension is `from`
/// once lowercased to `to` in lowercase: after `set_output` with that value
/// succeeds, `get_output` of such an extension gives it. Neither part holds
/// a `,` or a `>`, and `to` is a video extension once lowercased.
pub proof fn law_output_after_set(formats: Seq<(Seq<char>, Seq<char>)>, from: Seq<char>, to: Seq<char>, e: Seq<char>)
    requires
        from.len() > 0,
        to.len() > 0,
        !from.contains(','),
        !from.contains('>'),
        !to.contains(','),
        !to.contains('>'),
        is_video_ext(lowercase(to)),
        lowercase(e) == from,
    ensures
        ({
            let a = apply_outputs(formats, split_spec(from + seq!['>'] + to, ','));
            &&& a == (insert_option(formats, from, lowercase(to)), true)
            &&& output_for(a.0, e) == lowercase(to)
        }),
{
    let piece = from + seq!['>'] + to;
    assert(!piece.contains(',')) by {
        if piece.contains(',') {
            let k = choose|k: int| 0 <= k < piece.len() && piece[k] == ',';
            if k < from.len() {
                assert(from[k] == ',');
            } else if k > from.len() {
                assert(to[k - from.len() - 1] == ',');
            }
        }
    }
    crate::text::lemma_split_single(piece, ',');
    crate::text::lemma_split_append(from, '>', to);
    crate::text::lemma_split_single(to, '>');
    assert(split_spec(piece, '>') =~= seq![from, to]);
    assert(output_rule(piece) == Some((from, lowercase(to))));
    let n = insert_option(formats, from, lowercase(to));
    assert(seq![piece].drop_first() =~= Seq::<Seq<char>>::empty());
    assert(apply_outputs(formats, seq![piece]) == apply_outputs(n, Seq::<Seq<char>>::empty()));
    crate::helpers::lemma_insert_sets(formats, from, lowercase(to));
}

/// Once `extensions_from(value)` sets the extensions of a transcoding, it
/// takes input files with extension `e` exactly when `e` in lowercase is
/// one of the lowercase items of `value`.
pub proof fn law_input_filter(s: TranscodeSettings, value: Seq<char>, e: Seq<char>)
    ensures
        admits_input(TranscodeSettings { extensions: list_of(value), ..s }, e) == list_of(value).contains(lowercase(e)),
{
    crate::commands::search::option::lemma_list_of_nonempty(value);
}

/// Each option of a transcoding with a short name has a long one that does
/// the same: `-c` and `--check`, `-f` and `--force`, `-t` and `--thread`,
/// `-e` and `--extensions`, `-o` and `--output`, `-s` and `--split`. The
/// switches `d`, `keep-smallest`, `check` and `force` always apply and turn
/// on what they name, leaving the rest as it was.
pub proof fn law_transcode_option_names(s: TranscodeSettings, value: Seq<char>, lines: Option<Seq<Seq<char>>>)
    ensures
        transcode_option_step(s, "check"@, value, lines) == transcode_option_step(s, "c"@, value, lines),
        transcode_option_step(s, "force"@, value, lines) == transcode_option_step(s, "f"@, value, lines),
        transcode_option_step(s, "thread"@, value, lines) == transcode_option_step(s, "t"@, value, lines),
        transcode_option_step(s, "extensions"@, value, lines) == transcode_option_step(s, "e"@, value, lines),
        transcode_option_step(s, "output"@, value, lines) == transcode_option_step(s, "o"@, value, lines),
        transcode_option_step(s, "split"@, value, lines) == transcode_option_step(s, "s"@, value, lines),
        transcode_option_step(s, "d"@, value, lines) matches Ok(n) && n.delete
            && n == (TranscodeSettings { delete: true, ..s }),
        transcode_option_step(s, "keep-smallest"@, value, lines) matches Ok(n) && n.keep_smallest
            && n == (TranscodeSettings { keep_smallest: true, ..s }),
        transcode_option_step(s, "check"@, value, lines) matches Ok(n) && n.check
            && n == (TranscodeSettings { check: true, ..s }),
        transcode_option_step(s, "force"@, value, lines) matches Ok(n) && n.force
            && n == (TranscodeSettings { force: true, ..s }),
        transcode_option_step(s, "extensions"@, value, lines) matches Ok(n)
            && n.extensions == list_of(value),
{
    reveal_strlit("d");
    reveal_strlit("keep-smallest");
    reveal_strlit("c");
    reveal_strlit("check");
    reveal_strlit("f");
    reveal_strlit("force");
    reveal_strlit("t");
    reveal_strlit("thread");
    reveal_strlit("e");
    reveal_strlit("extensions");
    reveal_strlit("o");
    reveal_strlit("output");
    reveal_strlit("s");
    reveal_strlit("split");
    reveal_strlit("skip-list");
    reveal_strlit("list");
    assert("d"@.len() == 1);
    assert("keep-smallest"@.len() == 13);
    assert("c"@.len() == 1);
    assert("check"@.len() == 5);
    assert("f"@.len() == 1);
    assert("force"@.len() == 5);
    assert("t"@.len() == 1);
    assert("thread"@.len() == 6);
    assert("e"@.len() == 1);
    assert("extensions"@.len() == 10);
    assert("o"@.len() == 1);
    assert("output"@.len() == 6);
    assert("s"@.len() == 1);
    assert("split"@.len() == 5);
    assert("skip-list"@.len() == 9);
    assert("list"@.len() == 4);
    assert("d"@[0] == 'd');
    assert("keep-smallest"@[0] == 'k');
    assert("c"@[0] == 'c');
    assert("check"@[0] == 'c');
    assert("f"@[0] == 'f');
    assert("force"@[0] == 'f');
    assert("t"@[0] == 't');
    assert("thread"@[0] == 't');
    assert("e"@[0] == 'e');
    assert("extensions"@[0] == 'e');
    assert("o"@[0] == 'o');
    assert("output"@[0] == 'o');
    assert("s"@[0] == 's');
    assert("split"@[0] == 's');
    assert("skip-list"@[0] == 's');
    assert("list"@[0] == 'l');
}

} // verus!
