//! The `search` command: searches a term in a file or a directory.

pub mod option;
pub mod text;
pub mod pdf;
pub mod ms;
pub mod audio;
pub mod video;
pub mod movie;

use vstd::prelude::*;
use crate::commands::{CmdError, CmdOptions, OPTION_SEPARATOR, get_args_parameter, wants_help,
    asks_help};
use crate::commands::search::option::{SearchOption, SearchSettings, search_options_fold, err_view,
    admits_extension, excludes_extension, admits_file, excludes_file};
use crate::text::{owned, concat, push_str, str_eq, contains, contains_sub, replace_all, replace_spec,
    trim, trim_spec, usize_to_string, decimal};
use crate::foreign::{string_push, lowercase, to_lowercase, without_diacritics, remove_diacritics,
    regex_matches, regex_is_match,
    regex_first_groups, regex_capture_first_groups};
use crate::helpers::{get_extension, get_file_name, extension_of, file_name_of, option_views};
use vstd::string::StringSliceAdditionalSpecFns;
use vstd::utf8::{encode_utf8, decode_utf8, is_char_boundary, encode_utf8_decode_utf8};

verus! {

/// Message of the error when the file path is missing.
pub const FILE_PATH_REQUIRED: &'static str = "\nread error: 'file_path' parameter required\n";

/// Message of the error when the search term is missing.
pub const SEARCH_TERM_REQUIRED: &'static str = "\nread error: 'search_term' parameter required\n";

/// # Search command
///
/// Searches for a term in a file or directory: `oms search ./Cargo.toml opt`.
pub struct Search {
    /// Path of the file to search in.
    pub file_path: String,
    /// The search term.
    pub search_term: String,
    /// Command options.
    pub cmd_options: CmdOptions,
}

/// The usage of this command.
pub open spec fn usage_text() -> Seq<char> {
    "search [options] <file_path|directory_path> <query>
    Search in file or directory. Display each line of the file containing the query text
    --help    
    -e <string> --extensions=<string>    Search only in these file extensions, separated by '"@
        + seq![OPTION_SEPARATOR] + "'
    --exclude-extensions=<string>    exlude these file extensions, separated by '"@ + seq![
        OPTION_SEPARATOR] + "'
    -f <> --files=<string>  Search only in these file names
    --exclude-files=<string>    exlude these files, separated by '"@ + seq![OPTION_SEPARATOR]
        + "'
    --display=<string>  file-only|debug
    --pause<int>    Pause between each file, in millis
"@
}

/// Help message for this command.
pub fn usage() -> (r: String)
    ensures
        r@ == usage_text(),
{
    let mut r = owned("search [options] <file_path|directory_path> <query>
    Search in file or directory. Display each line of the file containing the query text
    --help    
    -e <string> --extensions=<string>    Search only in these file extensions, separated by '");
    string_push(&mut r, OPTION_SEPARATOR);
    push_str(&mut r, "'
    --exclude-extensions=<string>    exlude these file extensions, separated by '");
    string_push(&mut r, OPTION_SEPARATOR);
    push_str(&mut r, "'
    -f <> --files=<string>  Search only in these file names
    --exclude-files=<string>    exlude these files, separated by '");
    string_push(&mut r, OPTION_SEPARATOR);
    push_str(&mut r, "'
    --display=<string>  file-only|debug
    --pause<int>    Pause between each file, in millis
");
    assert(r@ =~= usage_text());
    r
}

/// Returns Search from the command line: the file path is the argument
/// before last, the search term the last one.
pub fn build_cmd(args: &Vec<String>, options: CmdOptions) -> (r: Result<Search, CmdError>)
    requires
        args.len() >= 2,
    ensures
        r matches Ok(c) && c.file_path@ == args@[args.len() - 2]@ && c.search_term@
            == args@.last()@ && c.cmd_options == options,
{
    let file_path = match get_args_parameter(args, args.len() - 2, FILE_PATH_REQUIRED) {
        Ok(v) => owned(v),
        Err(_) => String::new(),
    };
    let search_term = match get_args_parameter(args, args.len() - 1, SEARCH_TERM_REQUIRED) {
        Ok(v) => owned(v),
        Err(_) => String::new(),
    };
    Ok(Search { file_path, search_term, cmd_options: options })
}

/// What running a search command does.
pub enum SearchPlan {
    /// Display the usage of the command.
    ShowUsage,
    /// Search with these options.
    Run(SearchOption),
}

impl Search {
    /// What running the command does, starting from the default options of
    /// a search for its term.
    pub fn configure(&self) -> (r: Result<SearchPlan, CmdError>)
        ensures
            asks_help(self.cmd_options@) ==> r matches Ok(SearchPlan::ShowUsage),
            !asks_help(self.cmd_options@) ==> exists|t: nat| t >= 1 && match search_options_fold(
                #[trigger] crate::commands::search::option::initial_search(self.search_term@, t),
                option_views(self.cmd_options@),
            ) {
                Ok(s) => (r matches Ok(SearchPlan::Run(o)) && o@ == s),
                Err(e) => (r matches Err(x) && err_view(x) == e),
            },
            r matches Ok(SearchPlan::Run(o)) ==> !asks_help(self.cmd_options@)
                && o@.search_term == self.search_term@,
    {
        let option = SearchOption::new(self.search_term.clone());
        let ghost t = option@.thread;
        proof {
            crate::commands::search::option::lemma_fold_keeps_term(option@, option_views(self.cmd_options@));
        }
        let r = self.configure_from(option);
        assert(!asks_help(self.cmd_options@) ==> match search_options_fold(
                crate::commands::search::option::initial_search(self.search_term@, t),
                option_views(self.cmd_options@),
            ) {
                Ok(s) => (r matches Ok(SearchPlan::Run(o)) && o@ == s),
                Err(e) => (r matches Err(x) && err_view(x) == e),
            });
        r
    }

    /// What running the command does, starting from the options `option`:
    /// the usage when the options ask for help; otherwise the options of
    /// the command line apply one after the other, and the first that
    /// fails gives the error.
    pub fn configure_from(&self, option: SearchOption) -> (r: Result<SearchPlan, CmdError>)
        ensures
            asks_help(self.cmd_options@) ==> r matches Ok(SearchPlan::ShowUsage),
            !asks_help(self.cmd_options@) ==> match search_options_fold(option@, option_views(self.cmd_options@)) {
                Ok(s) => (r matches Ok(SearchPlan::Run(o)) && o@ == s),
                Err(e) => (r matches Err(x) && err_view(x) == e),
            },
    {
        if wants_help(&self.cmd_options) {
            return Ok(SearchPlan::ShowUsage);
        }
        let mut opt = option;
        let ghost opts = option_views(self.cmd_options@);
        let ghost start = opt@;
        let mut i: usize = 0;
        assert(opts.skip(0) =~= opts);
        while i < self.cmd_options.len()
            invariant
                i <= self.cmd_options.len(),
                !asks_help(self.cmd_options@),
                opts == option_views(self.cmd_options@),
                start == option@,
                search_options_fold(start, opts) == search_options_fold(opt@, opts.skip(i as int)),
            decreases self.cmd_options.len() - i,
        {
            let ghost before = opt@;
            assert(opts.skip(i as int)[0] == opts[i as int]);
            assert(opts[i as int] == (self.cmd_options@[i as int].0@, self.cmd_options@[i as int].1@));
            assert(opts.skip(i as int).drop_first() =~= opts.skip(i + 1));
            match opt.apply_option(&self.cmd_options[i].0, &self.cmd_options[i].1) {
                Ok(()) => {},
                Err(e) => {
                    assert(search_options_fold(before, opts.skip(i as int)) == Err::<SearchSettings, (crate::commands::ErrorKind, Seq<char>)>(err_view(e)));
                    return Err(e);
                },
            }
            i = i + 1;
        }
        assert(opts.skip(i as int) =~= Seq::<(Seq<char>, Seq<char>)>::empty());
        Ok(SearchPlan::Run(opt))
    }
}

/// How a file is searched.
#[derive(PartialEq, Eq, Structural)]
pub enum SearchKind {
    /// Text of a PDF document.
    Pdf,
    /// Text of an office document.
    Ms,
    /// Lines of a text file.
    Text,
}

/// How a file with this (lowercase) extension is searched.
pub open spec fn kind_of(extension: Seq<char>) -> SearchKind {
    if extension == "pdf"@ {
        SearchKind::Pdf
    } else if extension == "doc"@ || extension == "docx"@ || extension == "odp"@ || extension
        == "odt"@ || extension == "pptx"@ || extension == "xlsx"@ {
        SearchKind::Ms
    } else {
        SearchKind::Text
    }
}

/// How a file with this (lowercase) extension is searched.
pub fn search_kind(extension: &String) -> (r: SearchKind)
    ensures
        r == kind_of(extension@),
        office_extensions().contains(extension@) ==> r == SearchKind::Ms,
        extension@ == "pdf"@ ==> r == SearchKind::Pdf,
        !office_extensions().contains(extension@) && extension@ != "pdf"@ ==> r == SearchKind::Text,
{
    proof { law_search_kinds(extension@); }
    let e = extension.as_str();
    if str_eq(e, "pdf") {
        SearchKind::Pdf
    } else if str_eq(e, "doc") || str_eq(e, "docx") || str_eq(e, "odp") || str_eq(e, "odt")
        || str_eq(e, "pptx") || str_eq(e, "xlsx") {
        SearchKind::Ms
    } else {
        SearchKind::Text
    }
}

/// Whether a search with options `s` looks into the file at `path`, judged
/// on its lowercase extension and file name.
pub open spec fn searches_file(s: SearchSettings, path: Seq<char>) -> bool {
    let extension = lowercase(extension_of(path));
    let name = lowercase(file_name_of(path));
    admits_extension(s, extension) && !excludes_extension(s, extension) && admits_file(s, name)
        && !excludes_file(s, name)
}

/// Whether a search looks into the file at `file_path`, and how: `None`
/// when the extension and name filters of the options leave it out.
pub fn file_target(option: &SearchOption, file_path: &String) -> (r: Option<SearchKind>)
    ensures
        r is Some <==> searches_file(option@, file_path@),
        r matches Some(k) ==> k == kind_of(lowercase(extension_of(file_path@))),
{
    let extension = to_lowercase(get_extension(file_path.as_str()).as_str());
    let file_name = to_lowercase(get_file_name(file_path.as_str()).as_str());
    if !option.has_extension(&extension) {
        return None;
    }
    if option.is_extension_excluded(&extension) {
        return None;
    }
    if !option.has_file(&file_name) {
        return None;
    }
    if option.is_file_excluded(&file_name) {
        return None;
    }
    Some(search_kind(&extension))
}

/// The form of a search term that texts are compared with: lowercase and
/// without diacritics.
pub open spec fn normalized(term: Seq<char>) -> Seq<char> {
    without_diacritics(lowercase(term))
}

/// The form of a search term that texts are compared with: lowercase and
/// without diacritics.
pub fn normalize_term(search_term: &String) -> (r: String)
    ensures
        r@ == normalized(search_term@),
{
    let l = to_lowercase(search_term.as_str());
    remove_diacritics(l.as_str())
}

/// Whether `text`, in lowercase and without diacritics, contains the
/// (already normalized) `search_term`.
pub open spec fn text_has(text: Seq<char>, search_term: Seq<char>) -> bool {
    contains_sub(without_diacritics(lowercase(text)), search_term)
}

/// Whether `text`, in lowercase and without diacritics, contains the
/// (already normalized) `search_term`.
pub fn text_contains(text: &String, search_term: &String) -> (r: bool)
    ensures
        r == text_has(text@, search_term@),
{
    let l = to_lowercase(text.as_str());
    let d = remove_diacritics(l.as_str());
    contains(d.as_str(), search_term.as_str())
}

/// The pattern that finds the passages around a search term: up to 100
/// characters on each side, case-insensitive, line by line.
pub open spec fn passage_pattern(search_term: Seq<char>) -> Seq<char> {
    "(?im)(.{0,100}"@ + search_term + ".{0,100})"@
}

/// The passages of `content` (without diacritics) around the search term;
/// none when the pattern built from the term does not compile.
pub open spec fn passages(content: Seq<char>, search_term: Seq<char>) -> Seq<Seq<char>> {
    match regex_first_groups(passage_pattern(search_term), without_diacritics(content)) {
        Some(v) => v,
        None => Seq::empty(),
    }
}

/// The passages of `content` around `search_term`, `None` when there is
/// none.
pub fn text_reg_contains(content: &String, search_term: &String) -> (r: Option<Vec<String>>)
    ensures
        match r {
            Some(v) => crate::text::views(v@) == passages(content@, search_term@) && v.len() > 0,
            None => passages(content@, search_term@).len() == 0,
        },
{
    let mut pattern = concat("(?im)(.{0,100}", search_term.as_str());
    push_str(&mut pattern, ".{0,100})");
    let text = remove_diacritics(content.as_str());
    match regex_capture_first_groups(pattern.as_str(), text.as_str()) {
        Some(results) => {
            if results.len() == 0 {
                None
            } else {
                Some(results)
            }
        },
        None => None,
    }
}

/// The excerpt of a found line that is displayed: line breaks made spaces,
/// trimmed, cut to its first 500 bytes (or to as many bytes as the line
/// has, if fewer) when that falls on a character boundary (the whole
/// untouched line otherwise), and trimmed again.
pub open spec fn excerpt(text: Seq<char>) -> Seq<char> {
    let t = trim_spec(replace_spec(text, "\n"@, " "@));
    let tb = encode_utf8(t);
    let len = encode_utf8(text).len() as usize;
    let n: usize = if len < 500 { len } else { 500 };
    trim_spec(if n <= tb.len() as usize && is_char_boundary(tb, n as int) { decode_utf8(tb.take(n as int)) } else { text })
}

/// The line displayed for a found item: empty when only file names are
/// displayed, `<item> -> <excerpt>` and a line break otherwise.
pub open spec fn found_line(item: Seq<char>, text: Seq<char>, display: Seq<char>) -> Seq<char> {
    if display == "file-only"@ {
        Seq::empty()
    } else {
        item + " -> "@ + excerpt(text) + "\n"@
    }
}

/// The pattern that finds the search term in a line shown, to highlight
/// it: the term, case-insensitive, line by line.
pub open spec fn highlight_pattern(search_term: Seq<char>) -> Seq<char> {
    "(?im)"@ + search_term
}

/// Whether the lines of a search can be shown: only file names are shown,
/// or the highlight pattern built from the search term compiles (the
/// display of a line fails when it does not).
pub open spec fn highlight_compiles(option: SearchOption) -> bool {
    option.display@ != "file-only"@ ==> regex_matches(highlight_pattern(option.search_term@), Seq::empty()) is Some
}

/// Whether the lines of a search can be shown: the highlight pattern built
/// from the search term is tested with `regex`.
pub fn can_show_lines(search_option: &SearchOption) -> (r: bool)
    ensures
        r == highlight_compiles(*search_option),
{
    if str_eq(search_option.display.as_str(), "file-only") {
        return true;
    }
    let p = concat("(?im)", search_option.search_term.as_str());
    proof { reveal_strlit(""); assert(""@ =~= Seq::<char>::empty()); }
    regex_is_match(p.as_str(), "").is_some()
}

/// The line displayed for a found item. The matches of the search term are
/// not highlighted here: the colouring is the caller's.
pub fn format_line_found(item: &String, text: &String, search_option: &SearchOption) -> (r: String)
    requires
        highlight_compiles(*search_option),
    ensures
        r@ == found_line(item@, text@, search_option.display@),
{
    if str_eq(search_option.display.as_str(), "file-only") {
        return String::new();
    }
    proof {
        reveal_strlit("\n");
    }
    let t1 = replace_all(text.as_str(), "\n", " ");
    let t2 = trim(t1.as_str());
    let len = text.as_str().len();
    let n: usize = if len < 500 { len } else { 500 };
    let t2s = t2.as_str();
    let t3: String = if n <= t2s.len() && t2s.is_char_boundary(n) {
        let (head, _) = t2s.split_at(n);
        proof {
            encode_utf8_decode_utf8(head@);
            assert(head.spec_bytes() == encode_utf8(head@));
            assert(t2s.spec_bytes() == encode_utf8(t2@));
            assert(encode_utf8(head@) == encode_utf8(t2@).subrange(0, n as int));
            assert(encode_utf8(t2@).take(n as int) =~= encode_utf8(t2@).subrange(0, n as int));
            assert(head@ == decode_utf8(encode_utf8(t2@).take(n as int)));
        }
        owned(head)
    } else {
        text.clone()
    };
    let t4 = trim(t3.as_str());
    let mut r = concat(item.as_str(), " -> ");
    push_str(&mut r, t4.as_str());
    push_str(&mut r, "\n");
    r
}

/// The label of the line at position `n` of a file, and of page `n` of a
/// document.
pub open spec fn number_label(n: nat) -> Seq<char> {
    decimal(n)
}

/// What a search does with the path given on the command line, `kind`
/// being what the file system reports there (`Err(m)` when it could not be
/// read, `m` saying why): a file or a directory is searched; anything else
/// is an error.
pub fn search_target(file_path: &String, kind: &Result<crate::commands::PathKind, String>) -> (r: Result<crate::commands::Target, CmdError>)
    ensures
        *kind == Ok::<crate::commands::PathKind, String>(crate::commands::PathKind::File) ==> r == Ok::<crate::commands::Target, CmdError>(crate::commands::Target::File),
        *kind == Ok::<crate::commands::PathKind, String>(crate::commands::PathKind::Dir) ==> r == Ok::<crate::commands::Target, CmdError>(crate::commands::Target::Dir),
        *kind == Ok::<crate::commands::PathKind, String>(crate::commands::PathKind::Other) ==> (r matches Err(e) && crate::commands::is_error(
            e,
            crate::commands::ErrorKind::InvalidInput,
            "\n"@ + file_path@ + "\nsearch error: unknown file\n\n"@,
        )),
        (kind matches Err(m) ==> (r matches Err(e) && crate::commands::is_error(
            e,
            crate::commands::ErrorKind::NotFound,
            "\n"@ + file_path@ + "\nread error: "@ + m@ + "\n\n"@,
        ))),
{
    match kind {
        Ok(crate::commands::PathKind::File) => Ok(crate::commands::Target::File),
        Ok(crate::commands::PathKind::Dir) => Ok(crate::commands::Target::Dir),
        Ok(crate::commands::PathKind::Other) => {
            let mut m = concat("\n", file_path.as_str());
            push_str(&mut m, "\nsearch error: unknown file\n\n");
            Err(CmdError::new(crate::commands::ErrorKind::InvalidInput, m))
        },
        Err(reason) => {
            let mut m = concat("\n", file_path.as_str());
            push_str(&mut m, "\nread error: ");
            push_str(&mut m, reason.as_str());
            push_str(&mut m, "\n\n");
            Err(CmdError::new(crate::commands::ErrorKind::NotFound, m))
        },
    }
}

/// The lines displayed for the items found in a file, one after the other.
pub open spec fn found_lines(found: Seq<(Seq<char>, Seq<char>)>, display: Seq<char>) -> Seq<char>
    decreases found.len(),
{
    if found.len() == 0 {
        Seq::empty()
    } else {
        found_lines(found.drop_last(), display) + found_line(found.last().0, found.last().1, display)
    }
}

/// The one message a search gives for a file, `file_display` being how the
/// file is shown: none when nothing is found in it; otherwise the file,
/// then one line per item found, in order. When lines are shown and the
/// highlight pattern of the search term does not compile, the display of
/// the lines fails and no message is given.
pub fn search_message(file_display: &str, found: &Vec<(String, String)>, search_option: &SearchOption) -> (r: Option<String>)
    ensures
        found.len() == 0 ==> r is None,
        found.len() > 0 && !highlight_compiles(*search_option) ==> r is None,
        found.len() > 0 && highlight_compiles(*search_option) ==> (r matches Some(m) && m@ == file_display@ + found_lines(crate::text::pair_views(found@), search_option.display@)),
{
    if found.len() == 0 {
        return None;
    }
    if !can_show_lines(search_option) {
        return None;
    }
    let ghost f = crate::text::pair_views(found@);
    let mut m = owned(file_display);
    let mut i: usize = 0;
    assert(f.take(0) =~= Seq::<(Seq<char>, Seq<char>)>::empty());
    assert(m@ =~= file_display@ + found_lines(f.take(0), search_option.display@));
    while i < found.len()
        invariant
            i <= found.len(),
            f == crate::text::pair_views(found@),
            m@ == file_display@ + found_lines(f.take(i as int), search_option.display@),
            highlight_compiles(*search_option),
        decreases found.len() - i,
    {
        assert(f.take(i + 1).drop_last() =~= f.take(i as int));
        assert(f.take(i + 1).last() == (found@[i as int].0@, found@[i as int].1@));
        let line = format_line_found(&found[i].0, &found[i].1, search_option);
        push_str(&mut m, line.as_str());
        i = i + 1;
    }
    assert(f.take(i as int) =~= f);
    Some(m)
}

/// The office documents whose text a search extracts: Word, OpenDocument
/// presentation and text, PowerPoint and Excel files.
pub open spec fn office_extensions() -> Set<Seq<char>> {
    set!["doc"@, "docx"@, "odp"@, "odt"@, "pptx"@, "xlsx"@]
}

/// How a search reads a file, by its lowercase extension: the text of
/// every office document is extracted, a PDF document is read as such, and
/// any other file is read line by line.
pub proof fn law_search_kinds(e: Seq<char>)
    ensures
        office_extensions().contains(e) ==> kind_of(e) == SearchKind::Ms,
        e == "pdf"@ ==> kind_of(e) == SearchKind::Pdf,
        !office_extensions().contains(e) && e != "pdf"@ ==> kind_of(e) == SearchKind::Text,
{
    reveal_strlit("pdf");
    reveal_strlit("doc");
    reveal_strlit("docx");
    reveal_strlit("odp");
    reveal_strlit("odt");
    reveal_strlit("pptx");
    reveal_strlit("xlsx");
    assert("pdf"@[0] == 'p' && "doc"@[0] == 'd' && "docx"@[0] == 'd' && "odp"@[0] == 'o'
        && "odt"@[0] == 'o' && "pptx"@[0] == 'p' && "xlsx"@[0] == 'x');
    assert("pdf"@.len() == 3 && "pptx"@.len() == 4);
}

} // verus!
