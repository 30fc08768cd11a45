use oms::commands::search::{can_show_lines, search_message};
use oms::commands::search::option::{threads_for, list_from, SearchOption};
use oms::commands::search::{build_cmd, file_target, format_line_found,
    normalize_term, search_kind, search_target, text_contains, text_reg_contains, usage, Search,
    SearchKind, SearchPlan};
use oms::commands::search::text::TextSearch;
use oms::commands::search::ms::MsSearch;
use oms::commands::search::pdf::PdfSearch;
use oms::commands::search::video::VideoSearch;
use oms::commands::search::audio::AudioSearch;
use oms::commands::search::movie::MovieSearch;
use oms::commands::{ErrorKind, PathKind, Target};

fn s(x: &str) -> String {
    x.to_string()
}

fn opts(pairs: &[(&str, &str)]) -> Vec<(String, String)> {
    pairs.iter().map(|(k, v)| (s(k), s(v))).collect()
}

#[test]
fn threads_leave_one_cpu() {
    assert_eq!(threads_for(8), 7);
    assert_eq!(threads_for(2), 1);
    assert_eq!(threads_for(1), 1);
}

#[test]
fn list_options_lowercase() {
    assert_eq!(list_from(&s("AVI,Mp4,,x")), vec![s("avi"), s("mp4"), s(""), s("x")]);
    assert_eq!(list_from(&s("")), vec![s("")]);
}

#[test]
fn search_option_defaults_and_setters() {
    let mut o = SearchOption::new(s("term"));
    assert_eq!(o.display, "all");
    assert_eq!(o.provider, "local");
    assert!(o.thread >= 1);
    assert!(o.set_display(&s("file-only")).is_ok());
    assert_eq!(o.display, "file-only");
    let e = o.set_display(&s("loud")).unwrap_err();
    assert_eq!(e.kind, ErrorKind::NotFound);
    assert_eq!(e.to_string(), "Unknown value for display");
    assert!(o.set_pause(&s("250")).is_ok());
    assert_eq!(o.pause, 250);
    assert_eq!(o.set_pause(&s("-1")).unwrap_err().to_string(), "Invalid value for pause");
    assert!(o.set_thread(&s("0")).is_ok());
    assert_eq!(o.thread, 1);
    assert!(o.set_provider("api").is_ok());
    assert_eq!(o.set_provider("web").unwrap_err().to_string(), "Unknown value for provider");
}

#[test]
fn extension_filter_law() {
    let mut o = SearchOption::new(s("x"));
    assert!(o.has_extension(&s("PDF")));
    assert!(o.extensions_from(&s("Pdf,txt")).is_ok());
    assert!(o.has_extension(&s("PDF")));
    assert!(o.has_extension(&s("txt")));
    assert!(!o.has_extension(&s("doc")));
    assert!(o.exclude_extensions_from(&s("doc")).is_ok());
    assert!(o.is_extension_excluded(&s("doc")));
    assert!(!o.is_extension_excluded(&s("")));
    assert!(o.files_from(&s("a.txt")).is_ok());
    assert!(o.has_file(&s("a.txt")));
    assert!(o.has_file(&s("")));
    assert!(!o.has_file(&s("b.txt")));
    assert!(o.exclude_files_from(&s("b.txt")).is_ok());
    assert!(o.is_file_excluded(&s("b.txt")));
}

#[test]
fn unknown_search_option() {
    let mut o = SearchOption::new(s("x"));
    let e = o.apply_option(&s("zzz"), &s("1")).unwrap_err();
    assert_eq!(e.kind, ErrorKind::InvalidInput);
    assert_eq!(e.to_string(), "\nUnkown argument zzz\n");
}

#[test]
fn search_configure() {
    let args: Vec<String> = vec!["oms", "search", "/tmp", "Term"].into_iter().map(String::from).collect();
    let c = build_cmd(&args, opts(&[("display", "file-only"), ("e", "TXT")])).unwrap();
    match c.configure() {
        Ok(SearchPlan::Run(o)) => {
            assert_eq!(o.search_term, "Term");
            assert_eq!(o.display, "file-only");
            assert_eq!(o.extensions, vec![s("txt")]);
        },
        _ => panic!("run expected"),
    }
    let help = build_cmd(&args, opts(&[("help", ""), ("zzz", "")])).unwrap();
    assert!(matches!(help.configure(), Ok(SearchPlan::ShowUsage)));
    let bad = build_cmd(&args, opts(&[("pause", "x")])).unwrap();
    assert_eq!(bad.configure().err().unwrap().to_string(), "Invalid value for pause");
}

#[test]
fn search_usage_mentions_separator() {
    assert!(usage().contains("separated by ','"));
}

#[test]
fn search_kinds() {
    assert!(search_kind(&s("pdf")) == SearchKind::Pdf);
    assert!(search_kind(&s("docx")) == SearchKind::Ms);
    assert!(search_kind(&s("rs")) == SearchKind::Text);
    let mut o = SearchOption::new(s("x"));
    assert!(file_target(&o, &s("/a/B.PDF")) == Some(SearchKind::Pdf));
    assert!(o.extensions_from(&s("txt")).is_ok());
    assert!(file_target(&o, &s("/a/B.PDF")).is_none());
}

#[test]
fn normalized_terms() {
    assert_eq!(normalize_term(&s("ÉtÉ")), "ete");
    assert!(text_contains(&s("Un Été chaud"), &normalize_term(&s("été"))));
    assert!(!text_contains(&s("hiver"), &s("ete")));
}

#[test]
fn passages_around_term() {
    let found = text_reg_contains(&s("alpha beta gamma\ndelta beta"), &s("beta")).unwrap();
    assert_eq!(found, vec![s("alpha beta gamma"), s("delta beta")]);
    assert!(text_reg_contains(&s("nothing here"), &s("beta")).is_none());
    assert!(text_reg_contains(&s("a(b"), &s("(")).is_none());
}

#[test]
fn found_line_format() {
    let mut o = SearchOption::new(s("x"));
    // The cut is at most as long as the original line; when the cleaned line
    // is shorter, the original line is kept (and trimmed).
    assert_eq!(format_line_found(&s("3"), &s("  some\ntext  "), &o), "3 -> some\ntext\n");
    assert_eq!(format_line_found(&s("3"), &s("some\ntext"), &o), "3 -> some text\n");
    let long = "y".repeat(600);
    assert_eq!(format_line_found(&s("1"), &long, &o), format!("1 -> {}\n", "y".repeat(500)));
    assert!(o.set_display(&s("file-only")).is_ok());
    assert_eq!(format_line_found(&s("3"), &s("text"), &o), "");
}

#[test]
fn search_targets() {
    let p = s("/tmp/x");
    assert!(search_target(&p, &Ok(PathKind::File)).unwrap() == Target::File);
    assert!(search_target(&p, &Ok(PathKind::Dir)).unwrap() == Target::Dir);
    assert_eq!(search_target(&p, &Ok(PathKind::Other)).err().unwrap().to_string(), "\n/tmp/x\nsearch error: unknown file\n\n");
    let e = search_target(&p, &Err(s("gone"))).err().unwrap();
    assert_eq!(e.kind, ErrorKind::NotFound);
    assert_eq!(e.to_string(), "\n/tmp/x\nread error: gone\n\n");
}

#[test]
fn searchers() {
    let o = SearchOption::new(s("x"));
    let term = s("beta");
    let path = s("/docs/Beta.txt");
    let t = TextSearch { file_path: &path, search_term: &term, search_option: &o };
    let found = t.search(&vec![Some(s("alpha")), None, Some(s("BETA two"))]);
    assert_eq!(found, vec![(s("2"), s("BETA two"))]);
    let m = MsSearch { file_path: &path, search_term: &term, search_option: &o };
    let found = m.search(&s("one beta"));
    assert_eq!(found, vec![(s("File"), s("beta.txt")), (s(""), s("one beta"))]);
    assert!(!m.skip_file(&found));
    let p = PdfSearch { file_path: &path, search_term: &term, search_option: &o };
    let found = p.search(vec![(s("Title"), s("Beta"))], &vec![s("none"), s("a beta")]);
    assert_eq!(found, vec![(s("Title"), s("Beta")), (s("Page 1"), s("a beta"))]);
    let v = VideoSearch { file_path: &path, search_term: &term, search_option: &o };
    assert!(v.search(&vec![]).is_empty());
    assert_eq!(v.search(&vec![vec![(s("Actor"), s("Beta"))]]), vec![(s("File"), s("beta.txt")), (s("Actor"), s("Beta"))]);
    let a = AudioSearch { file_path: &path, search_term: &term, search_option: &o };
    assert!(a.search(None).is_empty());
    assert_eq!(a.search(Some(vec![(s("Album"), s("B"))])), vec![(s("Album"), s("B"))]);
    let mv = MovieSearch { file_path: &path, search_term: &term, search_option: &o };
    assert_eq!(mv.search(), "/docs/Beta.txt");
    let search = Search { file_path: path.clone(), search_term: term.clone(), cmd_options: vec![] };
    assert_eq!(search.file_path, path);
}

#[test]
fn one_message_per_file() {
    let mut o = SearchOption::new(s("x"));
    assert_eq!(oms::commands::search::search_message("/a.txt\n", &vec![], &o), None);
    let found = vec![(s("1"), s("beta")), (s("4"), s("beta two"))];
    assert_eq!(
        oms::commands::search::search_message("/a.txt\n", &found, &o),
        Some(s("/a.txt\n1 -> beta\n4 -> beta two\n"))
    );
    assert!(o.set_display(&s("file-only")).is_ok());
    assert_eq!(oms::commands::search::search_message("/a.txt\n", &found, &o), Some(s("/a.txt\n")));
}

#[test]
fn highlight_pattern_must_compile() {
    let mut o = SearchOption::new(s("(unclosed"));
    assert!(!can_show_lines(&o));
    let found = vec![(s("1"), s("(unclosed"))];
    assert_eq!(search_message("/a.txt\n", &found, &o), None);
    assert!(o.set_display(&s("file-only")).is_ok());
    assert!(can_show_lines(&o));
    assert_eq!(search_message("/a.txt\n", &found, &o), Some(s("/a.txt\n")));
    assert!(can_show_lines(&SearchOption::new(s("beta"))));
}
