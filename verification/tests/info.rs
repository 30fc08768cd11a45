use oms::commands::info::option::{InfoInput, InfoOption};
use oms::commands::info::{build_cmd, error_block, info_kind, info_target, result_block,
    unsupported_message, usage, InfoKind, InfoPlan};
use oms::commands::{CmdError, ErrorKind, PathKind, Target};
use oms::helpers::Elastic;

fn s(x: &str) -> String {
    x.to_string()
}

#[test]
fn info_option_defaults_and_setters() {
    let mut o = InfoOption::new();
    assert!(o.display_preview);
    assert_eq!(o.provider, "api");
    assert!(o.elastic.is_none());
    assert!(o.set_basepath(&s("/media/films/ "), false).is_ok());
    assert_eq!(o.base_path, "");
    assert!(o.set_basepath(&s(" /media/films/"), true).is_ok());
    assert_eq!(o.base_path, "/media/films");
    o.hide_preview();
    assert!(!o.display_preview);
    assert!(o.set_list(Some(vec![s(" a"), s("")])).is_ok());
    assert_eq!(o.list, vec![s(" a"), s("")]);
    assert_eq!(o.set_thread(&s("x")).unwrap_err().to_string(), "Invalid value for thread");
    assert!(o.set_elastic(Ok(Elastic { url: s("http://localhost:9200/oms") })).is_ok());
    assert_eq!(o.elastic.as_ref().unwrap().url, "http://localhost:9200/oms");
    let e = o.set_elastic(Err(CmdError::new(ErrorKind::NotFound, s("down")))).unwrap_err();
    assert_eq!(e.to_string(), "down");
    let c = o.clone();
    assert_eq!(c.base_path, o.base_path);
    assert_eq!(c.list, o.list);
}

#[test]
fn info_command() {
    let args = vec![s("oms"), s("info"), s("/media/films")];
    let cmd = build_cmd(&args, vec![(s("list"), s("/tmp/l")), (s("p"), s("local"))]).unwrap();
    let inputs = vec![InfoInput::Lines(Some(vec![s("/a.mkv")])), InfoInput::Nothing];
    match cmd.configure(true, inputs) {
        Ok(InfoPlan::Run(o, path)) => {
            assert_eq!(path, "");
            assert_eq!(o.list, vec![s("/a.mkv")]);
            assert_eq!(o.provider, "local");
            assert_eq!(o.base_path, "/media/films");
        },
        _ => panic!("run expected"),
    }
    let bad = build_cmd(&args, vec![(s("base-path"), s("/x"))]).unwrap();
    assert_eq!(bad.configure(false, vec![InfoInput::Nothing]).err().unwrap().to_string(), "\nUnkown argument base-path\n");
    assert!(usage().starts_with("info [OPTIONS]"));
}

#[test]
fn info_kinds() {
    assert!(info_kind("pdf") == InfoKind::Pdf);
    assert!(info_kind("png") == InfoKind::Image);
    assert!(info_kind("mkv") == InfoKind::Video);
    assert!(info_kind("") == InfoKind::Video);
    assert!(info_kind("mp3") == InfoKind::Audio);
    assert!(info_kind("srt") == InfoKind::Ignored);
    assert!(info_kind("exe") == InfoKind::Unsupported);
    assert_eq!(unsupported_message("/a.exe"), "\n/a.exe: Format not supported\n");
    assert!(info_target(&Ok(PathKind::Dir)) == Target::Dir);
    assert!(info_target(&Err(s("x"))) == Target::File);
}

#[test]
fn info_blocks() {
    assert_eq!(result_block("R"), format!("\n{}\nR\n", "-".repeat(72)));
    assert_eq!(error_block("E"), "\nE\n");
}
