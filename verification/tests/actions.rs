use oms::actions::{get_args_parameter, parse_action, Action, ActionRun};
use oms::actions::info::{build_action, help_command};
use oms::actions::search;
use oms::commands::ErrorKind;

#[test]
fn actions_parse_args_info_single_parameter() -> Result<(), String> {
    if let Ok(v) = get_args_parameter(&vec!["info".to_string()], 0, "") {
        assert_eq!(v, "info");
        return Ok(());
    }
    Err(format!("get_args_parameter should return Ok(info)"))
}

#[test]
fn actions_parse_args_info_two_parameters() -> Result<(), String> {
    if let Ok(v) = get_args_parameter(&vec!["info".to_string(), "help".to_string()], 1, "") {
        assert_eq!(v, "help");
        return Ok(());
    }
    Err(format!("get_args_parameter should return Ok(help)"))
}

#[test]
fn actions_parse_args_info_error_message() -> Result<(), String> {
    if let Err(err) = get_args_parameter(&vec!["info".to_string(), "help".to_string()], 3, "error message") {
        assert_eq!(err.to_string(), "error message");
        return Ok(());
    }
    Err(format!("get_args_parameter should throw error"))
}

#[test]
fn parse_action_info() -> Result<(), String> {
    if let Ok(action) = parse_action(&vec!["cmd".to_string(), "info".to_string()]) {
        if let Action::Info() = action {
            return Ok(());
        }
    }
    Err(format!("parse_action should return Ok(Acion::Info)"))
}

#[test]
fn parse_action_read() -> Result<(), String> {
    if let Ok(action) = parse_action(&vec!["cmd".to_string(), "read".to_string(), "filename".to_string()]) {
        if let Action::Read(_) = action {
            return Ok(());
        }
    }
    Err("parse_action should return Ok(Acion::Read)".to_string())
}

#[test]
fn parse_action_defaults_to_info() {
    assert!(matches!(parse_action(&vec!["cmd".to_string()]), Ok(Action::Info())));
}

#[test]
fn parse_action_read_without_path() {
    match parse_action(&vec!["cmd".to_string(), "read".to_string()]) {
        Err(e) => {
            assert_eq!(e.kind, ErrorKind::InvalidInput);
            assert_eq!(e.to_string(), "\nread error: 'file_path' parameter required\n\nSee 'oms info'\n");
        },
        _ => panic!("error expected"),
    }
}

#[test]
fn parse_action_unknown() {
    match parse_action(&vec!["cmd".to_string(), "walk".to_string()]) {
        Err(e) => assert_eq!(e.to_string(), "\n'walk' is not a valid command\nSee 'oms info'\n"),
        _ => panic!("error expected"),
    }
}

#[test]
fn info_action_prints_the_actions() {
    match Action::Info().run() {
        ActionRun::Print(lines) => {
            assert_eq!(lines.len(), 6);
            assert_eq!(lines[1], "Usage:  oms [OPTIONS] COMMAND");
            assert_eq!(lines[5], "  read [file_path]        Display the content of the file");
        },
        _ => panic!("lines expected"),
    }
    assert!(build_action().is_ok());
    assert_eq!(help_command(), "\nSee 'oms info'\n");
}

#[test]
fn read_action_displays_its_file() {
    match Action::Read("a.txt".to_string()).run() {
        ActionRun::Display(p) => assert_eq!(p, "a.txt"),
        _ => panic!("display expected"),
    }
}

#[test]
fn search_action_arguments() {
    let args: Vec<String> = vec!["oms", "search", "/tmp/a.txt", "term"].into_iter().map(String::from).collect();
    let s = search::build_action(&args).unwrap();
    assert_eq!(s.file_path, "/tmp/a.txt");
    assert_eq!(s.search_term, "term");
    let short: Vec<String> = vec!["oms", "search", "/tmp/a.txt"].into_iter().map(String::from).collect();
    match search::build_action(&short) {
        Err(e) => assert_eq!(e.to_string(), "\nread error: 'search_term' parameter required\n"),
        _ => panic!("error expected"),
    }
}
