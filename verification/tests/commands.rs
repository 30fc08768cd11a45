use oms::commands::{get_args_parameter, parse_command, Command, ErrorKind};

#[test]
fn commands_parse_args_info_single_parameter() {
    if let Ok(v) = get_args_parameter(&vec!["info".to_string()], 0, "") {
        assert_eq!(v, "info");
        return ();
    }
    panic!("get_args_parameter should return Ok(info)");
}

#[test]
fn commands_parse_args_info_two_parameters() {
    if let Ok(v) = get_args_parameter(&vec!["info".to_string(), "help".to_string()], 1, "") {
        assert_eq!(v, "help");
        return ();
    }
    panic!("get_args_parameter should return Ok(help)");
}

#[test]
fn commands_parse_args_info_error_message() {
    if let Err(err) = get_args_parameter(&vec!["info".to_string(), "help".to_string()], 3, "error message") {
        assert_eq!(err.to_string(), "error message");
        return ();
    }
    panic!("get_args_parameter should throw error 'error message'");
}

#[test]
fn parse_action_error() {
    if let Err(err) = parse_command(
        &vec!["cmd".to_string(), "unknown command".to_string()],
        Vec::new(),
    ) {
        assert!(err.to_string().contains("unknown command"), "Error should contain 'unknown command'");
        return ();
    }
    panic!("parse_action should throw unkown command");
}

#[test]
fn parse_command_help_by_default() {
    assert!(matches!(parse_command(&vec!["cmd".to_string()], Vec::new()), Ok(Command::Help(_))));
    assert!(matches!(parse_command(&vec!["cmd".to_string(), "help".to_string()], Vec::new()), Ok(Command::Help(_))));
}

#[test]
fn parse_command_info_needs_a_path() {
    match parse_command(&vec!["cmd".to_string(), "info".to_string(), "".to_string()], Vec::new()) {
        Err(e) => {
            assert_eq!(e.kind, ErrorKind::InvalidInput);
            assert_eq!(e.to_string(), "\ninfo error: 'file_path' parameter required\n");
        },
        _ => panic!("error expected"),
    }
}

#[test]
fn parse_command_search_arguments() {
    let args: Vec<String> = vec!["oms", "search", "/tmp", "term"].into_iter().map(String::from).collect();
    match parse_command(&args, Vec::new()) {
        Ok(Command::Search(s)) => {
            assert_eq!(s.file_path, "/tmp");
            assert_eq!(s.search_term, "term");
        },
        _ => panic!("search expected"),
    }
}

#[test]
fn get_args_parameter_doc_examples() {
    let args = vec!["oms".to_string(), "info".to_string()];
    assert_eq!("info", get_args_parameter(&args, 1, "").unwrap_or("help"));
    assert_eq!("index not found", get_args_parameter(&args, 2, "").unwrap_or("index not found"));
}
