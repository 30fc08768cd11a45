use std::cell::RefCell;
use std::rc::Rc;

use oms::app::{plan_start, App, StartPlan};
use oms::commands::{CmdError, Command, ErrorKind, Runnable};

#[test]
fn from_args() {
    assert!(plan_start(&vec![]).is_ok(), "from args should be ok");
}

#[test]
fn run_success() {
    struct MockRunnable {
        counter: Rc<RefCell<u8>>,
    }
    impl Runnable for MockRunnable {
        fn run(&self) -> Result<(), CmdError> {
            *self.counter.borrow_mut() += 1;
            Ok(())
        }
    }

    let counter = Rc::new(RefCell::new(0));

    let mock_runnable = MockRunnable {
        counter: Rc::clone(&counter),
    };

    let app: App = App::new(Box::new(mock_runnable));
    assert!(app.run().is_ok(), "App run 1 should be successfull");
    assert!(app.run().is_ok(), "App run 2 should be successfull");
    assert_eq!(2, *counter.borrow(), "App should run twice");
}

#[test]
fn run_error() {
    struct MockRunnable {}
    impl Runnable for MockRunnable {
        fn run(&self) -> Result<(), CmdError> {
            Err(CmdError::new(ErrorKind::WouldBlock, "WouldBlock".to_string()))
        }
    }

    let mock_runnable = MockRunnable {};
    let app = App::new(Box::new(mock_runnable));
    match app.run() {
        Ok(_) => panic!("App run should failed"),
        Err(err) => assert_eq!(err.to_string(), "WouldBlock", "App run should fail with message 'WouldBlock'"),
    };
}

#[test]
fn start_with_version_option() {
    let args = vec!["oms".to_string(), "--version".to_string()];
    assert!(matches!(plan_start(&args), Ok(StartPlan::ShowVersion)));
}

#[test]
fn start_read_command_carries_options() {
    let args = vec![
        "oms".to_string(),
        "read".to_string(),
        "--display=debug".to_string(),
        "/tmp/a.txt".to_string(),
    ];
    match plan_start(&args) {
        Ok(StartPlan::Run(Command::Read(r))) => {
            assert_eq!(r.file_path, "/tmp/a.txt");
            assert_eq!(r.cmd_options, vec![("display".to_string(), "debug".to_string())]);
        },
        _ => panic!("read command expected"),
    }
}

#[test]
fn start_unknown_command_fails() {
    let args = vec!["oms".to_string(), "dance".to_string()];
    match plan_start(&args) {
        Err(e) => {
            assert_eq!(e.kind, ErrorKind::InvalidInput);
            assert_eq!(e.to_string(), "'dance' is not a valid command\nSee 'oms help'\n");
        },
        _ => panic!("error expected"),
    }
}
