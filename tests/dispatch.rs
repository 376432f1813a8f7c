use dr_cli::{
    builtin_commands, plan, split_tokens, Action, AsyncCommandHandler, Command, CommandError,
    ErrorKind,
};

const VERSION: &str = "0.1.0";

fn words(ws: &[&str]) -> Vec<String> {
    ws.iter().map(|w| w.to_string()).collect()
}

fn run(line: &str) -> Result<Action, CommandError> {
    let reg = builtin_commands();
    let inv = reg.handle(line)?;
    plan(inv.handler, inv.args, VERSION)
}

#[test]
fn empty_and_blank_lines_name_no_command() {
    let reg = builtin_commands();
    for line in ["", "   ", "\t\r\n "] {
        let e = reg.handle(line).err().unwrap();
        assert_eq!(e.kind, ErrorKind::NoCommandSpecified);
        assert_eq!(e.message(), "No command specified.");
    }
}

#[test]
fn download_without_url_is_missing_argument() {
    let reg = builtin_commands();
    let inv = reg.handle("download").ok().unwrap();
    assert_eq!(inv.handler, Command::Download);
    assert!(inv.args.is_empty());
    let e = plan(inv.handler, inv.args, VERSION).err().unwrap();
    assert_eq!(e.kind, ErrorKind::MissingArgument);
    assert_eq!(e.message(), "URL as first argument required.");
}

#[test]
fn download_with_url_and_format() {
    match run("download https://example.org/a_1 mkv").unwrap() {
        Action::Save { url, format } => {
            assert_eq!(url, "https://example.org/a_1");
            assert_eq!(format, Some("mkv".to_string()));
        }
        other => panic!("unexpected action {:?}", other),
    }
    match run("  download   https://example.org/a_1 ").unwrap() {
        Action::Save { url, format } => {
            assert_eq!(url, "https://example.org/a_1");
            assert_eq!(format, None);
        }
        other => panic!("unexpected action {:?}", other),
    }
}

#[test]
fn version_with_and_without_line_break() {
    match run("version no-newline").unwrap() {
        Action::Print { text } => assert_eq!(text, "0.1.0"),
        other => panic!("unexpected action {:?}", other),
    }
    match run("version").unwrap() {
        Action::Print { text } => assert_eq!(text, "0.1.0\n"),
        other => panic!("unexpected action {:?}", other),
    }
    match run("version other no-newline").unwrap() {
        Action::Print { text } => assert_eq!(text, "0.1.0"),
        other => panic!("unexpected action {:?}", other),
    }
}

#[test]
fn clear_resets_the_display() {
    match run("clear").unwrap() {
        Action::Print { text } => assert_eq!(text, "\x1B[2J\x1B[1;1H"),
        other => panic!("unexpected action {:?}", other),
    }
}

/// A stand-in for the credential store: it keeps the value in memory.
struct MemoryStore {
    value: Option<String>,
}

impl MemoryStore {
    fn perform(&mut self, action: Action) -> Option<String> {
        match action {
            Action::SetToken { value } => {
                self.value = Some(value);
                None
            }
            Action::GetToken => self.value.clone(),
            other => panic!("unexpected action {:?}", other),
        }
    }
}

#[test]
fn token_set_then_get_round_trips() {
    let mut store = MemoryStore { value: None };
    assert_eq!(store.perform(run("token set abc").unwrap()), None);
    assert_eq!(store.perform(run("token get").unwrap()), Some("abc".to_string()));
}

#[test]
fn token_errors() {
    let e = run("token").err().unwrap();
    assert_eq!(e.kind, ErrorKind::MissingSubcommand);
    assert_eq!(e.message(), "Expected sub command!");
    let e = run("token set").err().unwrap();
    assert_eq!(e.kind, ErrorKind::MissingArgument);
    assert_eq!(e.message(), "Expected new value!");
    let e = run("token drop x").err().unwrap();
    assert_eq!(e.kind, ErrorKind::UnknownSubcommand);
    assert_eq!(e.message(), "Unknown subcommand.");
}

#[test]
fn unknown_command_is_not_found() {
    let reg = builtin_commands();
    let e = reg.handle("frobnicate").err().unwrap();
    assert_eq!(e.kind, ErrorKind::CommandNotFound);
    assert!(e.message().contains("frobnicate"));
    assert_eq!(e.message(), "Command 'frobnicate' not recognized.");
}

#[test]
fn names_are_case_sensitive() {
    let reg = builtin_commands();
    let e = reg.handle("Version").err().unwrap();
    assert_eq!(e.kind, ErrorKind::CommandNotFound);
}

#[test]
fn each_name_runs_its_own_handler() {
    let mut reg: AsyncCommandHandler<u32> = AsyncCommandHandler::new();
    reg.register("a", 1);
    reg.register("b", 2);
    let inv = reg.call("a", words(&["x"])).ok().unwrap();
    assert_eq!(inv.handler, 1);
    assert_eq!(inv.args, words(&["x"]));
    let inv = reg.call("b", Vec::new()).ok().unwrap();
    assert_eq!(inv.handler, 2);
}

#[test]
fn second_registration_wins() {
    let mut reg: AsyncCommandHandler<u32> = AsyncCommandHandler::new();
    reg.register("go", 1);
    reg.register("go", 2);
    let inv = reg.handle("go now").ok().unwrap();
    assert_eq!(inv.handler, 2);
    assert_eq!(inv.args, words(&["now"]));
    assert_eq!(reg.get_commands().len(), 1);
}

#[test]
fn listing_holds_every_builtin_once() {
    let reg = builtin_commands();
    let mut names: Vec<(String, Command)> = reg.get_commands();
    names.sort_by(|a, b| a.0.cmp(&b.0));
    assert_eq!(
        names,
        vec![
            ("clear".to_string(), Command::Clear),
            ("download".to_string(), Command::Download),
            ("token".to_string(), Command::Token),
            ("version".to_string(), Command::Version),
        ]
    );
    let empty: AsyncCommandHandler<Command> = AsyncCommandHandler::new();
    assert!(empty.get_commands().is_empty());
}

#[test]
fn tokens_split_on_whitespace_runs() {
    assert_eq!(split_tokens("  a\tbb \r\n c\x0Cd "), words(&["a", "bb", "c", "d"]));
    assert_eq!(split_tokens("\"a b\" c"), words(&["\"a", "b\"", "c"]));
    assert_eq!(split_tokens("žluť kůň"), words(&["žluť", "kůň"]));
    assert!(split_tokens("").is_empty());
    assert!(split_tokens(" \t ").is_empty());
}

#[test]
fn error_carries_its_message() {
    let e = CommandError::new(ErrorKind::HandlerFault, "engine failed");
    assert_eq!(e.kind, ErrorKind::HandlerFault);
    assert_eq!(e.message(), "engine failed");
}
