use minishell::builtins::{cat_failure_message, cd, cd_failure_message, cd_target, echo, type_builtin, Report};
use minishell::error::ShellError;
use minishell::redirect::{extract, Mode, Stream};
use minishell::shell::{builtin, is_builtin, Action, Builtin, Shell};

fn strings(v: &[&str]) -> Vec<String> {
    v.iter().map(|s| s.to_string()).collect()
}

#[test]
fn redirect_stdout_truncate() {
    let mut sh = Shell::new();
    match sh.handle_input("echo hi > out.txt") {
        Ok(Action::Builtin(Builtin::Echo, c)) => {
            assert_eq!(c.name, "echo");
            assert_eq!(c.args, vec!["hi"]);
            let t = c.stdout.unwrap();
            assert_eq!(t.path, "out.txt");
            assert_eq!(t.mode, Mode::Truncate);
            assert!(c.stderr.is_none());
            assert_eq!(echo(&c.args), "hi\n");
        }
        other => panic!("unexpected {:?}", other),
    }
}

#[test]
fn redirect_stdout_append() {
    let mut sh = Shell::new();
    match sh.handle_input("echo hi >> out.txt") {
        Ok(Action::Builtin(Builtin::Echo, c)) => {
            let t = c.stdout.unwrap();
            assert_eq!(t.path, "out.txt");
            assert_eq!(t.mode, Mode::Append);
        }
        other => panic!("unexpected {:?}", other),
    }
}

#[test]
fn all_operators_recognised() {
    let c = extract(&strings(&["ls", "a", "1>", "o", "b", "2>>", "e"])).unwrap();
    assert_eq!(c.args, vec!["a", "b"]);
    let o = c.stdout.unwrap();
    assert_eq!((o.path.as_str(), o.mode), ("o", Mode::Truncate));
    let e = c.stderr.unwrap();
    assert_eq!((e.path.as_str(), e.mode), ("e", Mode::Append));
    let c = extract(&strings(&["ls", "1>>", "o", "2>", "e"])).unwrap();
    assert_eq!(c.stdout.unwrap().mode, Mode::Append);
    assert_eq!(c.stderr.unwrap().mode, Mode::Truncate);
    assert!(c.args.is_empty());
}

#[test]
fn operator_like_tokens_are_arguments() {
    let c = extract(&strings(&["echo", "3>", ">>>", "a>b"])).unwrap();
    assert_eq!(c.args, vec!["3>", ">>>", "a>b"]);
    assert!(c.stdout.is_none());
}

#[test]
fn dangling_operator_aborts_line() {
    let mut sh = Shell::new();
    let r = sh.handle_input("echo hi >");
    assert!(matches!(r, Err(ShellError::MissingRedirectTarget)));
    assert_eq!(
        ShellError::MissingRedirectTarget.message(),
        "missing filename after redirection"
    );
    assert!(sh.running());
}

#[test]
fn duplicate_redirect_aborts_line() {
    let mut sh = Shell::new();
    assert!(matches!(
        sh.handle_input("echo a > x >> y"),
        Err(ShellError::DuplicateRedirect(Stream::Stdout))
    ));
    assert!(matches!(
        sh.handle_input("echo a 2> x 2>> y"),
        Err(ShellError::DuplicateRedirect(Stream::Stderr))
    ));
    assert!(matches!(
        sh.handle_input("echo a > x >"),
        Err(ShellError::DuplicateRedirect(Stream::Stdout))
    ));
    assert!(sh.handle_input("echo a > x 2> y").is_ok());
}

#[test]
fn unterminated_quote_dispatches() {
    let mut sh = Shell::new();
    match sh.handle_input("echo 'abc") {
        Ok(Action::Builtin(Builtin::Echo, c)) => {
            assert_eq!(c.args, vec!["abc"]);
            assert_eq!(echo(&c.args), "abc\n");
        }
        other => panic!("unexpected {:?}", other),
    }
}

#[test]
fn empty_line_does_nothing() {
    let mut sh = Shell::new();
    assert!(matches!(sh.handle_input("   "), Ok(Action::Nothing)));
}

#[test]
fn exit_stops_session() {
    let mut sh = Shell::new();
    assert!(sh.running());
    assert!(matches!(sh.handle_input("exit"), Ok(Action::Exit)));
    assert!(!sh.running());
}

#[test]
fn unknown_command_is_external() {
    let mut sh = Shell::new();
    match sh.handle_input("ls -l 2> err.txt") {
        Ok(Action::External(c)) => {
            assert_eq!(c.name, "ls");
            assert_eq!(c.args, vec!["-l"]);
            assert_eq!(c.stderr.unwrap().path, "err.txt");
        }
        other => panic!("unexpected {:?}", other),
    }
}

#[test]
fn builtin_names() {
    assert_eq!(builtin("exit"), Some(Builtin::Exit));
    assert_eq!(builtin("echo"), Some(Builtin::Echo));
    assert_eq!(builtin("type"), Some(Builtin::Type));
    assert_eq!(builtin("pwd"), Some(Builtin::Pwd));
    assert_eq!(builtin("cd"), Some(Builtin::Cd));
    assert_eq!(builtin("cat"), Some(Builtin::Cat));
    assert_eq!(builtin("ca"), None);
    assert_eq!(builtin("ech"), None);
    assert!(is_builtin("cd"));
    assert!(!is_builtin("ls"));
}

#[test]
fn echo_joins_with_spaces() {
    assert_eq!(echo(&strings(&[])), "\n");
    assert_eq!(echo(&strings(&["a", "b c", ""])), "a b c \n");
}

#[test]
fn type_reports_builtin() {
    match type_builtin(&strings(&["cd"]), None) {
        Ok(Report::Stdout(t)) => assert_eq!(t, "cd is a shell builtin\n"),
        other => panic!("unexpected {:?}", other),
    }
}

#[test]
fn type_reports_not_found() {
    match type_builtin(&strings(&["nonexistent_cmd_xyz"]), None) {
        Ok(Report::Stderr(t)) => assert_eq!(t, "nonexistent_cmd_xyz: not found\n"),
        other => panic!("unexpected {:?}", other),
    }
}

#[test]
fn type_reports_path() {
    match type_builtin(&strings(&["ls"]), Some("/bin/ls".to_string())) {
        Ok(Report::Stdout(t)) => assert_eq!(t, "ls is /bin/ls\n"),
        other => panic!("unexpected {:?}", other),
    }
}

#[test]
fn type_without_argument_fails() {
    match type_builtin(&strings(&[]), None) {
        Err(ShellError::InvalidInput(m)) => assert_eq!(m, "type: missing argument"),
        other => panic!("unexpected {:?}", other),
    }
}

#[test]
fn cd_targets() {
    assert_eq!(cd_target(&strings(&["/tmp"]), None).unwrap(), "/tmp");
    assert_eq!(cd_target(&strings(&["~"]), Some("/home/u".to_string())).unwrap(), "/home/u");
    match cd_target(&strings(&["~"]), None) {
        Err(ShellError::InvalidInput(m)) => assert_eq!(m, "No home dir"),
        other => panic!("unexpected {:?}", other),
    }
    match cd(&strings(&[])) {
        Err(ShellError::InvalidInput(m)) => assert_eq!(m, "cd: missing argument"),
        other => panic!("unexpected {:?}", other),
    }
    assert_eq!(cd(&strings(&["/var", "x"])).unwrap(), "/var");
}

#[test]
fn cd_home_is_not_tilde() {
    if let Ok(h) = cd(&strings(&["~"])) {
        assert_ne!(h, "~");
        assert_eq!(Some(h), dirs::home_dir().map(|p| p.to_string_lossy().into_owned()));
    }
}

#[test]
fn cd_failure_text() {
    assert_eq!(cd_failure_message("nowhere"), "cd: nowhere: No such file or directory");
}

#[test]
fn error_messages() {
    assert_eq!(ShellError::CommandNotFound("foo".to_string()).message(), "foo: command not found");
    assert_eq!(ShellError::Io("disk".to_string()).message(), "IO error: disk");
    assert_eq!(ShellError::InvalidInput("bad".to_string()).message(), "bad");
    assert_eq!(ShellError::ExecError("boom".to_string()).message(), "boom");
    assert_eq!(
        ShellError::DuplicateRedirect(Stream::Stdout).message(),
        "multiple stdout redirects"
    );
    assert_eq!(
        ShellError::DuplicateRedirect(Stream::Stderr).message(),
        "multiple stderr redirects"
    );
}

#[test]
fn empty_command_name_is_not_dispatched() {
    let mut sh = Shell::new();
    match sh.handle_input("'' x") {
        Err(ShellError::CommandNotFound(n)) => assert_eq!(n, ""),
        other => panic!("unexpected {:?}", other),
    }
    assert_eq!(
        ShellError::CommandNotFound(String::new()).message(),
        ": command not found"
    );
}

#[test]
fn cat_is_a_builtin() {
    let mut sh = Shell::new();
    match sh.handle_input("cat a.txt > b.txt") {
        Ok(Action::Builtin(Builtin::Cat, c)) => {
            assert_eq!(c.args, vec!["a.txt"]);
            assert_eq!(c.stdout.unwrap().path, "b.txt");
        }
        other => panic!("unexpected {:?}", other),
    }
    match type_builtin(&strings(&["cat"]), None) {
        Ok(Report::Stdout(t)) => assert_eq!(t, "cat is a shell builtin\n"),
        other => panic!("unexpected {:?}", other),
    }
}

#[test]
fn cat_failure_text() {
    assert_eq!(cat_failure_message("gone.txt"), "cat: gone.txt: No such file or directory");
}
