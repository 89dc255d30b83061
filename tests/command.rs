use ecs_pty::command::{build_command, term_for_child, DEFAULT_TERM};

#[test]
fn child_term_defaults_when_unset() {
    assert_eq!(term_for_child(None), "xterm-256color");
    assert_eq!(DEFAULT_TERM, "xterm-256color");
    assert_eq!(term_for_child(Some("screen")), "screen");
}

#[test]
fn command_holds_program_arguments_and_term() {
    let args = vec!["--profile".to_string(), "dev".to_string(), "ecs".to_string()];
    let b = build_command("aws", &args, Some("vt100"));
    let argv: Vec<&str> = b.get_argv().iter().map(|a| a.to_str().unwrap()).collect();
    assert_eq!(argv, vec!["aws", "--profile", "dev", "ecs"]);
    assert_eq!(b.get_env("TERM").and_then(|v| v.to_str()), Some("vt100"));
}

#[test]
fn command_without_parent_term_uses_default() {
    let b = build_command("bash", &Vec::new(), None);
    assert_eq!(b.get_argv().len(), 1);
    assert_eq!(b.get_env("TERM").and_then(|v| v.to_str()), Some("xterm-256color"));
}
