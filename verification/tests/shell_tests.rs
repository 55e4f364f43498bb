use minishell::command::{Command, CdCommand, EchoCommand, ExecCommand, HelpCommand, Outcome,
    SearchEnv, TypeCommand};
use minishell::errors::ShellError;
use minishell::shell::{Builtin, ResolveOutcome, Shell, SpawnResult};
use minishell::text::{split_on, status_string, tokenize};

fn env_with(dirs: Option<Vec<&str>>, pathext: Option<&str>) -> SearchEnv {
    SearchEnv {
        dirs: dirs.map(|d| d.into_iter().map(|s| s.to_string()).collect()),
        pathext: pathext.map(|s| s.to_string()),
    }
}

fn no_env() -> SearchEnv {
    env_with(None, None)
}

fn output_line(o: &Outcome) -> String {
    match o {
        Outcome::Output { line } => line.clone(),
        _ => panic!("expected an output line"),
    }
}

#[test]
fn tokenize_splits_on_whitespace() {
    assert_eq!(tokenize("echo a b"), vec!["echo", "a", "b"]);
    assert_eq!(tokenize("  echo\t a  \t b  "), vec!["echo", "a", "b"]);
    assert_eq!(tokenize(""), Vec::<String>::new());
    assert_eq!(tokenize(" \t \r\n"), Vec::<String>::new());
    assert_eq!(tokenize("one"), vec!["one"]);
}

#[test]
fn status_string_renders_decimal() {
    assert_eq!(status_string(0), "0");
    assert_eq!(status_string(1), "1");
    assert_eq!(status_string(127), "127");
    assert_eq!(status_string(-5), "-5");
    assert_eq!(status_string(1000), "1000");
}

#[test]
fn new_shell_starts_at_zero() {
    let sh = Shell::new();
    assert_eq!(sh.last_status, 0);
}

#[test]
fn registry_knows_the_builtins() {
    let sh = Shell::new();
    assert!(sh.commands.contains("cd"));
    assert!(sh.commands.contains("echo"));
    assert!(sh.commands.contains("type"));
    assert!(sh.commands.contains("exec"));
    assert!(sh.commands.contains("help"));
    assert!(!sh.commands.contains("ls"));
    assert!(matches!(sh.commands.lookup("cd"), Some(Builtin::Cd)));
    assert!(matches!(sh.commands.lookup("help"), Some(Builtin::Help)));
    assert!(matches!(sh.commands.lookup("CD"), None));
}

#[test]
fn command_names_and_syntax() {
    assert_eq!(CdCommand.name(), "cd");
    assert_eq!(EchoCommand.name(), "echo");
    assert_eq!(TypeCommand.name(), "type");
    assert_eq!(ExecCommand.name(), "exec");
    assert_eq!(HelpCommand.name(), "help");
    assert_eq!(CdCommand.syntax(), "cd [[-Path] <string>]");
    assert_eq!(EchoCommand.syntax(), "echo [-InputObject] <psobject[]>");
    assert_eq!(TypeCommand.syntax(), "type [[-Path] <string>]");
    assert_eq!(ExecCommand.syntax(), "exec [[-ProgramName] <string>] [[-Args] <string[]>]");
    assert_eq!(HelpCommand.syntax(), "help [[-Name] <string>]");
}

#[test]
fn blank_lines_are_no_ops() {
    let mut sh = Shell::new();
    sh.last_status = 42;
    assert!(matches!(sh.run_command("", &no_env()), Outcome::Quiet));
    assert_eq!(sh.last_status, 42);
    assert!(matches!(sh.run_command("   \t ", &no_env()), Outcome::Quiet));
    assert_eq!(sh.last_status, 42);
}

#[test]
fn script_of_blank_lines_prints_once() {
    // two blank lines and one `echo hi`: exactly one line of output
    let mut sh = Shell::new();
    let mut outputs: Vec<String> = Vec::new();
    for line in ["", "", "echo hi"] {
        if let Outcome::Output { line } = sh.run_command(line, &no_env()) {
            outputs.push(line);
        }
    }
    assert_eq!(outputs, vec!["hi"]);
}

#[test]
fn echo_joins_with_single_spaces() {
    let mut sh = Shell::new();
    let line = output_line(&sh.run_command("echo   a \t b   c", &no_env()));
    assert_eq!(line, "a b c");
    assert_eq!(sh.last_status, 0);
    let line = output_line(&sh.run_command("echo", &no_env()));
    assert_eq!(line, "");
}

#[test]
fn echo_substitutes_exact_status_token() {
    // prior status 3: only the exact token `$?` is substituted
    let mut sh = Shell::new();
    sh.last_status = 3;
    let line = output_line(&sh.run_command("echo a b $? c", &no_env()));
    assert_eq!(line, "a b 3 c");
    let mut sh = Shell::new();
    sh.last_status = 7;
    let line = output_line(&sh.run_command("echo $?x $ ? $?", &no_env()));
    assert_eq!(line, "$?x $ ? 7");
}

#[test]
fn echo_reports_one_after_failed_builtin() {
    let mut sh = Shell::new();
    let o = sh.run_command("cd", &no_env());
    assert!(matches!(o, Outcome::Error { error: ShellError::MissingCdArg }));
    assert_eq!(sh.last_status, 1);
    let line = output_line(&sh.run_command("echo $?", &no_env()));
    assert_eq!(line, "1");
}

#[test]
fn echo_reports_zero_after_success() {
    let mut sh = Shell::new();
    sh.last_status = 9;
    let _ = sh.run_command("echo ok", &no_env());
    assert_eq!(sh.last_status, 0);
    let line = output_line(&sh.run_command("echo $?", &no_env()));
    assert_eq!(line, "0");
}

#[test]
fn echo_reports_127_after_resolution_failure() {
    let mut sh = Shell::new();
    let env = env_with(Some(vec!["/some/dir"]), Some(".EXE"));
    let o = sh.run_command("nosuchprog", &env);
    let (program, fallback) = match o {
        Outcome::ExecSearch { program, fallback, .. } => (program, fallback),
        _ => panic!("expected a search"),
    };
    assert_eq!(program, "nosuchprog");
    assert!(fallback);
    // no candidate exists
    let r = sh.finish_exec_search(&program, None, fallback);
    assert!(matches!(r, ResolveOutcome::Refused { .. }));
    assert_eq!(sh.last_status, 127);
    let line = output_line(&sh.run_command("echo $?", &no_env()));
    assert_eq!(line, "127");
}

#[test]
fn unresolved_name_with_no_path_is_127() {
    let mut sh = Shell::new();
    let o = sh.run_command("nosuchprog", &no_env());
    assert!(matches!(o, Outcome::Error { error: ShellError::PathNotSet { .. } }));
    assert_eq!(sh.last_status, 127);
}

#[test]
fn explicit_exec_failures_are_status_one() {
    let mut sh = Shell::new();
    let o = sh.run_command("exec", &no_env());
    assert!(matches!(o, Outcome::Error { error: ShellError::MissingExecProgram }));
    assert_eq!(sh.last_status, 1);
    // `exec` itself, not the fallback: PATH unset records 1, not 127
    let o = sh.run_command("exec prog", &no_env());
    assert!(matches!(o, Outcome::Error { error: ShellError::PathNotSet { .. } }));
    assert_eq!(sh.last_status, 1);
    // an exhausted explicit search records 1 as well
    let env = env_with(Some(vec!["/d"]), Some(".EXE"));
    let o = sh.run_command("exec prog", &env);
    match o {
        Outcome::ExecSearch { program, fallback, .. } => {
            assert!(!fallback);
            let r = sh.finish_exec_search(&program, None, fallback);
            match r {
                ResolveOutcome::Refused { error } => {
                    assert_eq!(error.message(), "prog: command not found in PATH");
                }
                _ => panic!("expected a refusal"),
            }
            assert_eq!(sh.last_status, 1);
        }
        _ => panic!("expected a search"),
    }
}

#[test]
fn candidate_order_is_dirs_outer_suffixes_inner() {
    // directories [A, B], suffixes [.EXE, .BAT]: the probes run
    // A/foo.EXE, A/foo.BAT, B/foo.EXE, B/foo.BAT, in that order
    let mut sh = Shell::new();
    let env = env_with(Some(vec!["A", "B"]), Some(".EXE;.BAT"));
    let o = sh.run_command("exec foo", &env);
    match o {
        Outcome::ExecSearch { candidates, .. } => {
            assert_eq!(candidates, vec!["A/foo.EXE", "A/foo.BAT", "B/foo.EXE", "B/foo.BAT"]);
        }
        _ => panic!("expected a search"),
    }
}

#[test]
fn default_suffixes_apply_when_variable_absent() {
    let mut sh = Shell::new();
    let env = env_with(Some(vec!["D"]), None);
    let o = sh.run_command("exec foo", &env);
    match o {
        Outcome::ExecSearch { candidates, .. } => {
            assert_eq!(candidates, vec!["D/foo.EXE", "D/foo.BAT", "D/foo.CMD"]);
        }
        _ => panic!("expected a search"),
    }
}

#[test]
fn separator_skips_the_search() {
    let mut sh = Shell::new();
    let o = sh.run_command("exec ./prog a b", &no_env());
    match o {
        Outcome::Spawn { program, path, args } => {
            assert_eq!(program, "./prog");
            assert_eq!(path, "./prog");
            assert_eq!(args, vec!["a", "b"]);
        }
        _ => panic!("expected a spawn"),
    }
    let o = sh.run_command("exec dir\\prog", &no_env());
    assert!(matches!(o, Outcome::Spawn { .. }));
}

#[test]
fn fallback_passes_full_token_list() {
    let mut sh = Shell::new();
    let env = env_with(Some(vec!["A"]), Some(".EXE"));
    let o = sh.run_command("prog x y", &env);
    match o {
        Outcome::ExecSearch { program, candidates, args, fallback } => {
            assert_eq!(program, "prog");
            assert_eq!(candidates, vec!["A/prog.EXE"]);
            assert_eq!(args, vec!["x", "y"]);
            assert!(fallback);
        }
        _ => panic!("expected a search"),
    }
}

#[test]
fn spawn_results_record_status() {
    let mut sh = Shell::new();
    let r = sh.finish_spawn("prog", SpawnResult::Completed);
    assert!(r.is_none());
    assert_eq!(sh.last_status, 0);
    let r = sh.finish_spawn("prog", SpawnResult::SpawnError { os: "denied".to_string() });
    assert_eq!(r.unwrap().message(), "cannot start prog: denied");
    assert_eq!(sh.last_status, 1);
    let r = sh.finish_spawn("prog", SpawnResult::WaitError { os: "gone".to_string() });
    assert_eq!(r.unwrap().message(), "cannot wait for prog: gone");
    assert_eq!(sh.last_status, 1);
}

#[test]
fn cd_requests_the_directory_change() {
    let mut sh = Shell::new();
    let o = sh.run_command("cd /somewhere", &no_env());
    match o {
        Outcome::Chdir { path } => assert_eq!(path, "/somewhere"),
        _ => panic!("expected a directory change"),
    }
}

#[test]
fn cd_failure_sets_one_and_success_resets() {
    // cd to a nonexistent directory: status 1; a later valid cd: status 0
    let mut sh = Shell::new();
    let _ = sh.run_command("cd /nonexistent", &no_env());
    let err = sh.finish_cd(Some("No such file or directory".to_string()));
    assert_eq!(
        err.unwrap().message(),
        "cannot change directory: No such file or directory"
    );
    assert_eq!(sh.last_status, 1);
    let _ = sh.run_command("cd subdir", &no_env());
    let err = sh.finish_cd(None);
    assert!(err.is_none());
    assert_eq!(sh.last_status, 0);
}

#[test]
fn type_reports_builtins_without_searching() {
    let mut sh = Shell::new();
    // even with search directories set, no search outcome is produced
    let env = env_with(Some(vec!["/d1", "/d2"]), None);
    for name in ["cd", "echo", "type", "exec", "help"] {
        let o = sh.run_command(&format!("type {}", name), &env);
        let line = output_line(&o);
        assert_eq!(line, format!("{} is a built-in command", name));
        assert_eq!(sh.last_status, 0);
    }
}

#[test]
fn type_searches_exact_names_without_suffixes() {
    let mut sh = Shell::new();
    let env = env_with(Some(vec!["/d1", "/d2"]), Some(".EXE"));
    let o = sh.run_command("type foo", &env);
    match o {
        Outcome::TypeSearch { name, candidates } => {
            assert_eq!(name, "foo");
            assert_eq!(candidates, vec!["/d1/foo", "/d2/foo"]);
            let line = sh.finish_type(&name, Some("/d1/foo".to_string()));
            assert_eq!(line, "foo is /d1/foo");
            assert_eq!(sh.last_status, 0);
            let line = sh.finish_type(&name, None);
            assert_eq!(line, "foo not found");
            assert_eq!(sh.last_status, 0);
        }
        _ => panic!("expected a type search"),
    }
}

#[test]
fn type_without_argument_fails() {
    let mut sh = Shell::new();
    let o = sh.run_command("type", &no_env());
    match o {
        Outcome::Error { error } => {
            assert_eq!(error.message(), "type needs the name of a command");
        }
        _ => panic!("expected a failure"),
    }
    assert_eq!(sh.last_status, 1);
}

#[test]
fn help_prints_name_and_syntax() {
    let mut sh = Shell::new();
    let line = output_line(&sh.run_command("help cd", &no_env()));
    assert_eq!(line, "cd: cd [[-Path] <string>]");
    assert_eq!(sh.last_status, 0);
    let line = output_line(&sh.run_command("help exec", &no_env()));
    assert_eq!(line, "exec: exec [[-ProgramName] <string>] [[-Args] <string[]>]");
}

#[test]
fn help_unknown_name_fails_naming_it() {
    let mut sh = Shell::new();
    let o = sh.run_command("help bogus", &no_env());
    match o {
        Outcome::Error { error } => {
            assert_eq!(error.message(), "no such command 'bogus'");
        }
        _ => panic!("expected a failure"),
    }
    assert_eq!(sh.last_status, 1);
}

#[test]
fn help_lists_every_command_sorted() {
    let mut sh = Shell::new();
    let line = output_line(&sh.run_command("help", &no_env()));
    let expected = "Available commands:\n  cd: cd [[-Path] <string>]\n  echo: echo [-InputObject] <psobject[]>\n  exec: exec [[-ProgramName] <string>] [[-Args] <string[]>]\n  help: help [[-Name] <string>]\n  type: type [[-Path] <string>]";
    assert_eq!(line, expected);
    assert_eq!(sh.last_status, 0);
}

#[test]
fn cd_missing_argument_message() {
    let mut sh = Shell::new();
    let o = sh.run_command("cd", &no_env());
    match o {
        Outcome::Error { error } => assert_eq!(error.message(), "cd needs a directory"),
        _ => panic!("expected a failure"),
    }
}

#[test]
fn exec_missing_program_message() {
    let mut sh = Shell::new();
    let o = sh.run_command("exec", &no_env());
    match o {
        Outcome::Error { error } => assert_eq!(error.message(), "exec needs a program to execute"),
        _ => panic!("expected a failure"),
    }
}

#[test]
fn suffix_list_keeps_empty_pieces() {
    assert_eq!(split_on(".EXE;.BAT;.CMD", ';'), vec![".EXE", ".BAT", ".CMD"]);
    assert_eq!(split_on(".EXE;;", ';'), vec![".EXE", "", ""]);
    assert_eq!(split_on("", ';'), vec![""]);
    // an empty suffix piece probes the bare name
    let mut sh = Shell::new();
    let env = env_with(Some(vec!["D"]), Some(".EXE;"));
    match sh.run_command("exec foo", &env) {
        Outcome::ExecSearch { candidates, .. } => {
            assert_eq!(candidates, vec!["D/foo.EXE", "D/foo"]);
        }
        _ => panic!("expected a search"),
    }
}

#[test]
fn type_with_no_search_path_reports_not_found() {
    let mut sh = Shell::new();
    let o = sh.run_command("type foo", &no_env());
    match o {
        Outcome::TypeSearch { name, candidates } => {
            assert!(candidates.is_empty());
            let line = sh.finish_type(&name, None);
            assert_eq!(line, "foo not found");
            assert_eq!(sh.last_status, 0);
        }
        _ => panic!("expected a type search"),
    }
}

#[test]
fn path_not_set_message_names_program() {
    let mut sh = Shell::new();
    let o = sh.run_command("prog", &no_env());
    match o {
        Outcome::Error { error } => assert_eq!(error.message(), "prog: PATH not set"),
        _ => panic!("expected a failure"),
    }
}
