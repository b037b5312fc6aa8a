use d3term::command::{
    command_from_words, default_shell, has_separator, join_command,
    normalize_zellij_attach_args, parse_command_line, probe_target, resolve_probed_command,
    resolve_shell_command, resolve_startup_command_with_checker, ProbeTarget,
};
use d3term::config::{MultiplexerMode, StartupConfig};
use d3term::error::{CommandFault, SessionError};

fn strings(items: &[&str]) -> Vec<String> {
    items.iter().map(|s| s.to_string()).collect()
}

fn startup(multiplexer: MultiplexerMode, shell: Option<&str>, shell_args: &[&str]) -> StartupConfig {
    StartupConfig {
        multiplexer,
        shell: shell.map(|s| s.to_string()),
        shell_args: strings(shell_args),
        zellij_command: "zellij attach -c d3term".to_string(),
        tmux_command: "tmux new-session -A -s main".to_string(),
    }
}

#[test]
fn parse_command_line_splits_program_and_args() {
    let parsed = parse_command_line("zellij attach -c d3term").expect("parse should succeed");
    assert_eq!(parsed.0, "zellij");
    assert_eq!(parsed.1, vec!["attach", "-c", "d3term"]);
}

#[test]
fn missing_multiplexer_falls_back_to_shell() {
    let startup = StartupConfig {
        multiplexer: MultiplexerMode::Zellij,
        shell: Some("/bin/zsh".to_string()),
        shell_args: vec!["-l".to_string()],
        zellij_command: "zellij attach -c d3term".to_string(),
        tmux_command: "tmux new-session -A -s main".to_string(),
    };
    let resolved = resolve_startup_command_with_checker(&startup, None, |_program| false)
        .expect("fallback should resolve");
    assert_eq!(resolved.program, "/bin/zsh");
    assert!(resolved.fallback_used);
}

#[test]
fn none_mode_uses_shell() {
    let startup = StartupConfig {
        multiplexer: MultiplexerMode::Disabled,
        shell: Some("/bin/bash".to_string()),
        shell_args: vec![],
        zellij_command: "zellij attach -c d3term".to_string(),
        tmux_command: "tmux new-session -A -s main".to_string(),
    };
    let resolved = resolve_startup_command_with_checker(&startup, None, |_program| true)
        .expect("shell mode should resolve");
    assert_eq!(resolved.program, "/bin/bash");
    assert_eq!(resolved.args, vec!["-l"]);
}

#[test]
fn legacy_zellij_default_is_upgraded_with_session_name() {
    let startup = StartupConfig {
        multiplexer: MultiplexerMode::Zellij,
        shell: None,
        shell_args: vec![],
        zellij_command: "zellij attach -c".to_string(),
        tmux_command: "tmux new-session -A -s main".to_string(),
    };
    let resolved = resolve_startup_command_with_checker(&startup, None, |_program| true)
        .expect("zellij command should resolve");
    assert_eq!(resolved.program, "zellij");
    assert_eq!(resolved.args, vec!["attach", "-c", "d3term"]);
}

#[test]
fn named_zellij_session_is_not_named_twice() {
    let cfg = startup(MultiplexerMode::Zellij, None, &[]);
    let resolved = resolve_startup_command_with_checker(&cfg, None, |_program| true).unwrap();
    assert_eq!(resolved.program, "zellij");
    assert_eq!(resolved.args, vec!["attach", "-c", "d3term"]);
    assert_eq!(resolved.display, "zellij attach -c d3term");
    assert!(!resolved.fallback_used);
    assert_eq!(resolved.warning, None);
}

#[test]
fn disabled_mode_never_asks_and_never_falls_back() {
    let cfg = startup(MultiplexerMode::Disabled, Some("/bin/bash"), &["-i", "-l"]);
    let resolved =
        resolve_startup_command_with_checker(&cfg, None, |_program| -> bool { panic!("asked") })
            .unwrap();
    assert_eq!(resolved.program, "/bin/bash");
    assert_eq!(resolved.args, vec!["-i", "-l"]);
    assert_eq!(resolved.display, "/bin/bash -i -l");
    assert!(!resolved.fallback_used);
    assert_eq!(resolved.warning, None);
}

#[test]
fn found_tmux_is_launched_as_configured() {
    let cfg = startup(MultiplexerMode::Tmux, Some("/bin/bash"), &[]);
    let resolved =
        resolve_startup_command_with_checker(&cfg, None, |program| program == "tmux").unwrap();
    assert_eq!(resolved.program, "tmux");
    assert_eq!(resolved.args, vec!["new-session", "-A", "-s", "main"]);
    assert_eq!(resolved.display, "tmux new-session -A -s main");
    assert!(!resolved.fallback_used);
    assert_eq!(resolved.warning, None);
}

#[test]
fn missing_tmux_warns_with_the_configured_command() {
    let cfg = startup(MultiplexerMode::Tmux, Some("/bin/bash"), &[]);
    let resolved = resolve_startup_command_with_checker(&cfg, None, |_program| false).unwrap();
    assert_eq!(resolved.program, "/bin/bash");
    assert_eq!(resolved.args, vec!["-l"]);
    assert_eq!(resolved.display, "/bin/bash -l");
    assert!(resolved.fallback_used);
    assert_eq!(
        resolved.warning.as_deref(),
        Some("tmux が見つからないため通常シェルで起動します: tmux new-session -A -s main")
    );
}

#[test]
fn missing_zellij_warns_with_the_configured_command() {
    let cfg = startup(MultiplexerMode::Zellij, None, &["-i"]);
    let resolved =
        resolve_startup_command_with_checker(&cfg, Some("/bin/fish"), |_program| false).unwrap();
    assert_eq!(resolved.program, "/bin/fish");
    assert_eq!(resolved.args, vec!["-i"]);
    assert!(resolved.fallback_used);
    assert_eq!(
        resolved.warning.as_deref(),
        Some("zellij が見つからないため通常シェルで起動します: zellij attach -c d3term")
    );
}

#[test]
fn zellij_is_asked_about_by_program_name() {
    let cfg = startup(MultiplexerMode::Zellij, Some("/bin/bash"), &[]);
    let resolved =
        resolve_startup_command_with_checker(&cfg, None, |program| program == "zellij").unwrap();
    assert_eq!(resolved.program, "zellij");
    let resolved =
        resolve_startup_command_with_checker(&cfg, None, |program| program != "zellij").unwrap();
    assert_eq!(resolved.program, "/bin/bash");
}

#[test]
fn malformed_command_is_an_error_without_fallback() {
    let mut cfg = startup(MultiplexerMode::Tmux, Some("/bin/bash"), &[]);
    cfg.tmux_command = "tmux 'new-session".to_string();
    let outcome = resolve_startup_command_with_checker(&cfg, None, |_program| false);
    assert_eq!(
        outcome.err(),
        Some(SessionError::InvalidCommand(CommandFault::UnbalancedQuote))
    );
    cfg.multiplexer = MultiplexerMode::Zellij;
    cfg.zellij_command = "   ".to_string();
    let outcome = resolve_startup_command_with_checker(&cfg, None, |_program| true);
    assert_eq!(outcome.err(), Some(SessionError::InvalidCommand(CommandFault::Empty)));
}

#[test]
fn parse_command_line_reports_each_fault() {
    assert_eq!(
        parse_command_line("").err(),
        Some(SessionError::InvalidCommand(CommandFault::Empty))
    );
    assert_eq!(
        parse_command_line("# only a comment").err(),
        Some(SessionError::InvalidCommand(CommandFault::Empty))
    );
    assert_eq!(
        parse_command_line("tmux \"unclosed").err(),
        Some(SessionError::InvalidCommand(CommandFault::UnbalancedQuote))
    );
}

#[test]
fn parse_command_line_removes_quotes() {
    let (program, args) = parse_command_line("sh -c 'echo hi' \"a b\"").unwrap();
    assert_eq!(program, "sh");
    assert_eq!(args, vec!["-c", "echo hi", "a b"]);
    let (program, args) = parse_command_line("  tmux  ").unwrap();
    assert_eq!(program, "tmux");
    assert!(args.is_empty());
}

#[test]
fn command_from_words_takes_the_first_word_as_program() {
    let (program, args) = command_from_words(strings(&["a", "b", "c"])).unwrap();
    assert_eq!(program, "a");
    assert_eq!(args, vec!["b", "c"]);
    let (program, args) = command_from_words(strings(&["only"])).unwrap();
    assert_eq!(program, "only");
    assert!(args.is_empty());
    assert_eq!(
        command_from_words(Vec::new()).err(),
        Some(SessionError::InvalidCommand(CommandFault::Empty))
    );
}

#[test]
fn normalize_adds_the_session_name_only_to_the_bare_attach() {
    let mut args = strings(&["attach", "-c"]);
    normalize_zellij_attach_args("zellij", &mut args);
    assert_eq!(args, vec!["attach", "-c", "d3term"]);
    normalize_zellij_attach_args("zellij", &mut args);
    assert_eq!(args, vec!["attach", "-c", "d3term"]);

    let mut args = strings(&["attach", "-c"]);
    normalize_zellij_attach_args("/usr/bin/zellij", &mut args);
    assert_eq!(args, vec!["attach", "-c"]);

    let mut args = strings(&["attach"]);
    normalize_zellij_attach_args("zellij", &mut args);
    assert_eq!(args, vec!["attach"]);

    let mut args = strings(&["-c", "attach"]);
    normalize_zellij_attach_args("zellij", &mut args);
    assert_eq!(args, vec!["-c", "attach"]);

    let mut args: Vec<String> = Vec::new();
    normalize_zellij_attach_args("zellij", &mut args);
    assert!(args.is_empty());
}

#[test]
fn join_command_shows_program_and_arguments() {
    assert_eq!(join_command("/bin/zsh", &[]), "/bin/zsh");
    assert_eq!(join_command("/bin/zsh", &strings(&["-l"])), "/bin/zsh -l");
    assert_eq!(
        join_command("tmux", &strings(&["new-session", "-A", "-s", "main"])),
        "tmux new-session -A -s main"
    );
    assert_eq!(join_command("sh", &strings(&["-c", "echo hi"])), "sh -c echo hi");
    assert_eq!(join_command("sh", &strings(&["", ""])), "sh  ");
}

#[test]
fn default_shell_prefers_a_set_environment_value() {
    assert_eq!(default_shell(Some("/bin/fish")), "/bin/fish");
    assert_eq!(default_shell(Some(" /bin/fish ")), " /bin/fish ");
    assert_eq!(default_shell(Some("")), "/bin/zsh");
    assert_eq!(default_shell(Some(" \t\n")), "/bin/zsh");
    assert_eq!(default_shell(None), "/bin/zsh");
}

#[test]
fn shell_resolution_trims_the_configured_shell() {
    let cfg = startup(MultiplexerMode::Disabled, Some("  /bin/bash\t"), &[]);
    let resolved = resolve_shell_command(&cfg, Some("/bin/fish"), false, None);
    assert_eq!(resolved.program, "/bin/bash");
    assert_eq!(resolved.args, vec!["-l"]);
    assert_eq!(resolved.display, "/bin/bash -l");
    assert!(!resolved.fallback_used);
    assert_eq!(resolved.warning, None);
}

#[test]
fn shell_resolution_falls_back_from_a_blank_shell() {
    let cfg = startup(MultiplexerMode::Disabled, Some("   "), &["-i"]);
    let resolved = resolve_shell_command(&cfg, Some("/bin/fish"), true, Some("note".to_string()));
    assert_eq!(resolved.program, "/bin/fish");
    assert_eq!(resolved.args, vec!["-i"]);
    assert_eq!(resolved.display, "/bin/fish -i");
    assert!(resolved.fallback_used);
    assert_eq!(resolved.warning.as_deref(), Some("note"));

    let cfg = startup(MultiplexerMode::Disabled, None, &[]);
    let resolved = resolve_shell_command(&cfg, None, false, None);
    assert_eq!(resolved.program, "/bin/zsh");
    assert_eq!(resolved.display, "/bin/zsh -l");
    let resolved = resolve_shell_command(&cfg, Some("  "), false, None);
    assert_eq!(resolved.program, "/bin/zsh");
}

#[test]
fn probed_command_follows_the_answer() {
    let cfg = startup(MultiplexerMode::Tmux, Some("/bin/bash"), &[]);
    let found = resolve_probed_command(&cfg, None, "tmux".to_string(), strings(&["attach"]), true);
    assert_eq!(found.program, "tmux");
    assert_eq!(found.args, vec!["attach"]);
    assert_eq!(found.display, "tmux attach");
    assert!(!found.fallback_used);
    let missing =
        resolve_probed_command(&cfg, None, "tmux".to_string(), strings(&["attach"]), false);
    assert_eq!(missing.program, "/bin/bash");
    assert!(missing.fallback_used);
    assert!(missing.warning.unwrap().ends_with(": tmux new-session -A -s main"));

    let cfg = startup(MultiplexerMode::Disabled, Some("/bin/bash"), &[]);
    let plain = resolve_probed_command(&cfg, None, "tmux".to_string(), Vec::new(), true);
    assert_eq!(plain.program, "/bin/bash");
    assert!(!plain.fallback_used);
    assert_eq!(plain.warning, None);
}

#[test]
fn programs_written_as_paths_are_probed_literally() {
    assert!(has_separator("/usr/bin/tmux"));
    assert!(has_separator("./tmux"));
    assert!(has_separator("bin/"));
    assert!(!has_separator("tmux"));
    assert!(!has_separator(""));
    let dirs = strings(&["/usr/bin", "/bin/", ""]);
    assert_eq!(
        probe_target("/opt/tmux", &dirs),
        ProbeTarget::Literal("/opt/tmux".to_string())
    );
    assert_eq!(
        probe_target("tmux", &dirs),
        ProbeTarget::Candidates(strings(&["/usr/bin/tmux", "/bin/tmux", "tmux"]))
    );
    assert_eq!(probe_target("tmux", &Vec::new()), ProbeTarget::Candidates(Vec::new()));
}
