use shellchat::display::{
    display_mode_help, display_tool_arguments, display_tool_call, display_tool_error,
    display_tool_success, initialization_notice, looks_like_markdown, DisplayMode, UserChoice,
};
use shellchat::error::SchatError;
use shellchat::input::complete_command;
use shellchat::system::{
    classify_unix_shell, detect_shell, shell_arguments, ShellEnvironment, ShellType, SystemInfo,
};

fn words(items: Vec<&str>) -> Vec<String> {
    items.into_iter().map(|w| w.to_string()).collect()
}

#[test]
fn every_error_has_its_label() {
    let d = || "d".to_string();
    assert_eq!(SchatError::Api(d()).message(), "API error: d");
    assert_eq!(SchatError::Config(d()).message(), "Configuration error: d");
    assert_eq!(SchatError::Input(d()).message(), "Input error: d");
    assert_eq!(SchatError::Execution(d()).message(), "Execution error: d");
    assert_eq!(SchatError::Io(d()).message(), "IO error: d");
    assert_eq!(SchatError::Serialization(d()).message(), "Serialization error: d");
    assert_eq!(SchatError::Network(d()).message(), "Network error: d");
    assert_eq!(SchatError::Unknown(d()).message(), "Unknown error: d");
    assert_eq!(SchatError::ToolNotFound(d()).message(), "Tool not found: d");
    assert_eq!(SchatError::ToolExecution(d()).message(), "Tool execution error: d");
    assert_eq!(SchatError::McpConnection(d()).message(), "MCP connection error: d");
    assert_eq!(SchatError::from("plain".to_string()).message(), "Unknown error: plain");
}

#[test]
fn the_choice_is_read_from_a_line() {
    assert_eq!(UserChoice::from_input("e"), UserChoice::Execute);
    assert_eq!(UserChoice::from_input("  E \n"), UserChoice::Execute);
    assert_eq!(UserChoice::from_input("d"), UserChoice::Describe);
    assert_eq!(UserChoice::from_input("D"), UserChoice::Describe);
    assert_eq!(UserChoice::from_input("a"), UserChoice::Abort);
    assert_eq!(UserChoice::from_input(""), UserChoice::Abort);
    assert_eq!(UserChoice::from_input("execute"), UserChoice::Abort);
    assert_eq!(UserChoice::from_input("e d"), UserChoice::Abort);
    assert_eq!(UserChoice::from_word("e"), UserChoice::Execute);
    assert_eq!(UserChoice::from_word("E"), UserChoice::Abort);
    assert_eq!(UserChoice::from_word("d"), UserChoice::Describe);
}

#[test]
fn the_modes_have_their_names() {
    assert_eq!(DisplayMode::from_word("verbose"), Some(DisplayMode::Verbose));
    assert_eq!(DisplayMode::from_word("minimal"), Some(DisplayMode::Minimal));
    assert_eq!(DisplayMode::from_word("hidden"), Some(DisplayMode::Hidden));
    assert_eq!(DisplayMode::from_word("help"), None);
    assert_eq!(DisplayMode::from_word(""), None);
    assert_eq!(DisplayMode::Verbose.name(), "verbose");
    assert_eq!(DisplayMode::Minimal.name(), "minimal");
    assert_eq!(DisplayMode::Hidden.name(), "hidden");
    assert_eq!(DisplayMode::default(), DisplayMode::Minimal);
    assert_eq!(
        display_mode_help(DisplayMode::Hidden),
        words(vec![
            "Display Modes:",
            "  verbose - Show all tool interactions in detail",
            "  minimal - Show minimal tool activity indicators",
            "  hidden - Hide all tool interactions",
            "",
            "Current mode: hidden",
        ])
    );
}

#[test]
fn tool_activity_is_shown_by_the_mode() {
    let n = display_tool_call(DisplayMode::Verbose, "weather");
    assert_eq!((n.clear_line, n.indicator), (false, false));
    assert_eq!(n.lines, words(vec!["Using tool:", "weather"]));
    let n = display_tool_call(DisplayMode::Minimal, "weather");
    assert_eq!((n.clear_line, n.indicator, n.lines.len()), (false, true, 0));
    let n = display_tool_call(DisplayMode::Hidden, "weather");
    assert_eq!((n.clear_line, n.indicator, n.lines.len()), (false, false, 0));

    let n = display_tool_arguments(DisplayMode::Verbose, "{}");
    assert_eq!(n.lines, words(vec!["Arguments:", "{}"]));
    assert_eq!(display_tool_arguments(DisplayMode::Minimal, "{}").lines.len(), 0);
    assert_eq!(display_tool_arguments(DisplayMode::Hidden, "{}").lines.len(), 0);

    let n = display_tool_success(DisplayMode::Verbose, "21");
    assert_eq!(n.lines, words(vec!["Tool completed successfully", "21"]));
    let n = display_tool_success(DisplayMode::Minimal, "21");
    assert_eq!((n.clear_line, n.indicator, n.lines.len()), (true, false, 0));
    let n = display_tool_success(DisplayMode::Hidden, "21");
    assert_eq!((n.clear_line, n.indicator, n.lines.len()), (false, false, 0));
}

#[test]
fn a_failed_tool_is_shown_in_every_mode() {
    let n = display_tool_error(DisplayMode::Hidden, "boom");
    assert_eq!(n.lines, words(vec!["Tool Error:", "boom"]));
    let n = display_tool_error(DisplayMode::Verbose, "boom");
    assert_eq!(n.lines, words(vec!["Tool Error:", "boom"]));
    let n = display_tool_error(DisplayMode::Minimal, "boom");
    assert!(n.clear_line);
    assert_eq!(n.lines, words(vec!["Tool failed"]));
}

#[test]
fn the_tools_are_announced_by_the_mode() {
    assert_eq!(initialization_notice(DisplayMode::Hidden, "3"), None);
    assert_eq!(
        initialization_notice(DisplayMode::Minimal, "3"),
        Some("Ready! 3 tools ready".to_string())
    );
    assert_eq!(
        initialization_notice(DisplayMode::Verbose, "3"),
        Some("Ready! Initialization complete with 3 tools".to_string())
    );
}

#[test]
fn markdown_is_known_by_its_signs() {
    assert!(looks_like_markdown("# Title"));
    assert!(looks_like_markdown("some *bold* text"));
    assert!(looks_like_markdown("```\ncode\n```"));
    assert!(looks_like_markdown("a `b`"));
    assert!(!looks_like_markdown("plain words, nothing else."));
    assert!(!looks_like_markdown(""));
}

#[test]
fn the_shell_is_found_from_the_environment() {
    let env = |windows: bool, modules: bool, posh: Option<&str>, comspec: Option<&str>, shell: Option<&str>| {
        ShellEnvironment {
            windows,
            powershell_modules: modules,
            powershell_path: posh.map(|s| s.to_string()),
            comspec: comspec.map(|s| s.to_string()),
            shell: shell.map(|s| s.to_string()),
        }
    };
    assert_eq!(
        detect_shell(&env(false, false, None, None, Some("/usr/bin/fish"))),
        ("/usr/bin/fish".to_string(), ShellType::Fish)
    );
    assert_eq!(
        detect_shell(&env(false, true, None, None, Some("/bin/zsh"))),
        ("/bin/zsh".to_string(), ShellType::UnixLike)
    );
    assert_eq!(
        detect_shell(&env(false, false, None, None, None)),
        ("/bin/sh".to_string(), ShellType::UnixLike)
    );
    assert_eq!(
        detect_shell(&env(true, true, Some("C:\\pwsh.exe"), None, Some("/bin/zsh"))),
        ("C:\\pwsh.exe".to_string(), ShellType::PowerShell)
    );
    assert_eq!(
        detect_shell(&env(true, true, None, Some("C:\\cmd.exe"), None)),
        ("powershell.exe".to_string(), ShellType::PowerShell)
    );
    assert_eq!(
        detect_shell(&env(true, false, None, Some("C:\\cmd.exe"), None)),
        ("C:\\cmd.exe".to_string(), ShellType::Cmd)
    );
    assert_eq!(
        detect_shell(&env(true, false, None, None, None)),
        ("cmd.exe".to_string(), ShellType::Cmd)
    );
    let info = SystemInfo::new("Ubuntu", "22.04", "64-bit", &env(false, false, None, None, None));
    assert_eq!(info.os_info, "Ubuntu 22.04 64-bit");
    assert_eq!(info.shell_path, "/bin/sh");
    assert_eq!(info.shell_type, ShellType::UnixLike);
}

#[test]
fn fish_is_known_by_the_file_name_of_its_path() {
    assert_eq!(classify_unix_shell("/usr/bin/fish"), ShellType::Fish);
    assert_eq!(classify_unix_shell("/usr/local/bin/FISH"), ShellType::Fish);
    assert_eq!(classify_unix_shell("fish"), ShellType::Fish);
    assert_eq!(classify_unix_shell("/usr/bin/fish/"), ShellType::Fish);
    assert_eq!(classify_unix_shell("/opt/fish/bin/bash"), ShellType::UnixLike);
    assert_eq!(classify_unix_shell("/bin/fishy"), ShellType::UnixLike);
    assert_eq!(classify_unix_shell(""), ShellType::UnixLike);
    assert_eq!(classify_unix_shell("/bin/.."), ShellType::UnixLike);
}

#[test]
fn every_shell_gets_the_command_behind_its_flag() {
    assert_eq!(shell_arguments(ShellType::Cmd, "dir"), ("/C".to_string(), "dir".to_string()));
    assert_eq!(
        shell_arguments(ShellType::PowerShell, "ls"),
        ("-Command".to_string(), "ls".to_string())
    );
    assert_eq!(shell_arguments(ShellType::UnixLike, "ls"), ("-c".to_string(), "ls".to_string()));
    assert_eq!(shell_arguments(ShellType::Fish, "ls"), ("-c".to_string(), "ls".to_string()));
}

#[test]
fn commands_complete_a_line_that_starts_with_a_slash() {
    let names = words(vec!["quit", "help", "clear", "model", "save", "load", "list", "delete", "display"]);
    assert_eq!(complete_command("/l", 2, &names), Some(words(vec!["load", "list"])));
    assert_eq!(complete_command("/de", 3, &names), Some(words(vec!["delete"])));
    assert_eq!(complete_command("/delete", 2, &names), Some(words(vec!["delete", "display"])));
    assert_eq!(complete_command("/", 1, &names), Some(names.clone()));
    assert_eq!(complete_command("/x", 2, &names), None);
    assert_eq!(complete_command("l", 1, &names), None);
    assert_eq!(complete_command("", 0, &names), None);
    assert_eq!(complete_command("/l", 0, &names), None);
    assert_eq!(complete_command("/l", 3, &names), None);
    assert_eq!(complete_command("/quit now", 9, &names), None);
}
