//! The shell that commands are run in, and the system around it.

use crate::strings::{file_name, lowercase, lowercase_of, text_eq};
use vstd::prelude::*;

verus! {

/// The kinds of shell, which differ in how a command is handed to them.
#[derive(Debug, Clone, Copy, PartialEq, Eq, Structural)]
pub enum ShellType {
    /// The Windows command prompt.
    Cmd,
    /// Windows PowerShell or PowerShell Core.
    PowerShell,
    /// Bash, Zsh, Sh and their like.
    UnixLike,
    /// The Fish shell.
    Fish,
}

/// What is known of the system.
#[derive(Debug)]
pub struct SystemInfo {
    pub os_info: String,
    pub shell_path: String,
    pub shell_type: ShellType,
}

/// What the environment says of the shell.
#[derive(Debug)]
pub struct ShellEnvironment {
    /// Whether the system is Windows.
    pub windows: bool,
    /// Whether `PSModulePath` is set.
    pub powershell_modules: bool,
    /// The value of `POSH_EXECUTABLE`, if it names a file that exists.
    pub powershell_path: Option<String>,
    /// The value of `COMSPEC`.
    pub comspec: Option<String>,
    /// The value of `SHELL`.
    pub shell: Option<String>,
}

/// The kind of the Unix shell whose file is called `name`: Fish where the
/// name, in lower case, is `fish`; a shell without a file name counts as
/// `sh`.
pub open spec fn shell_type_named(name: Option<Seq<char>>) -> ShellType {
    let name = match name {
        Some(n) => n,
        None => "sh"@,
    };
    if lowercase_of(name) == "fish"@ {
        ShellType::Fish
    } else {
        ShellType::UnixLike
    }
}

/// Whether a kind of shell is one of Unix.
pub open spec fn is_unix_shell(kind: ShellType) -> bool {
    kind == ShellType::Fish || kind == ShellType::UnixLike
}

/// The text of an optional value of the environment, or `fallback`.
pub open spec fn value_or(value: Option<String>, fallback: Seq<char>) -> Seq<char> {
    match value {
        Some(v) => v@,
        None => fallback,
    }
}

/// The path of the shell that the environment leads to. On Windows:
/// PowerShell where its modules are known, by its own path or as
/// `powershell.exe`; else the command prompt, by `COMSPEC` or as `cmd.exe`.
/// Elsewhere: the shell of `SHELL`, or `/bin/sh`.
pub open spec fn shell_path_of(env: ShellEnvironment) -> Seq<char> {
    if env.windows {
        if env.powershell_modules {
            value_or(env.powershell_path, "powershell.exe"@)
        } else {
            value_or(env.comspec, "cmd.exe"@)
        }
    } else {
        value_or(env.shell, "/bin/sh"@)
    }
}

/// What is known of the kind of shell before its path is looked at: on
/// Windows the kind itself, elsewhere that it is a shell of Unix.
pub open spec fn shell_kind_fits(env: ShellEnvironment, kind: ShellType) -> bool {
    if env.windows {
        kind == if env.powershell_modules {
            ShellType::PowerShell
        } else {
            ShellType::Cmd
        }
    } else {
        is_unix_shell(kind)
    }
}

fn text_or(value: &Option<String>, fallback: &str) -> (r: String)
    ensures
        r@ == value_or(*value, fallback@),
{
    match value {
        Some(v) => v.clone(),
        None => String::from_str(fallback),
    }
}

/// The kind of the Unix shell whose file is called `name`.
pub fn shell_type_of(name: Option<&str>) -> (r: ShellType)
    ensures
        r == shell_type_named(
            match name {
                Some(n) => Some(n@),
                None => None,
            },
        ),
{
    let lower = match name {
        Some(n) => lowercase(n),
        None => lowercase("sh"),
    };
    if text_eq(lower.as_str(), "fish") {
        ShellType::Fish
    } else {
        ShellType::UnixLike
    }
}

/// The kind of the Unix shell at `path`: that of the file name of the
/// path, as the system at hand splits paths.
pub fn classify_unix_shell(path: &str) -> (r: ShellType)
    ensures
        is_unix_shell(r),
{
    match file_name(path) {
        Some(name) => shell_type_of(Some(name.as_str())),
        None => shell_type_of(None),
    }
}

/// Finds the shell from what the environment says.
pub fn detect_shell(env: &ShellEnvironment) -> (r: (String, ShellType))
    ensures
        r.0@ == shell_path_of(*env),
        shell_kind_fits(*env, r.1),
{
    if env.windows {
        if env.powershell_modules {
            (text_or(&env.powershell_path, "powershell.exe"), ShellType::PowerShell)
        } else {
            (text_or(&env.comspec, "cmd.exe"), ShellType::Cmd)
        }
    } else {
        let path = text_or(&env.shell, "/bin/sh");
        let kind = classify_unix_shell(path.as_str());
        (path, kind)
    }
}

/// The description of the operating system: its type, version and bitness
/// with a blank between them.
pub open spec fn os_description(os_type: Seq<char>, version: Seq<char>, bitness: Seq<char>) -> Seq<
    char,
> {
    os_type + " "@ + version + " "@ + bitness
}

impl SystemInfo {
    /// What is known of the system, from the description of the operating
    /// system and from the environment.
    pub fn new(os_type: &str, version: &str, bitness: &str, env: &ShellEnvironment) -> (r:
        SystemInfo)
        ensures
            r.os_info@ == os_description(os_type@, version@, bitness@),
            r.shell_path@ == shell_path_of(*env),
            shell_kind_fits(*env, r.shell_type),
    {
        let mut os_info = String::from_str(os_type);
        os_info.append(" ");
        os_info.append(version);
        os_info.append(" ");
        os_info.append(bitness);
        let (shell_path, shell_type) = detect_shell(env);
        SystemInfo { os_info, shell_path, shell_type }
    }
}

/// The flag before the command when it is handed to a shell.
pub open spec fn command_flag(shell_type: ShellType) -> Seq<char> {
    match shell_type {
        ShellType::Cmd => "/C"@,
        ShellType::PowerShell => "-Command"@,
        ShellType::UnixLike => "-c"@,
        ShellType::Fish => "-c"@,
    }
}

/// The arguments with which the shell runs `command`: the flag of the
/// shell, then the command.
pub fn shell_arguments(shell_type: ShellType, command: &str) -> (r: (String, String))
    ensures
        r.0@ == command_flag(shell_type),
        r.1@ == command@,
{
    let flag = match shell_type {
        ShellType::Cmd => "/C",
        ShellType::PowerShell => "-Command",
        ShellType::UnixLike => "-c",
        ShellType::Fish => "-c",
    };
    (String::from_str(flag), String::from_str(command))
}

} // verus!
