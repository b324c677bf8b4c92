//! What the user may choose, and how much of the tool activity is shown.

use crate::strings::{chars_of, lowercase, lowercase_of, text_eq, texts_of, trim, trimmed};
use vstd::prelude::*;

verus! {

/// The user's answer when asked what to do with a generated command.
#[derive(Debug, Clone, Copy, PartialEq, Eq, Structural)]
pub enum UserChoice {
    Execute,
    Describe,
    Abort,
}

/// How much of the tool activity is shown.
#[derive(Debug, Clone, Copy, PartialEq, Eq, Structural)]
pub enum DisplayMode {
    /// Every tool interaction, in detail.
    Verbose,
    /// A passing sign that a tool is at work.
    Minimal,
    /// Nothing of the tool interactions.
    Hidden,
}

impl Default for DisplayMode {
    fn default() -> (r: DisplayMode)
        ensures
            r == DisplayMode::Minimal,
    {
        DisplayMode::Minimal
    }
}

/// The choice that a word stands for: `e` executes, `d` describes, and every
/// other word aborts.
pub open spec fn choice_of(word: Seq<char>) -> UserChoice {
    if word == "e"@ {
        UserChoice::Execute
    } else if word == "d"@ {
        UserChoice::Describe
    } else {
        UserChoice::Abort
    }
}

impl UserChoice {
    /// The choice that `word` stands for.
    pub fn from_word(word: &str) -> (r: UserChoice)
        ensures
            r == choice_of(word@),
    {
        if text_eq(word, "e") {
            UserChoice::Execute
        } else if text_eq(word, "d") {
            UserChoice::Describe
        } else {
            UserChoice::Abort
        }
    }

    /// The choice that a line of input stands for: the line is trimmed and
    /// put in lower case first.
    pub fn from_input(line: &str) -> (r: UserChoice)
        ensures
            r == choice_of(lowercase_of(trim(line@))),
    {
        let word = lowercase(trimmed(line).as_str());
        UserChoice::from_word(word.as_str())
    }
}

/// The mode that a word of the `/display` command names.
pub open spec fn mode_of(word: Seq<char>) -> Option<DisplayMode> {
    if word == "verbose"@ {
        Some(DisplayMode::Verbose)
    } else if word == "minimal"@ {
        Some(DisplayMode::Minimal)
    } else if word == "hidden"@ {
        Some(DisplayMode::Hidden)
    } else {
        None
    }
}

impl DisplayMode {
    /// The mode that `word` names.
    pub fn from_word(word: &str) -> (r: Option<DisplayMode>)
        ensures
            r == mode_of(word@),
    {
        if text_eq(word, "verbose") {
            Some(DisplayMode::Verbose)
        } else if text_eq(word, "minimal") {
            Some(DisplayMode::Minimal)
        } else if text_eq(word, "hidden") {
            Some(DisplayMode::Hidden)
        } else {
            None
        }
    }

    /// The word that names this mode.
    pub open spec fn name_text(self) -> Seq<char> {
        match self {
            DisplayMode::Verbose => "verbose"@,
            DisplayMode::Minimal => "minimal"@,
            DisplayMode::Hidden => "hidden"@,
        }
    }

    /// The word that names this mode.
    pub fn name(self) -> (r: &'static str)
        ensures
            r@ == self.name_text(),
            mode_of(r@) == Some(self),
    {
        proof {
            reveal_strlit("verbose");
            reveal_strlit("minimal");
            reveal_strlit("hidden");
            assert("minimal"@[0] != "verbose"@[0]);
            assert("hidden"@[0] != "verbose"@[0]);
            assert("hidden"@[0] != "minimal"@[0]);
        }
        match self {
            DisplayMode::Verbose => "verbose",
            DisplayMode::Minimal => "minimal",
            DisplayMode::Hidden => "hidden",
        }
    }
}

/// What is shown of a tool event.
#[derive(Debug)]
pub struct Notice {
    /// Whether the line with the sign of activity is cleared first.
    pub clear_line: bool,
    /// Whether the sign of activity is shown, without a line feed.
    pub indicator: bool,
    /// The lines that are shown.
    pub lines: Vec<String>,
}

/// A notice as a mathematical value.
pub struct NoticeView {
    pub clear_line: bool,
    pub indicator: bool,
    pub lines: Seq<Seq<char>>,
}

impl View for Notice {
    type V = NoticeView;

    open spec fn view(&self) -> NoticeView {
        NoticeView {
            clear_line: self.clear_line,
            indicator: self.indicator,
            lines: texts_of(self.lines@),
        }
    }
}

/// The notice that shows nothing.
pub open spec fn silence() -> NoticeView {
    NoticeView { clear_line: false, indicator: false, lines: Seq::empty() }
}

/// What is shown when a tool is called: the name in verbose mode, the sign
/// of activity in minimal mode, nothing in hidden mode.
pub open spec fn call_notice(mode: DisplayMode, tool_name: Seq<char>) -> NoticeView {
    match mode {
        DisplayMode::Hidden => silence(),
        DisplayMode::Minimal => NoticeView {
            clear_line: false,
            indicator: true,
            lines: Seq::empty(),
        },
        DisplayMode::Verbose => NoticeView {
            clear_line: false,
            indicator: false,
            lines: seq!["Using tool:"@, tool_name],
        },
    }
}

/// What is shown of the arguments of a call: they are shown in verbose mode
/// alone.
pub open spec fn arguments_notice(mode: DisplayMode, arguments: Seq<char>) -> NoticeView {
    match mode {
        DisplayMode::Verbose => NoticeView {
            clear_line: false,
            indicator: false,
            lines: seq!["Arguments:"@, arguments],
        },
        _ => silence(),
    }
}

/// What is shown when a tool has succeeded: the result in verbose mode; in
/// minimal mode the sign of activity goes; nothing in hidden mode.
pub open spec fn success_notice(mode: DisplayMode, result: Seq<char>) -> NoticeView {
    match mode {
        DisplayMode::Hidden => silence(),
        DisplayMode::Minimal => NoticeView {
            clear_line: true,
            indicator: false,
            lines: Seq::empty(),
        },
        DisplayMode::Verbose => NoticeView {
            clear_line: false,
            indicator: false,
            lines: seq!["Tool completed successfully"@, result],
        },
    }
}

/// What is shown when a tool has failed. A failure is shown in every mode:
/// in short in minimal mode, with the error in the others.
pub open spec fn error_notice(mode: DisplayMode, error: Seq<char>) -> NoticeView {
    match mode {
        DisplayMode::Minimal => NoticeView {
            clear_line: true,
            indicator: false,
            lines: seq!["Tool failed"@],
        },
        _ => NoticeView { clear_line: false, indicator: false, lines: seq!["Tool Error:"@, error] },
    }
}

fn no_lines() -> (r: Vec<String>)
    ensures
        texts_of(r@) == Seq::<Seq<char>>::empty(),
{
    let r: Vec<String> = Vec::new();
    assert(texts_of(r@) =~= Seq::<Seq<char>>::empty());
    r
}

fn one_line(a: &str) -> (r: Vec<String>)
    ensures
        texts_of(r@) == seq![a@],
{
    let mut r: Vec<String> = Vec::new();
    r.push(String::from_str(a));
    assert(texts_of(r@) =~= seq![a@]);
    r
}

fn two_lines(a: &str, b: &str) -> (r: Vec<String>)
    ensures
        texts_of(r@) == seq![a@, b@],
{
    let mut r: Vec<String> = Vec::new();
    r.push(String::from_str(a));
    r.push(String::from_str(b));
    assert(texts_of(r@) =~= seq![a@, b@]);
    r
}

/// What is shown when the tool `tool_name` is called.
pub fn display_tool_call(mode: DisplayMode, tool_name: &str) -> (r: Notice)
    ensures
        r@ == call_notice(mode, tool_name@),
{
    match mode {
        DisplayMode::Hidden => Notice { clear_line: false, indicator: false, lines: no_lines() },
        DisplayMode::Minimal => Notice { clear_line: false, indicator: true, lines: no_lines() },
        DisplayMode::Verbose => Notice {
            clear_line: false,
            indicator: false,
            lines: two_lines("Using tool:", tool_name),
        },
    }
}

/// What is shown of the arguments `args` of a call.
pub fn display_tool_arguments(mode: DisplayMode, args: &str) -> (r: Notice)
    ensures
        r@ == arguments_notice(mode, args@),
{
    match mode {
        DisplayMode::Verbose => Notice {
            clear_line: false,
            indicator: false,
            lines: two_lines("Arguments:", args),
        },
        _ => Notice { clear_line: false, indicator: false, lines: no_lines() },
    }
}

/// What is shown when a tool has succeeded with `result`.
pub fn display_tool_success(mode: DisplayMode, result: &str) -> (r: Notice)
    ensures
        r@ == success_notice(mode, result@),
{
    match mode {
        DisplayMode::Hidden => Notice { clear_line: false, indicator: false, lines: no_lines() },
        DisplayMode::Minimal => Notice { clear_line: true, indicator: false, lines: no_lines() },
        DisplayMode::Verbose => Notice {
            clear_line: false,
            indicator: false,
            lines: two_lines("Tool completed successfully", result),
        },
    }
}

/// What is shown when a tool has failed with `error`.
pub fn display_tool_error(mode: DisplayMode, error: &str) -> (r: Notice)
    ensures
        r@ == error_notice(mode, error@),
        r@.lines.len() > 0,
{
    match mode {
        DisplayMode::Minimal => Notice {
            clear_line: true,
            indicator: false,
            lines: one_line("Tool failed"),
        },
        _ => Notice { clear_line: false, indicator: false, lines: two_lines("Tool Error:", error) },
    }
}

/// A failed tool call is shown in every mode.
pub proof fn law_failures_always_shown(mode: DisplayMode, error: Seq<char>)
    ensures
        error_notice(mode, error).lines.len() > 0,
{
}

/// Whether a response holds a sign of Markdown: a star, a backquote or a
/// hash.
pub open spec fn has_markdown(response: Seq<char>) -> bool {
    exists|i: int|
        0 <= i < response.len() && (#[trigger] response[i] == '*' || response[i] == '`'
            || response[i] == '#')
}

/// Whether `response` is to be shown as Markdown.
pub fn looks_like_markdown(response: &str) -> (r: bool)
    ensures
        r == has_markdown(response@),
{
    let t = chars_of(response);
    let n: usize = t.len();
    let mut i: usize = 0;
    while i < n
        invariant
            i <= n,
            n == t.len(),
            t@ == response@,
            forall|k: int|
                0 <= k < i ==> !(#[trigger] t@[k] == '*' || t@[k] == '`' || t@[k] == '#'),
        decreases n - i,
    {
        if t[i] == '*' || t[i] == '`' || t[i] == '#' {
            assert(response@[i as int] == '*' || response@[i as int] == '`' || response@[i as int]
                == '#');
            return true;
        }
        i += 1;
    }
    false
}

/// The lines that explain the display modes and name the one in use.
pub fn display_mode_help(current: DisplayMode) -> (r: Vec<String>)
    ensures
        r@.len() == 6,
        r@[0]@ == "Display Modes:"@,
        r@[1]@ == "  verbose - Show all tool interactions in detail"@,
        r@[2]@ == "  minimal - Show minimal tool activity indicators"@,
        r@[3]@ == "  hidden - Hide all tool interactions"@,
        r@[4]@ == ""@,
        r@[5]@ == "Current mode: "@ + current.name_text(),
{
    let mut r: Vec<String> = Vec::new();
    r.push(String::from_str("Display Modes:"));
    r.push(String::from_str("  verbose - Show all tool interactions in detail"));
    r.push(String::from_str("  minimal - Show minimal tool activity indicators"));
    r.push(String::from_str("  hidden - Hide all tool interactions"));
    r.push(String::from_str(""));
    let mut last = String::from_str("Current mode: ");
    last.append(current.name());
    r.push(last);
    r
}

/// What is shown when the tools are ready: nothing in hidden mode, else the
/// number of tools.
pub fn initialization_notice(mode: DisplayMode, tool_count: &str) -> (r: Option<String>)
    ensures
        match mode {
            DisplayMode::Hidden => r is None,
            DisplayMode::Minimal => r matches Some(t) && t@ == "Ready! "@ + tool_count@
                + " tools ready"@,
            DisplayMode::Verbose => r matches Some(t) && t@
                == "Ready! Initialization complete with "@ + tool_count@ + " tools"@,
        },
{
    match mode {
        DisplayMode::Hidden => None,
        DisplayMode::Minimal => {
            let mut t = String::from_str("Ready! ");
            t.append(tool_count);
            t.append(" tools ready");
            Some(t)
        },
        DisplayMode::Verbose => {
            let mut t = String::from_str("Ready! Initialization complete with ");
            t.append(tool_count);
            t.append(" tools");
            Some(t)
        },
    }
}

} // verus!
