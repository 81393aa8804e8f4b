//! What the window and system commands decide: the facts about the platform,
//! and the step that a window command takes.

use vstd::prelude::*;
use crate::text::{
    chars_of, contains, decode_lossy, has_substring, lowercase, same_text, to_lowercase, trim,
    trim_range, utf8_lossy,
};

verus! {

/// Facts about the platform that the application runs on.
#[derive(Clone, Debug, PartialEq, Eq)]
pub struct SystemInfo {
    pub platform: String,
    pub arch: String,
    pub is_rosetta: bool,
    pub is_windows_wsl_shell: bool,
}

/// Whether the platform is one on which translation by Rosetta can occur.
pub fn needs_rosetta_check(platform: &str) -> (needed: bool)
    ensures
        needed == (platform@ == "macos"@),
{
    same_text(platform, "macos")
}

/// Whether the platform is one on which the shell can be a WSL shell.
pub fn needs_wsl_check(platform: &str) -> (needed: bool)
    ensures
        needed == (platform@ == "windows"@),
{
    same_text(platform, "windows")
}

/// Puts the facts together. What the Rosetta check found counts on macOS
/// only, what the WSL check found on Windows only.
pub fn get_system_info(platform: String, arch: String, rosetta: bool, wsl_shell: bool) -> (info:
    SystemInfo)
    ensures
        info.platform@ == platform@,
        info.arch@ == arch@,
        info.is_rosetta == (platform@ == "macos"@ && rosetta),
        info.is_windows_wsl_shell == (platform@ == "windows"@ && wsl_shell),
{
    let is_rosetta: bool = needs_rosetta_check(platform.as_str()) && rosetta;
    let is_windows_wsl_shell: bool = needs_wsl_check(platform.as_str()) && wsl_shell;
    SystemInfo { platform, arch, is_rosetta, is_windows_wsl_shell }
}

/// Whether the answer of `sysctl -n sysctl.proc_translated` says "translated":
/// it is, apart from surrounding whitespace, the digit 1.
pub fn is_translated(answer: &str) -> (translated: bool)
    ensures
        translated == (trim(answer@) == "1"@),
{
    let chars: Vec<char> = chars_of(answer);
    let (start, end) = trim_range(&chars, 0, chars.len());
    assert(chars@.subrange(0, chars.len() as int) =~= answer@);
    proof {
        reveal_strlit("1");
    }
    if end - start == 1 && chars[start] == '1' {
        assert(chars@.subrange(start as int, end as int) =~= "1"@);
        true
    } else {
        proof {
            let trimmed = chars@.subrange(start as int, end as int);
            if end - start == 1 {
                assert(trimmed[0] != "1"@[0]);
            } else {
                assert(trimmed.len() != "1"@.len());
            }
        }
        false
    }
}

/// Whether the process runs under Rosetta, from the standard output of the
/// `sysctl` query, where the query could be run.
pub fn check_is_rosetta(sysctl_output: Option<Vec<u8>>) -> (translated: bool)
    ensures
        translated == (match sysctl_output {
            Some(bytes) => trim(utf8_lossy(bytes@)) == "1"@,
            None => false,
        }),
{
    match sysctl_output {
        Some(bytes) => {
            let answer: String = decode_lossy(bytes.as_slice());
            is_translated(answer.as_str())
        },
        None => false,
    }
}

/// Whether a lower-cased value of `SHELL` names a WSL shell.
pub open spec fn shell_is_wsl(lower: Seq<char>) -> bool {
    contains(lower, "wsl"@) || contains(lower, "bash.exe"@)
}

/// Whether a lower-cased path of `bash` is that of a WSL shell.
pub open spec fn bash_path_is_wsl(lower: Seq<char>) -> bool {
    contains(lower, "wsl"@) || contains(lower, "\\windows\\system32\\bash.exe"@)
}

/// The length of the first line of `s`, without its line feed.
pub open spec fn line_end(s: Seq<char>) -> int
    decreases s.len(),
{
    if s.len() == 0 || s[0] == '\n' {
        0
    } else {
        1 + line_end(s.skip(1))
    }
}

/// The first line of `s` that holds more than whitespace, trimmed.
pub open spec fn first_filled_line(s: Seq<char>) -> Option<Seq<char>>
    decreases s.len(),
{
    if s.len() == 0 {
        None
    } else {
        let n = line_end(s);
        let line = trim(s.take(n));
        if line.len() > 0 {
            Some(line)
        } else if 0 <= n < s.len() {
            first_filled_line(s.skip(n + 1))
        } else {
            None
        }
    }
}

/// The first line ends at the first line feed, or where the text ends.
pub proof fn lemma_line_end(s: Seq<char>, end: int)
    requires
        0 <= end <= s.len(),
        forall|k: int| 0 <= k < end ==> s[k] != '\n',
        end == s.len() || s[end] == '\n',
    ensures
        line_end(s) == end,
    decreases s.len(),
{
    if end > 0 {
        let rest = s.skip(1);
        assert(s[0] != '\n');
        assert forall|k: int| 0 <= k < end - 1 implies rest[k] != '\n' by {
            assert(rest[k] == s[k + 1]);
        }
        if end < s.len() {
            assert(rest[end - 1] == s[end]);
        }
        lemma_line_end(rest, end - 1);
    }
}

/// Whether a lower-cased value of `SHELL` names a WSL shell.
pub fn lowered_shell_is_wsl(lower: &str) -> (wsl: bool)
    ensures
        wsl == shell_is_wsl(lower@),
{
    let chars: Vec<char> = chars_of(lower);
    has_substring(&chars, &chars_of("wsl")) || has_substring(&chars, &chars_of("bash.exe"))
}

/// Whether a lower-cased path of `bash` is that of a WSL shell.
pub fn lowered_bash_path_is_wsl(lower: &str) -> (wsl: bool)
    ensures
        wsl == bash_path_is_wsl(lower@),
{
    let chars: Vec<char> = chars_of(lower);
    has_substring(&chars, &chars_of("wsl")) || has_substring(
        &chars,
        &chars_of("\\windows\\system32\\bash.exe"),
    )
}

/// Whether the value of `SHELL` names a WSL shell, in any letter case.
pub fn shell_var_is_wsl(shell: &str) -> (wsl: bool)
    ensures
        wsl == shell_is_wsl(lowercase(shell@)),
{
    let lower: String = to_lowercase(shell);
    lowered_shell_is_wsl(lower.as_str())
}

/// The bounds of the first line of `chars` that holds more than whitespace,
/// trimmed.
pub fn first_filled_range(chars: &Vec<char>) -> (r: Option<(usize, usize)>)
    ensures
        match r {
            Some((start, end)) => start < end <= chars.len() && first_filled_line(chars@) == Some(
                chars@.subrange(start as int, end as int),
            ),
            None => first_filled_line(chars@) is None,
        },
{
    let mut start: usize = 0;
    assert(chars@.skip(0) =~= chars@);
    loop
        invariant
            start <= chars.len(),
            first_filled_line(chars@) == first_filled_line(chars@.skip(start as int)),
        decreases chars.len() - start,
    {
        if start == chars.len() {
            return None;
        }
        let mut end: usize = start;
        while end < chars.len() && chars[end] != '\n'
            invariant
                start <= end <= chars.len(),
                forall|k: int| start <= k < end ==> chars@[k] != '\n',
            decreases chars.len() - end,
        {
            end = end + 1;
        }
        proof {
            let s = chars@.skip(start as int);
            assert forall|k: int| 0 <= k < end - start implies s[k] != '\n' by {
                assert(s[k] == chars@[start + k]);
            }
            lemma_line_end(s, end - start);
            assert(s.take(end - start) =~= chars@.subrange(start as int, end as int));
            if end < chars.len() {
                assert(s.skip(end - start + 1) =~= chars@.skip(end as int + 1));
            }
        }
        let (from, to) = trim_range(chars, start, end);
        if from < to {
            return Some((from, to));
        }
        if end == chars.len() {
            return None;
        }
        start = end + 1;
    }
}

/// Whether the answer of `where bash` names a WSL shell: its first line that
/// holds more than whitespace decides, in any letter case.
pub fn where_answer_is_wsl(answer: &str) -> (wsl: bool)
    ensures
        wsl == (match first_filled_line(answer@) {
            Some(line) => bash_path_is_wsl(lowercase(line)),
            None => false,
        }),
{
    let chars: Vec<char> = chars_of(answer);
    match first_filled_range(&chars) {
        Some((start, end)) => {
            let line: &str = answer.substring_char(start, end);
            let lower: String = to_lowercase(line);
            lowered_bash_path_is_wsl(lower.as_str())
        },
        None => false,
    }
}

/// Whether the shell on Windows is a WSL shell: the value of `SHELL` says so,
/// or the first path that `where bash` printed does.
pub open spec fn wsl_shell(shell_var: Option<String>, where_output: Option<Vec<u8>>) -> bool {
    ||| (shell_var matches Some(shell) && shell_is_wsl(lowercase(shell@)))
    ||| (where_output matches Some(bytes) && (match first_filled_line(utf8_lossy(bytes@)) {
        Some(line) => bash_path_is_wsl(lowercase(line)),
        None => false,
    }))
}

/// Whether the shell on Windows is a WSL shell, from the value of `SHELL`,
/// where it is set, and the standard output of `where bash`, where that
/// could be run.
pub fn check_is_windows_wsl_shell(shell_var: Option<String>, where_output: Option<Vec<u8>>) -> (wsl:
    bool)
    ensures
        wsl == wsl_shell(shell_var, where_output),
{
    match &shell_var {
        Some(shell) => {
            if shell_var_is_wsl(shell.as_str()) {
                return true;
            }
        },
        None => {},
    }
    match &where_output {
        Some(bytes) => {
            let answer: String = decode_lossy(bytes.as_slice());
            where_answer_is_wsl(answer.as_str())
        },
        None => false,
    }
}

/// What to ask of a window.
#[derive(Clone, Copy, Debug, PartialEq, Eq, Structural)]
pub enum WindowCommand {
    Maximize,
    Unmaximize,
}

/// The step that toggles a window between maximized and restored: what to
/// ask of the window, and whether it is maximized afterwards.
pub fn toggle_maximize_window(is_maximized: bool) -> (step: (WindowCommand, bool))
    ensures
        step == (if is_maximized {
            (WindowCommand::Unmaximize, false)
        } else {
            (WindowCommand::Maximize, true)
        }),
{
    if is_maximized {
        (WindowCommand::Unmaximize, false)
    } else {
        (WindowCommand::Maximize, true)
    }
}

/// The state of a window.
#[derive(Clone, Copy, Debug, PartialEq, Eq, Structural)]
pub struct WindowState {
    pub is_maximized: bool,
    pub is_minimized: bool,
    pub is_visible: bool,
    pub is_focused: bool,
}

/// The state of a window, from what the window says of itself.
pub fn get_window_state(
    is_maximized: bool,
    is_minimized: bool,
    is_visible: bool,
    is_focused: bool,
) -> (state: WindowState)
    ensures
        state == (WindowState { is_maximized, is_minimized, is_visible, is_focused }),
{
    WindowState { is_maximized, is_minimized, is_visible, is_focused }
}

} // verus!
