use mup_supervisor::commands::{
    check_is_rosetta, check_is_windows_wsl_shell, first_filled_range, get_system_info,
    get_window_state, is_translated, lowered_bash_path_is_wsl, lowered_shell_is_wsl,
    needs_rosetta_check, needs_wsl_check, shell_var_is_wsl, toggle_maximize_window,
    where_answer_is_wsl, SystemInfo, WindowCommand, WindowState,
};

fn first_line(text: &str) -> Option<String> {
    let chars: Vec<char> = text.chars().collect();
    first_filled_range(&chars).map(|(start, end)| chars[start..end].iter().collect())
}

#[test]
fn system_info_by_platform() {
    assert_eq!(
        get_system_info("macos".to_string(), "aarch64".to_string(), true, true),
        SystemInfo {
            platform: "macos".to_string(),
            arch: "aarch64".to_string(),
            is_rosetta: true,
            is_windows_wsl_shell: false,
        }
    );
    assert_eq!(
        get_system_info("windows".to_string(), "x86_64".to_string(), true, true),
        SystemInfo {
            platform: "windows".to_string(),
            arch: "x86_64".to_string(),
            is_rosetta: false,
            is_windows_wsl_shell: true,
        }
    );
    let linux = get_system_info("linux".to_string(), "x86_64".to_string(), true, true);
    assert!(!linux.is_rosetta);
    assert!(!linux.is_windows_wsl_shell);
    let mac = get_system_info("macos".to_string(), "x86_64".to_string(), false, false);
    assert!(!mac.is_rosetta);
}

#[test]
fn checks_are_needed_on_their_platform_only() {
    assert!(needs_rosetta_check("macos"));
    assert!(!needs_rosetta_check("MacOS"));
    assert!(!needs_rosetta_check("linux"));
    assert!(!needs_rosetta_check("windows"));
    assert!(needs_wsl_check("windows"));
    assert!(!needs_wsl_check("macos"));
    assert!(!needs_wsl_check(""));
}

#[test]
fn rosetta_from_the_sysctl_answer() {
    assert!(check_is_rosetta(Some(b"1\n".to_vec())));
    assert!(check_is_rosetta(Some(b" 1 ".to_vec())));
    assert!(check_is_rosetta(Some(b"1".to_vec())));
    assert!(!check_is_rosetta(Some(b"0\n".to_vec())));
    assert!(!check_is_rosetta(Some(b"11\n".to_vec())));
    assert!(!check_is_rosetta(Some(b"".to_vec())));
    assert!(!check_is_rosetta(Some(vec![b'1', 0xff])));
    assert!(!check_is_rosetta(None));
    assert!(is_translated("\t1\r\n"));
    assert!(!is_translated("1 1"));
    assert!(!is_translated("one"));
}

#[test]
fn wsl_from_the_shell_variable() {
    assert!(shell_var_is_wsl("C:\\Windows\\System32\\wsl.exe"));
    assert!(shell_var_is_wsl("C:\\Program Files\\Git\\bin\\BASH.EXE"));
    assert!(shell_var_is_wsl("/usr/bin/WSL"));
    assert!(!shell_var_is_wsl("/bin/bash"));
    assert!(!shell_var_is_wsl("cmd.exe"));
    assert!(!shell_var_is_wsl(""));
    assert!(lowered_shell_is_wsl("bash.exe"));
    assert!(!lowered_shell_is_wsl("BASH.EXE"));
    assert!(lowered_bash_path_is_wsl("c:\\windows\\system32\\bash.exe"));
    assert!(!lowered_bash_path_is_wsl("c:\\program files\\git\\bin\\bash.exe"));
    assert!(lowered_bash_path_is_wsl("c:\\wsl\\bash"));
}

#[test]
fn wsl_from_the_first_path_of_bash() {
    assert!(where_answer_is_wsl("C:\\Windows\\System32\\bash.exe\r\nC:\\Git\\bin\\bash.exe\r\n"));
    assert!(!where_answer_is_wsl("C:\\Git\\bin\\bash.exe\r\nC:\\Windows\\System32\\bash.exe\r\n"));
    assert!(where_answer_is_wsl("\r\n  \r\n  C:\\WSL\\bash.exe  \r\n"));
    assert!(!where_answer_is_wsl(""));
    assert!(!where_answer_is_wsl("\n\n \n"));
    assert!(check_is_windows_wsl_shell(Some("wsl".to_string()), None));
    assert!(check_is_windows_wsl_shell(
        Some("cmd.exe".to_string()),
        Some(b"C:\\Windows\\System32\\bash.exe\r\n".to_vec())
    ));
    assert!(check_is_windows_wsl_shell(None, Some(b"C:\\Windows\\System32\\bash.exe".to_vec())));
    assert!(!check_is_windows_wsl_shell(
        Some("cmd.exe".to_string()),
        Some(b"C:\\Git\\bin\\bash.exe\r\n".to_vec())
    ));
    assert!(!check_is_windows_wsl_shell(None, None));
    assert!(!check_is_windows_wsl_shell(Some("cmd.exe".to_string()), None));
}

#[test]
fn first_filled_line_agrees_with_std() {
    let samples = [
        "",
        "a",
        "a\nb",
        "\n\na\n",
        "  \r\n\t\r\n  path one \r\nsecond\r\n",
        "\r\r\n x",
        " \n \n ",
        "only\r",
        "\u{a0}\n\u{3000}z\u{2003}\nq",
        "a\n",
        "\n",
    ];
    for text in samples {
        let expected = text.lines().map(|l| l.trim()).find(|l| !l.is_empty()).map(|l| l.to_string());
        assert_eq!(first_line(text), expected, "{:?}", text);
    }
}

#[test]
fn maximize_toggles() {
    assert_eq!(toggle_maximize_window(true), (WindowCommand::Unmaximize, false));
    assert_eq!(toggle_maximize_window(false), (WindowCommand::Maximize, true));
}

#[test]
fn window_state_holds_what_the_window_said() {
    assert_eq!(
        get_window_state(true, false, true, false),
        WindowState { is_maximized: true, is_minimized: false, is_visible: true, is_focused: false }
    );
    assert_eq!(
        get_window_state(false, true, false, true),
        WindowState { is_maximized: false, is_minimized: true, is_visible: false, is_focused: true }
    );
}
