use transparency_manager::config::Config;
use transparency_manager::config::WindowConfig;
use transparency_manager::matcher::determine_opacity;

fn rule(title: Option<&str>, executable: Option<&str>, opacity: u8) -> WindowConfig {
    WindowConfig {
        title: title.map(|s| s.to_string()),
        executable: executable.map(|s| s.to_string()),
        opacity,
    }
}

#[test]
fn matching_precedence_first_match_wins() {
    let config = Config {
        default_opacity: None,
        specific_windows: vec![
            rule(Some("Notepad"), None, 50),
            rule(None, Some("notepad.exe"), 80),
        ],
    };
    assert_eq!(
        determine_opacity("Untitled - Notepad", "notepad.exe", &config),
        Some(50)
    );
}

#[test]
fn default_fallback_covers_every_window() {
    let config = Config { default_opacity: Some(70), specific_windows: Vec::new() };
    assert_eq!(determine_opacity("Anything", "anything.exe", &config), Some(70));
    assert_eq!(determine_opacity("x", "", &config), Some(70));
    assert_eq!(determine_opacity("", "", &config), Some(70));
}

#[test]
fn no_match_and_no_default_resolves_to_nothing() {
    let config = Config { default_opacity: None, specific_windows: Vec::new() };
    assert_eq!(determine_opacity("Untitled - Notepad", "notepad.exe", &config), None);
}

#[test]
fn unmatched_window_falls_back_to_default() {
    let config = Config {
        default_opacity: Some(90),
        specific_windows: vec![rule(Some("Calculator"), None, 40)],
    };
    assert_eq!(determine_opacity("Untitled - Notepad", "notepad.exe", &config), Some(90));
    assert_eq!(determine_opacity("Calculator", "calc.exe", &config), Some(40));
}

#[test]
fn substring_matching_is_intentional() {
    let config = Config {
        default_opacity: None,
        specific_windows: vec![rule(None, Some("code"), 60)],
    };
    assert_eq!(determine_opacity("a", "vscode.exe", &config), Some(60));
    assert_eq!(determine_opacity("a", "codecs.exe", &config), Some(60));
    assert_eq!(determine_opacity("a", "notepad.exe", &config), None);
}

#[test]
fn inert_rule_never_matches() {
    let config = Config {
        default_opacity: None,
        specific_windows: vec![rule(None, None, 10)],
    };
    assert_eq!(determine_opacity("Untitled", "notepad.exe", &config), None);
}

#[test]
fn executable_rule_matches_after_title_rules_miss() {
    let config = Config {
        default_opacity: Some(99),
        specific_windows: vec![
            rule(Some("Paint"), None, 30),
            rule(None, Some("notepad.exe"), 80),
        ],
    };
    assert_eq!(determine_opacity("Untitled - Notepad", "notepad.exe", &config), Some(80));
}
