use transparency_manager::config::Config;
use transparency_manager::config::WindowConfig;
use transparency_manager::enumerate::WindowInfo;
use transparency_manager::events::HostEvent;
use transparency_manager::events::map_host_event;
use transparency_manager::events::tray_wakeup;
use transparency_manager::reducer::Action;
use transparency_manager::reducer::AppState;
use transparency_manager::reducer::Message;
use transparency_manager::reducer::initial_state;
use transparency_manager::reducer::replace_windows;
use transparency_manager::reducer::update;

fn window(hwnd: u64, title: &str, exe: &str, transparency: Option<u8>) -> WindowInfo {
    WindowInfo {
        hwnd,
        title: title.to_string(),
        exe_name: exe.to_string(),
        transparency,
        class_name: String::new(),
        width: 800,
        height: 600,
        is_cloaked: false,
    }
}

fn rule(title: Option<&str>, executable: Option<&str>, opacity: u8) -> WindowConfig {
    WindowConfig {
        title: title.map(|s| s.to_string()),
        executable: executable.map(|s| s.to_string()),
        opacity,
    }
}

fn state_with_windows() -> AppState {
    let config = Config {
        default_opacity: None,
        specific_windows: vec![rule(Some("Mail"), Some("mail.exe"), 25)],
    };
    let mut state = initial_state(config);
    let windows = vec![
        window(11, "Untitled - Notepad", "notepad.exe", Some(42)),
        window(22, "Mail", "mail.exe", None),
    ];
    replace_windows(&mut state, windows);
    state
}

#[test]
fn initial_state_mirrors_the_store() {
    let config = Config { default_opacity: Some(70), specific_windows: Vec::new() };
    let state = initial_state(config);
    assert_eq!(state.default_opacity, Some(70));
    assert!(state.use_default_opacity);
    assert!(state.windows.is_empty());
    assert_eq!(state.selected_window, None);
    assert_eq!(state.current_transparency, 0);
    assert!(!state.persist_setting);
    assert!(state.window_visible);
}

#[test]
fn refresh_clears_the_list_and_asks_for_an_enumeration() {
    let mut state = state_with_windows();
    let acts = update(&mut state, Message::SelectWindow(0));
    assert!(acts.is_empty());
    let acts = update(&mut state, Message::RefreshWindows);
    assert_eq!(acts, vec![Action::Enumerate]);
    assert!(state.windows.is_empty());
    assert_eq!(state.selected_window, None);
}

#[test]
fn select_window_reads_transparency_and_persistence() {
    let mut state = state_with_windows();
    let acts = update(&mut state, Message::SelectWindow(0));
    assert!(acts.is_empty());
    assert_eq!(state.selected_window, Some(0));
    assert_eq!(state.current_transparency, 42);
    assert!(!state.persist_setting);

    let acts = update(&mut state, Message::SelectWindow(1));
    assert!(acts.is_empty());
    // no readable alpha reports as fully opaque
    assert_eq!(state.current_transparency, 100);
    // this window carries a durable rule
    assert!(state.persist_setting);
}

#[test]
fn update_transparency_without_persistence_only_applies() {
    let mut state = state_with_windows();
    update(&mut state, Message::SelectWindow(0));
    let acts = update(&mut state, Message::UpdateTransparency(60));
    assert_eq!(acts, vec![Action::ApplyTransparency(11, 60)]);
    assert_eq!(state.current_transparency, 60);
    assert_eq!(state.config.specific_windows.len(), 1);
}

#[test]
fn update_transparency_with_persistence_upserts_and_saves() {
    let mut state = state_with_windows();
    update(&mut state, Message::SelectWindow(1));
    assert!(state.persist_setting);
    let acts = update(&mut state, Message::UpdateTransparency(33));
    assert_eq!(acts, vec![Action::ApplyTransparency(22, 33), Action::SaveConfig]);
    assert_eq!(state.config.specific_windows.len(), 1);
    let r = &state.config.specific_windows[0];
    assert_eq!(r.title.as_deref(), Some("Mail"));
    assert_eq!(r.executable.as_deref(), Some("mail.exe"));
    assert_eq!(r.opacity, 33);
}

#[test]
fn update_transparency_with_no_selection_changes_only_the_slider() {
    let mut state = state_with_windows();
    let acts = update(&mut state, Message::UpdateTransparency(12));
    assert!(acts.is_empty());
    assert_eq!(state.current_transparency, 12);
}

#[test]
fn toggle_persist_on_inserts_exactly_one_rule_at_current_opacity() {
    let mut state = state_with_windows();
    update(&mut state, Message::SelectWindow(0));
    update(&mut state, Message::UpdateTransparency(42));
    let acts = update(&mut state, Message::TogglePersist(true));
    assert_eq!(acts, vec![Action::SaveConfig]);
    assert!(state.persist_setting);
    let keyed: Vec<&WindowConfig> = state
        .config
        .specific_windows
        .iter()
        .filter(|r| {
            r.title.as_deref() == Some("Untitled - Notepad")
                || r.executable.as_deref() == Some("notepad.exe")
        })
        .collect();
    assert_eq!(keyed.len(), 1);
    assert_eq!(keyed[0].opacity, 42);
}

#[test]
fn toggle_persist_replaces_a_prior_rule_for_the_same_window() {
    let mut state = state_with_windows();
    update(&mut state, Message::SelectWindow(1));
    update(&mut state, Message::UpdateTransparency(42));
    let acts = update(&mut state, Message::TogglePersist(true));
    assert_eq!(acts, vec![Action::SaveConfig]);
    // the old rule for Mail/mail.exe is gone; exactly one remains
    assert_eq!(state.config.specific_windows.len(), 1);
    assert_eq!(state.config.specific_windows[0].opacity, 42);
}

#[test]
fn toggle_persist_off_removes_the_rule_and_saves() {
    let mut state = state_with_windows();
    update(&mut state, Message::SelectWindow(1));
    let acts = update(&mut state, Message::TogglePersist(false));
    assert_eq!(acts, vec![Action::SaveConfig]);
    assert!(state.config.specific_windows.is_empty());
    assert!(!state.persist_setting);
}

#[test]
fn toggle_persist_with_no_selection_only_flips_the_checkbox() {
    let mut state = state_with_windows();
    let acts = update(&mut state, Message::TogglePersist(true));
    assert!(acts.is_empty());
    assert!(state.persist_setting);
    assert_eq!(state.config.specific_windows.len(), 1);
}

#[test]
fn update_default_opacity_applies_to_uncovered_windows_then_saves() {
    let mut state = state_with_windows();
    let acts = update(&mut state, Message::UpdateDefaultOpacity(70));
    // window 22 carries an explicit rule, window 11 does not
    assert_eq!(acts, vec![Action::ApplyTransparency(11, 70), Action::SaveConfig]);
    assert_eq!(state.default_opacity, Some(70));
    assert_eq!(state.config.default_opacity, Some(70));
}

#[test]
fn toggle_default_opacity_on_starts_at_full_opacity() {
    let mut state = state_with_windows();
    let acts = update(&mut state, Message::ToggleDefaultOpacity(true));
    assert_eq!(acts, vec![Action::SaveConfig]);
    assert!(state.use_default_opacity);
    assert_eq!(state.default_opacity, Some(100));
    assert_eq!(state.config.default_opacity, Some(100));

    let acts = update(&mut state, Message::ToggleDefaultOpacity(false));
    assert_eq!(acts, vec![Action::SaveConfig]);
    assert!(!state.use_default_opacity);
    assert_eq!(state.default_opacity, None);
    assert_eq!(state.config.default_opacity, None);
}

#[test]
fn visibility_transitions_hide_and_restore_the_host() {
    let mut state = state_with_windows();
    let acts = update(&mut state, Message::MinimizeToTray);
    assert_eq!(acts, vec![Action::HideHost, Action::MinimizeHost]);
    assert!(!state.window_visible);

    let acts = update(&mut state, Message::ShowWindow);
    assert_eq!(acts, vec![Action::RestoreHost, Action::UnminimizeHost, Action::FocusHost]);
    assert!(state.window_visible);
}

#[test]
fn close_request_terminates_from_either_visibility_state() {
    let mut state = state_with_windows();
    let acts = update(&mut state, Message::CloseRequested);
    assert_eq!(acts, vec![Action::Exit]);
    update(&mut state, Message::MinimizeToTray);
    let acts = update(&mut state, Message::CloseRequested);
    assert_eq!(acts, vec![Action::Exit]);
}

#[test]
fn ignore_changes_nothing() {
    let mut state = state_with_windows();
    let before_len = state.windows.len();
    let acts = update(&mut state, Message::Ignore);
    assert!(acts.is_empty());
    assert_eq!(state.windows.len(), before_len);
}

#[test]
fn host_events_map_into_the_message_stream() {
    assert_eq!(map_host_event(HostEvent::CloseRequested), Message::CloseRequested);
    assert_eq!(map_host_event(HostEvent::Resized(0, 0)), Message::MinimizeToTray);
    assert_eq!(map_host_event(HostEvent::Resized(700, 900)), Message::Ignore);
    assert_eq!(map_host_event(HostEvent::Resized(0, 1)), Message::Ignore);
    assert_eq!(map_host_event(HostEvent::Other), Message::Ignore);
}

#[test]
fn tray_wakeup_passes_commands_and_absorbs_closure() {
    assert_eq!(tray_wakeup(Some(Message::ShowWindow)), Message::ShowWindow);
    assert_eq!(tray_wakeup(Some(Message::CloseRequested)), Message::CloseRequested);
    assert_eq!(tray_wakeup(None), Message::Ignore);
}

#[test]
fn replacing_the_list_invalidates_the_selection() {
    let mut state = state_with_windows();
    update(&mut state, Message::SelectWindow(1));
    assert_eq!(state.selected_window, Some(1));
    replace_windows(&mut state, vec![window(33, "One", "one.exe", None)]);
    assert_eq!(state.selected_window, None);
    assert_eq!(state.windows.len(), 1);
}
