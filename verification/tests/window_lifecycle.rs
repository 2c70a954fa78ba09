use gemini_shell::window::{Shell, Visibility, WindowEventKind, SETUP_DELAY_MS};

#[test]
fn new_shell_starts_hidden_and_running() {
    let s = Shell::new();
    assert_eq!(s.visibility, Visibility::Hidden);
    assert!(s.running);
}

#[test]
fn setup_with_main_window_shows_after_fixed_delay() {
    let mut s = Shell::new();
    let plan = s.on_setup(true);
    assert_eq!(plan, Some(SETUP_DELAY_MS));
    assert_eq!(plan, Some(50));
    assert_eq!(s.visibility, Visibility::Visible);
    assert!(s.running);
}

#[test]
fn setup_without_main_window_is_a_silent_no_op() {
    let mut s = Shell::new();
    let plan = s.on_setup(false);
    assert_eq!(plan, None);
    assert_eq!(s.visibility, Visibility::Hidden);
    assert!(s.running);
}

#[test]
fn close_request_hides_window_and_suppresses_default_close() {
    let mut s = Shell::new();
    s.on_setup(true);
    let suppress = s.on_window_event(&WindowEventKind::CloseRequested);
    assert!(suppress);
    assert_eq!(s.visibility, Visibility::Hidden);
    assert!(s.running);
}

#[test]
fn repeated_close_requests_stay_hidden_without_error() {
    let mut s = Shell::new();
    s.on_setup(true);
    for _ in 0..3 {
        let suppress = s.on_window_event(&WindowEventKind::CloseRequested);
        assert!(suppress);
        assert_eq!(s.visibility, Visibility::Hidden);
        assert!(s.running);
    }
}

#[test]
fn other_events_change_nothing() {
    let others = [
        WindowEventKind::Resized,
        WindowEventKind::Moved,
        WindowEventKind::Destroyed,
        WindowEventKind::Focused,
        WindowEventKind::ScaleFactorChanged,
        WindowEventKind::DragDrop,
        WindowEventKind::ThemeChanged,
    ];
    let mut s = Shell::new();
    s.on_setup(true);
    for event in others.iter() {
        let suppress = s.on_window_event(event);
        assert!(!suppress);
        assert_eq!(s.visibility, Visibility::Visible);
        assert!(s.running);
    }
}

#[test]
fn scenario_launch_with_main_window() {
    // Launch: the main window is present, so it is shown after the fixed
    // delay, and the menu carries the product name on its About item.
    let mut s = Shell::new();
    assert_eq!(s.visibility, Visibility::Hidden);
    let plan = s.on_setup(true);
    assert_eq!(plan, Some(50));
    assert_eq!(s.visibility, Visibility::Visible);
    let m = gemini_shell::menu::menu_blueprint();
    assert_eq!(m.about_name, "Google Gemini");
}

#[test]
fn scenario_launch_without_main_window() {
    // Launch with the main window absent: no crash, no visibility change.
    let mut s = Shell::new();
    let plan = s.on_setup(false);
    assert_eq!(plan, None);
    assert_eq!(s.visibility, Visibility::Hidden);
    assert!(s.running);
}

#[test]
fn scenario_close_box_then_later_reshow() {
    // The user clicks the close box: the window becomes hidden, the
    // process keeps running, and a later focus request can re-show the
    // same hidden window.
    let mut s = Shell::new();
    s.on_setup(true);
    let suppress = s.on_window_event(&WindowEventKind::CloseRequested);
    assert!(suppress);
    assert_eq!(s.visibility, Visibility::Hidden);
    assert!(s.running);
    s.show_window();
    assert_eq!(s.visibility, Visibility::Visible);
    assert!(s.running);
}

#[test]
fn explicit_hide_call_removes_window_from_view() {
    let mut s = Shell::new();
    s.on_setup(true);
    s.hide_window();
    assert_eq!(s.visibility, Visibility::Hidden);
    assert!(s.running);
}
