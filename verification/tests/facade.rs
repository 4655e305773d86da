use win_facade::registry::{CreateWindowOptions, WindowManager};

fn options(label: &str, url: &str) -> CreateWindowOptions {
    CreateWindowOptions {
        label: label.to_string(),
        url: url.to_string(),
        title: None,
        width: None,
        height: None,
    }
}

#[test]
fn scenario_settings_lifecycle() {
    let mut m = WindowManager::new();
    let r = m.win_create_window(options("settings", "/settings"));
    assert_eq!(r.unwrap(), "created");
    let r = m.win_create_window(options("settings", "/settings"));
    assert_eq!(r.unwrap(), "existing");
    let r = m.win_close_window("settings".to_string());
    assert_eq!(r.unwrap(), "closed");
    let r = m.win_close_window("settings".to_string());
    let err = r.unwrap_err();
    assert_eq!(err, "window not found: settings");
    assert!(err.contains("settings"));
}

#[test]
fn absent_label_is_rejected_by_every_operation() {
    let mut m = WindowManager::new();
    let r = m.win_create_window(options("present", "/present"));
    assert_eq!(r.unwrap(), "created");
    let expected = "window not found: missing";
    assert_eq!(m.win_close_window("missing".to_string()).unwrap_err(), expected);
    assert_eq!(m.win_show_window("missing".to_string()).unwrap_err(), expected);
    assert_eq!(m.win_hide_window("missing".to_string()).unwrap_err(), expected);
    assert_eq!(m.win_minimize("missing".to_string()).unwrap_err(), expected);
    assert_eq!(m.win_maximize("missing".to_string()).unwrap_err(), expected);
    assert_eq!(m.win_unmaximize("missing".to_string()).unwrap_err(), expected);
    assert_eq!(m.win_toggle_maximize("missing".to_string()).unwrap_err(), expected);
    assert_eq!(m.win_is_maximized("missing".to_string()).unwrap_err(), expected);
    assert_eq!(
        m.win_start_dragging(Some("missing".to_string())).unwrap_err(),
        expected
    );
    // The present window is untouched by the failed requests.
    assert_eq!(m.window_count(), 1);
}

#[test]
fn create_twice_never_yields_two_windows() {
    let mut m = WindowManager::new();
    assert_eq!(m.window_count(), 0);
    let r = m.win_create_window(options("main", "/"));
    assert_eq!(r.unwrap(), "created");
    assert_eq!(m.window_count(), 1);
    let r = m.win_create_window(options("main", "/elsewhere"));
    assert_eq!(r.unwrap(), "existing");
    assert_eq!(m.window_count(), 1);
}

#[test]
fn create_with_omitted_fields_uses_defaults() {
    let mut m = WindowManager::new();
    m.win_create_window(options("plain", "/plain")).unwrap();
    let label = "plain".to_string();
    let w = m.window_state(&label).unwrap();
    assert_eq!(w.title, "Ren Flow");
    assert_eq!(w.width, 850);
    assert_eq!(w.height, 530);
    assert_eq!(w.url, "/plain");
    assert!(w.visible);
    assert!(w.focused);
    assert!(!w.minimized);
    assert!(!w.maximized);
}

#[test]
fn create_with_explicit_fields_keeps_them() {
    let mut m = WindowManager::new();
    let opts = CreateWindowOptions {
        label: "sized".to_string(),
        url: "/sized".to_string(),
        title: Some("Custom".to_string()),
        width: Some(1024),
        height: Some(768),
    };
    m.win_create_window(opts).unwrap();
    let label = "sized".to_string();
    let w = m.window_state(&label).unwrap();
    assert_eq!(w.title, "Custom");
    assert_eq!(w.width, 1024);
    assert_eq!(w.height, 768);
}

#[test]
fn second_create_reveals_the_window() {
    let mut m = WindowManager::new();
    m.win_create_window(options("w", "/w")).unwrap();
    m.win_hide_window("w".to_string()).unwrap();
    m.win_minimize("w".to_string()).unwrap();
    let label = "w".to_string();
    {
        let w = m.window_state(&label).unwrap();
        assert!(!w.visible);
        assert!(w.minimized);
    }
    let r = m.win_create_window(options("w", "/w"));
    assert_eq!(r.unwrap(), "existing");
    let w = m.window_state(&label).unwrap();
    assert!(w.visible);
    assert!(w.focused);
    assert!(!w.minimized);
}

#[test]
fn toggle_maximize_alternates() {
    let mut m = WindowManager::new();
    m.win_create_window(options("t", "/t")).unwrap();
    assert_eq!(m.win_toggle_maximize("t".to_string()).unwrap(), "maximized");
    assert_eq!(m.win_toggle_maximize("t".to_string()).unwrap(), "unmaximized");
    assert_eq!(m.win_toggle_maximize("t".to_string()).unwrap(), "maximized");
    assert_eq!(m.win_toggle_maximize("t".to_string()).unwrap(), "unmaximized");
}

#[test]
fn is_maximized_reads_without_mutating() {
    let mut m = WindowManager::new();
    m.win_create_window(options("q", "/q")).unwrap();
    m.win_maximize("q".to_string()).unwrap();
    let label = "q".to_string();
    let before = {
        let w = m.window_state(&label).unwrap();
        (
            w.title.clone(),
            w.url.clone(),
            w.width,
            w.height,
            w.visible,
            w.focused,
            w.minimized,
            w.maximized,
        )
    };
    for _ in 0..5 {
        assert_eq!(m.win_is_maximized("q".to_string()).unwrap(), true);
    }
    let w = m.window_state(&label).unwrap();
    let after = (
        w.title.clone(),
        w.url.clone(),
        w.width,
        w.height,
        w.visible,
        w.focused,
        w.minimized,
        w.maximized,
    );
    assert_eq!(before, after);
    assert_eq!(m.window_count(), 1);
}

#[test]
fn start_dragging_requires_a_label() {
    let mut m = WindowManager::new();
    assert_eq!(m.win_start_dragging(None).unwrap_err(), "label is required");
    m.win_create_window(options("d", "/d")).unwrap();
    // The message does not depend on what the registry holds.
    assert_eq!(m.win_start_dragging(None).unwrap_err(), "label is required");
    assert_eq!(m.win_start_dragging(Some("d".to_string())).unwrap(), "dragging");
    assert_eq!(
        m.win_start_dragging(Some("e".to_string())).unwrap_err(),
        "window not found: e"
    );
}

#[test]
fn show_hide_minimize_maximize_report_and_apply() {
    let mut m = WindowManager::new();
    m.win_create_window(options("s", "/s")).unwrap();
    let label = "s".to_string();

    assert_eq!(m.win_hide_window("s".to_string()).unwrap(), "hidden");
    assert!(!m.window_state(&label).unwrap().visible);

    assert_eq!(m.win_show_window("s".to_string()).unwrap(), "shown");
    let w = m.window_state(&label).unwrap();
    assert!(w.visible && w.focused);

    assert_eq!(m.win_minimize("s".to_string()).unwrap(), "minimized");
    assert!(m.window_state(&label).unwrap().minimized);

    assert_eq!(m.win_maximize("s".to_string()).unwrap(), "maximized");
    assert!(m.window_state(&label).unwrap().maximized);
    assert_eq!(m.win_is_maximized("s".to_string()).unwrap(), true);

    assert_eq!(m.win_unmaximize("s".to_string()).unwrap(), "unmaximized");
    assert!(!m.window_state(&label).unwrap().maximized);
    assert_eq!(m.win_is_maximized("s".to_string()).unwrap(), false);
}

#[test]
fn operations_touch_only_their_label() {
    let mut m = WindowManager::new();
    m.win_create_window(options("one", "/one")).unwrap();
    m.win_create_window(options("two", "/two")).unwrap();
    m.win_maximize("one".to_string()).unwrap();
    m.win_hide_window("two".to_string()).unwrap();
    let one = "one".to_string();
    let two = "two".to_string();
    assert!(m.window_state(&one).unwrap().maximized);
    assert!(m.window_state(&one).unwrap().visible);
    assert!(!m.window_state(&two).unwrap().maximized);
    assert!(!m.window_state(&two).unwrap().visible);
    m.win_close_window("one".to_string()).unwrap();
    assert!(m.window_state(&one).is_none());
    assert!(m.window_state(&two).is_some());
    assert_eq!(m.window_count(), 1);
}
