use win_facade::plan::{build_plan, Platform};
use win_facade::registry::CreateWindowOptions;

fn options(title: Option<&str>, width: Option<u32>, height: Option<u32>) -> CreateWindowOptions {
    CreateWindowOptions {
        label: "main".to_string(),
        url: "/home".to_string(),
        title: title.map(|t| t.to_string()),
        width,
        height,
    }
}

#[test]
fn overlay_titlebar_platform_plan() {
    let p = build_plan(Platform::MacOs, options(None, None, None));
    assert_eq!(p.label, "main");
    assert_eq!(p.url, "/home");
    assert_eq!(p.title, "Ren Flow");
    assert_eq!(p.width, 850);
    assert_eq!(p.height, 530);
    assert!(p.drag_drop_disabled);
    assert!(p.transparent);
    assert!(p.decorations);
    assert!(p.overlay_title_bar);
    assert!(p.hidden_title);
    assert_eq!(p.background_color, Some((0, 0, 0, 1)));
    assert_eq!(p.traffic_light_position, Some((20, 30)));
    assert!(p.accept_first_mouse);
    assert!(p.menu_effect);
    assert!(!p.apply_mica_after_build);
}

#[test]
fn borderless_platform_plan() {
    let p = build_plan(Platform::Linux, options(None, None, None));
    assert!(!p.decorations);
    assert!(!p.overlay_title_bar);
    assert!(!p.hidden_title);
    assert_eq!(p.background_color, None);
    assert_eq!(p.traffic_light_position, None);
    assert!(!p.accept_first_mouse);
    assert!(!p.menu_effect);
    assert!(!p.apply_mica_after_build);
    assert!(p.drag_drop_disabled);
    assert!(p.transparent);
}

#[test]
fn mica_backdrop_platform_plan() {
    let p = build_plan(Platform::Windows, options(None, None, None));
    assert!(p.decorations);
    assert!(!p.overlay_title_bar);
    assert!(p.apply_mica_after_build);
    assert_eq!(p.background_color, None);
}

#[test]
fn plan_keeps_explicit_title_and_size() {
    let p = build_plan(Platform::Windows, options(Some("Tools"), Some(400), Some(300)));
    assert_eq!(p.title, "Tools");
    assert_eq!(p.width, 400);
    assert_eq!(p.height, 300);
}

#[test]
fn message_helpers_report_fixed_texts() {
    let label = "panel".to_string();
    assert_eq!(
        win_facade::registry::not_found_message(&label),
        "window not found: panel"
    );
    assert_eq!(win_facade::registry::label_required_message(), "label is required");
}
