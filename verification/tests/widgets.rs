use rshell::tasks::CancellableAsyncTasks;
use rshell::types::{NiriWindow, NiriWorkspace};
use rshell::ui::{ActiveWindow, IconRefresh, IconSource, Workspace, Workspaces};

#[test]
fn new_indicator_is_inactive() {
    let w = Workspace::new(3);
    assert_eq!(w.id, 3);
    assert!(!w.active);
    assert_eq!(w.css_classes(), vec!["workspace".to_string()]);
}

#[test]
fn indicator_follows_focused_index() {
    let mut w = Workspace::new(2);
    w.update(&Some(NiriWorkspace { id: 77, idx: 2 }));
    assert!(w.active);
    assert_eq!(w.css_classes(), vec!["workspace".to_string(), "active".to_string()]);
    w.update(&Some(NiriWorkspace { id: 2, idx: 4 }));
    assert!(!w.active);
    w.update(&Some(NiriWorkspace { id: 1, idx: 2 }));
    w.update(&None);
    assert!(!w.active);
    assert_eq!(w.id, 2);
}

#[test]
fn row_has_five_indicators_in_order() {
    let row = Workspaces::new();
    let ids: Vec<u8> = row.items.iter().map(|w| w.id).collect();
    assert_eq!(ids, vec![1, 2, 3, 4, 5]);
    assert!(row.items.iter().all(|w| !w.active));
}

#[test]
fn at_most_one_indicator_active() {
    let mut row = Workspaces::new();
    row.update_all(&Some(NiriWorkspace { id: 9, idx: 4 }));
    let active: Vec<u8> = row.items.iter().filter(|w| w.active).map(|w| w.id).collect();
    assert_eq!(active, vec![4]);
    row.update_all(&Some(NiriWorkspace { id: 9, idx: 8 }));
    assert!(row.items.iter().all(|w| !w.active));
}

fn window(title: Option<&str>, app_id: Option<&str>) -> NiriWindow {
    NiriWindow {
        id: 1,
        title: title.map(str::to_string),
        app_id: app_id.map(str::to_string),
        is_focused: true,
    }
}

#[test]
fn active_window_starts_with_default_label() {
    let w = ActiveWindow::new();
    assert_eq!(w.label, "NixOS");
    assert_eq!(w.previous_focused_id, None);
}

#[test]
fn new_application_refreshes_icon() {
    let mut w = ActiveWindow::new();
    let r = w.on_focused_window(&Some(window(Some("vim"), Some("foot"))));
    assert_eq!(r, IconRefresh::LookUp(Some("foot".to_string())));
    assert_eq!(w.label, "vim");
    assert_eq!(w.previous_focused_id, Some("foot".to_string()));
    let r = w.on_focused_window(&Some(window(Some("htop"), Some("foot"))));
    assert_eq!(r, IconRefresh::Keep);
    assert_eq!(w.label, "htop");
}

#[test]
fn untitled_window_shows_default_label() {
    let mut w = ActiveWindow::new();
    w.on_focused_window(&Some(window(Some("x"), Some("a"))));
    let r = w.on_focused_window(&Some(window(None, None)));
    assert_eq!(r, IconRefresh::LookUp(None));
    assert_eq!(w.label, "NixOS");
    assert_eq!(w.previous_focused_id, None);
}

#[test]
fn window_without_app_id_first_keeps_icon() {
    let mut w = ActiveWindow::new();
    let r = w.on_focused_window(&Some(window(Some("t"), None)));
    assert_eq!(r, IconRefresh::Keep);
    assert_eq!(w.label, "t");
}

#[test]
fn no_focused_window_changes_nothing() {
    let mut w = ActiveWindow::new();
    w.on_focused_window(&Some(window(Some("x"), Some("a"))));
    let r = w.on_focused_window(&None);
    assert_eq!(r, IconRefresh::Keep);
    assert_eq!(w.label, "x");
    assert_eq!(w.previous_focused_id, Some("a".to_string()));
}

#[test]
fn icon_name_defaults_to_empty() {
    assert_eq!(ActiveWindow::icon_name(&Some("firefox".to_string())), "firefox");
    assert_eq!(ActiveWindow::icon_name(&None), "");
}

#[test]
fn themed_icon_only_when_theme_has_it() {
    assert_eq!(
        ActiveWindow::themed_icon("foot".to_string(), true),
        Some(IconSource::Themed("foot".to_string()))
    );
    assert_eq!(ActiveWindow::themed_icon("foot".to_string(), false), None);
}

#[test]
fn icon_from_app_by_file_existence() {
    assert_eq!(
        ActiveWindow::icon_from_app("/a.png".to_string(), Ok(true)),
        Some(IconSource::File("/a.png".to_string()))
    );
    assert_eq!(
        ActiveWindow::icon_from_app("foot".to_string(), Ok(false)),
        Some(IconSource::Themed("foot".to_string()))
    );
    assert_eq!(ActiveWindow::icon_from_app("x".to_string(), Err("denied".to_string())), None);
}

#[test]
fn cancel_all_hands_back_every_task_in_order() {
    let mut tasks = CancellableAsyncTasks::new();
    assert_eq!(tasks.len(), 0);
    tasks.spawn_task("a");
    tasks.spawn_task("b");
    tasks.spawn_task("c");
    assert_eq!(tasks.len(), 3);
    assert_eq!(tasks.cancel_all(), vec!["a", "b", "c"]);
    assert_eq!(tasks.len(), 0);
    assert!(tasks.cancel_all().is_empty());
    tasks.spawn_task("d");
    assert_eq!(tasks.cancel_all(), vec!["d"]);
}
