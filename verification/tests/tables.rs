use rshell::types::{NiriWindow, NiriWindows, NiriWorkspace, NiriWorkspaces};

fn window(id: u64, title: &str, app_id: &str, is_focused: bool) -> NiriWindow {
    NiriWindow {
        id,
        title: Some(title.to_string()),
        app_id: Some(app_id.to_string()),
        is_focused,
    }
}

#[test]
fn windows_table_holds_each_id() {
    let list = vec![window(1, "a", "x", false), window(7, "b", "y", true)];
    let table = NiriWindows::from_list(&list);
    assert_eq!(table.0.len(), 2);
    assert_eq!(table.0.get(&1), Some(&list[0]));
    assert_eq!(table.0.get(&7), Some(&list[1]));
    assert_eq!(table.0.get(&2), None);
}

#[test]
fn later_window_with_same_id_wins() {
    let list = vec![
        window(3, "first", "x", false),
        window(4, "other", "y", false),
        window(3, "second", "z", true),
    ];
    let table = NiriWindows::from_list(&list);
    assert_eq!(table.0.len(), 2);
    assert_eq!(table.0.get(&3).unwrap().title.as_deref(), Some("second"));
}

#[test]
fn empty_lists_give_empty_tables() {
    assert!(NiriWindows::from_list(&vec![]).0.is_empty());
    assert!(NiriWorkspaces::from_list(&vec![]).0.is_empty());
    assert!(NiriWindows::new().0.is_empty());
    assert!(NiriWorkspaces::new().0.is_empty());
}

#[test]
fn workspaces_table_last_wins() {
    let list = vec![
        NiriWorkspace { id: 10, idx: 1 },
        NiriWorkspace { id: 11, idx: 2 },
        NiriWorkspace { id: 10, idx: 5 },
    ];
    let table = NiriWorkspaces::from_list(&list);
    assert_eq!(table.0.len(), 2);
    assert_eq!(table.0.get(&10), Some(&NiriWorkspace { id: 10, idx: 5 }));
    assert_eq!(table.0.get(&11), Some(&NiriWorkspace { id: 11, idx: 2 }));
}
