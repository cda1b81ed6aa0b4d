use rshell::state::{Niri, NiriEvent, NiriResponse, Notification};
use rshell::types::{NiriWindow, NiriWorkspace};

fn window(id: u64, title: Option<&str>, app_id: &str, is_focused: bool) -> NiriWindow {
    NiriWindow {
        id,
        title: title.map(str::to_string),
        app_id: Some(app_id.to_string()),
        is_focused,
    }
}

fn opened(w: NiriWindow) -> NiriEvent {
    NiriEvent::WindowOpenedOrChanged { window: w }
}

#[test]
fn new_model_is_empty() {
    let niri = Niri::new();
    assert!(niri.windows_hash().0.is_empty());
    assert!(niri.workspaces_hash().0.is_empty());
    assert_eq!(*niri.focused_window(), None);
    assert_eq!(*niri.focused_workspace(), None);
}

#[test]
fn unfocused_window_is_stored_silently() {
    let mut niri = Niri::new();
    let n = niri.handle_event(opened(window(5, Some("term"), "foot", false)));
    assert_eq!(n, Notification::Nothing);
    assert_eq!(niri.windows_hash().0.get(&5), Some(&window(5, Some("term"), "foot", false)));
    assert_eq!(*niri.focused_window(), None);
}

#[test]
fn focused_window_is_stored_and_announced() {
    let mut niri = Niri::new();
    let n = niri.handle_event(opened(window(5, Some("term"), "foot", true)));
    assert_eq!(n, Notification::FocusedWindow);
    assert_eq!(*niri.focused_window(), Some(window(5, Some("term"), "foot", true)));
}

#[test]
fn changed_window_replaces_stored_one() {
    let mut niri = Niri::new();
    niri.handle_event(opened(window(5, Some("old"), "foot", false)));
    niri.handle_event(opened(window(5, Some("new"), "foot", false)));
    assert_eq!(niri.windows_hash().0.len(), 1);
    assert_eq!(niri.windows_hash().0.get(&5).unwrap().title.as_deref(), Some("new"));
}

#[test]
fn focus_follows_opened_window() {
    let mut niri = Niri::new();
    niri.handle_event(opened(window(1, Some("a"), "x", false)));
    niri.handle_event(opened(window(2, Some("b"), "y", false)));
    let n = niri.handle_event(NiriEvent::WindowFocusChanged { id: Some(2) });
    assert_eq!(n, Notification::FocusedWindow);
    assert_eq!(*niri.focused_window(), Some(window(2, Some("b"), "y", false)));
}

#[test]
fn focus_to_unknown_or_no_window_changes_nothing() {
    let mut niri = Niri::new();
    niri.handle_event(opened(window(1, Some("a"), "x", true)));
    let n = niri.handle_event(NiriEvent::WindowFocusChanged { id: Some(9) });
    assert_eq!(n, Notification::Nothing);
    let n = niri.handle_event(NiriEvent::WindowFocusChanged { id: None });
    assert_eq!(n, Notification::Nothing);
    assert_eq!(*niri.focused_window(), Some(window(1, Some("a"), "x", true)));
}

#[test]
fn closed_window_is_forgotten() {
    let mut niri = Niri::new();
    niri.handle_event(opened(window(1, Some("a"), "x", false)));
    let n = niri.handle_event(NiriEvent::WindowClosed { id: 1 });
    assert_eq!(n, Notification::Nothing);
    assert!(niri.windows_hash().0.is_empty());
    let n = niri.handle_event(NiriEvent::WindowFocusChanged { id: Some(1) });
    assert_eq!(n, Notification::Nothing);
    assert_eq!(*niri.focused_window(), None);
}

#[test]
fn closing_focused_window_keeps_it_focused() {
    let mut niri = Niri::new();
    niri.handle_event(opened(window(1, Some("a"), "x", true)));
    niri.handle_event(NiriEvent::WindowClosed { id: 1 });
    assert_eq!(*niri.focused_window(), Some(window(1, Some("a"), "x", true)));
}

#[test]
fn active_window_change_moves_focus() {
    let mut niri = Niri::new();
    niri.handle_event(opened(window(3, None, "x", false)));
    let n = niri.handle_event(NiriEvent::WorkspaceActiveWindowChanged {
        workspace_id: 1,
        active_window_id: Some(3),
    });
    assert_eq!(n, Notification::FocusedWindow);
    assert_eq!(niri.focused_window().as_ref().unwrap().id, 3);
    let n = niri.handle_event(NiriEvent::WorkspaceActiveWindowChanged {
        workspace_id: 1,
        active_window_id: None,
    });
    assert_eq!(n, Notification::Nothing);
    assert_eq!(niri.focused_window().as_ref().unwrap().id, 3);
}

#[test]
fn workspaces_are_replaced_whole() {
    let mut niri = Niri::new();
    niri.handle_event(NiriEvent::WorkspacesChanged {
        workspaces: vec![NiriWorkspace { id: 1, idx: 1 }, NiriWorkspace { id: 2, idx: 2 }],
    });
    let n = niri.handle_event(NiriEvent::WorkspacesChanged {
        workspaces: vec![NiriWorkspace { id: 3, idx: 1 }],
    });
    assert_eq!(n, Notification::Workspaces);
    assert_eq!(niri.workspaces_hash().0.len(), 1);
    assert_eq!(niri.workspaces_hash().0.get(&3), Some(&NiriWorkspace { id: 3, idx: 1 }));
}

#[test]
fn activated_workspace_becomes_focused() {
    let mut niri = Niri::new();
    niri.handle_event(NiriEvent::WorkspacesChanged {
        workspaces: vec![NiriWorkspace { id: 1, idx: 1 }, NiriWorkspace { id: 2, idx: 2 }],
    });
    let n = niri.handle_event(NiriEvent::WorkspaceActivated { id: 2, focused: true });
    assert_eq!(n, Notification::FocusedWorkspace);
    assert_eq!(*niri.focused_workspace(), Some(NiriWorkspace { id: 2, idx: 2 }));
}

#[test]
fn activation_without_focus_is_ignored() {
    let mut niri = Niri::new();
    niri.handle_event(NiriEvent::WorkspacesChanged {
        workspaces: vec![NiriWorkspace { id: 1, idx: 1 }],
    });
    let n = niri.handle_event(NiriEvent::WorkspaceActivated { id: 1, focused: false });
    assert_eq!(n, Notification::Nothing);
    assert_eq!(*niri.focused_workspace(), None);
}

#[test]
fn activation_of_unknown_workspace_is_reported() {
    let mut niri = Niri::new();
    let n = niri.handle_event(NiriEvent::WorkspaceActivated { id: 42, focused: true });
    assert_eq!(n, Notification::UnknownWorkspace(42));
    assert_eq!(*niri.focused_workspace(), None);
}

#[test]
fn other_events_change_nothing() {
    let mut niri = Niri::new();
    niri.handle_event(opened(window(1, Some("a"), "x", true)));
    assert_eq!(niri.handle_event(NiriEvent::Other), Notification::Unhandled);
    assert_eq!(niri.handle_event(NiriEvent::WindowLayoutsChanged), Notification::Nothing);
    assert_eq!(niri.windows_hash().0.len(), 1);
    assert_eq!(niri.focused_window().as_ref().unwrap().id, 1);
}

#[test]
fn window_events_keep_workspaces() {
    let mut niri = Niri::new();
    niri.handle_event(NiriEvent::WorkspacesChanged {
        workspaces: vec![NiriWorkspace { id: 1, idx: 1 }],
    });
    niri.handle_event(NiriEvent::WorkspaceActivated { id: 1, focused: true });
    niri.handle_event(opened(window(1, Some("a"), "x", true)));
    niri.handle_event(NiriEvent::WindowClosed { id: 1 });
    assert_eq!(niri.workspaces_hash().0.len(), 1);
    assert_eq!(*niri.focused_workspace(), Some(NiriWorkspace { id: 1, idx: 1 }));
}

#[test]
fn windows_reply_replaces_window_table() {
    let mut niri = Niri::new();
    niri.handle_event(opened(window(9, Some("gone"), "x", false)));
    let r = niri.apply_windows_reply(Ok(NiriResponse::Windows(vec![window(1, Some("a"), "x", false)])));
    assert_eq!(r, Ok(true));
    assert_eq!(niri.windows_hash().0.len(), 1);
    assert!(niri.windows_hash().0.contains_key(&1));
}

#[test]
fn unexpected_reply_ends_setup_quietly() {
    let mut niri = Niri::new();
    assert_eq!(niri.apply_windows_reply(Ok(NiriResponse::Handled)), Ok(false));
    assert_eq!(
        niri.apply_windows_reply(Ok(NiriResponse::Workspaces(vec![NiriWorkspace { id: 1, idx: 1 }]))),
        Ok(false)
    );
    assert_eq!(niri.apply_workspaces_reply(Ok(NiriResponse::Other)), Ok(false));
    assert!(niri.windows_hash().0.is_empty());
    assert!(niri.workspaces_hash().0.is_empty());
}

#[test]
fn error_reply_fails_with_message() {
    let mut niri = Niri::new();
    let r = niri.apply_workspaces_reply(Err("no".to_string()));
    assert_eq!(r, Err("no".to_string()));
    let r = niri.apply_windows_reply(Err("bad".to_string()));
    assert_eq!(r, Err("bad".to_string()));
}

#[test]
fn workspaces_reply_agrees_with_event() {
    let list = vec![NiriWorkspace { id: 4, idx: 1 }, NiriWorkspace { id: 4, idx: 3 }];
    let mut by_reply = Niri::new();
    assert_eq!(by_reply.apply_workspaces_reply(Ok(NiriResponse::Workspaces(list.clone()))), Ok(true));
    let mut by_event = Niri::new();
    by_event.handle_event(NiriEvent::WorkspacesChanged { workspaces: list });
    assert_eq!(by_reply.workspaces_hash().0, by_event.workspaces_hash().0);
    assert_eq!(by_reply.workspaces_hash().0.get(&4), Some(&NiriWorkspace { id: 4, idx: 3 }));
}

#[test]
fn event_stream_acceptance() {
    assert!(Niri::event_stream_accepted(&Ok(NiriResponse::Handled)));
    assert!(Niri::event_stream_accepted(&Ok(NiriResponse::Other)));
    assert!(!Niri::event_stream_accepted(&Err("denied".to_string())));
}

#[test]
fn handle_events_follows_each_event_in_order() {
    let mut one_by_one = Niri::new();
    let mut batch = Niri::new();
    let events = || {
        vec![
            opened(window(1, Some("a"), "x", false)),
            opened(window(2, Some("b"), "y", true)),
            NiriEvent::WindowFocusChanged { id: Some(1) },
            NiriEvent::WindowClosed { id: 2 },
            NiriEvent::WorkspacesChanged { workspaces: vec![NiriWorkspace { id: 8, idx: 1 }] },
            NiriEvent::WorkspaceActivated { id: 8, focused: true },
            NiriEvent::Other,
        ]
    };
    let expected: Vec<Notification> = events().into_iter().map(|e| one_by_one.handle_event(e)).collect();
    let notes = batch.handle_events(events());
    assert_eq!(notes, expected);
    assert_eq!(
        notes,
        vec![
            Notification::Nothing,
            Notification::FocusedWindow,
            Notification::FocusedWindow,
            Notification::Nothing,
            Notification::Workspaces,
            Notification::FocusedWorkspace,
            Notification::Unhandled,
        ]
    );
    assert_eq!(batch.windows_hash().0, one_by_one.windows_hash().0);
    assert_eq!(*batch.focused_window(), Some(window(1, Some("a"), "x", false)));
    assert_eq!(*batch.focused_workspace(), Some(NiriWorkspace { id: 8, idx: 1 }));
    assert!(batch.handle_events(vec![]).is_empty());
}
