//! The bar's model of the compositor, and how it follows the compositor's
//! event stream and the replies to its requests.

use crate::types::{by_id, law_by_id_keyed, law_by_id_keys, Identified, NiriWindow, NiriWindows, NiriWorkspace, NiriWorkspaces};
use vstd::prelude::*;

verus! {

broadcast use vstd::std_specs::hash::group_hash_axioms;

/// An event of the compositor's event stream, reduced to what the bar reads.
/// Events that the bar does not follow arrive as `Other`.
#[derive(Debug, PartialEq, Eq)]
#[allow(inconsistent_fields)]
pub enum NiriEvent {
    /// The workspace configuration was replaced by this list.
    WorkspacesChanged { workspaces: Vec<NiriWorkspace> },
    /// A workspace became active on its output, and maybe focused.
    WorkspaceActivated { id: u64, focused: bool },
    /// The active window of a workspace changed.
    WorkspaceActiveWindowChanged { workspace_id: u64, active_window_id: Option<u64> },
    /// A window was opened, or an open window changed.
    WindowOpenedOrChanged { window: NiriWindow },
    /// A window was closed.
    WindowClosed { id: u64 },
    /// The keyboard focus moved to this window, or to none.
    WindowFocusChanged { id: Option<u64> },
    /// The layout of some windows changed.
    WindowLayoutsChanged,
    /// Any other event.
    Other,
}

/// What the owner of the model must announce after an event.
#[derive(Debug, Clone, Copy, PartialEq, Eq, Structural)]
pub enum Notification {
    /// Nothing changed that anybody watches.
    Nothing,
    /// The focused window was set.
    FocusedWindow,
    /// The workspace table was replaced.
    Workspaces,
    /// The focused workspace was set.
    FocusedWorkspace,
    /// A workspace was focused that the table does not hold.
    UnknownWorkspace(u64),
    /// The event is not one the bar follows.
    Unhandled,
}

/// A reply of the compositor to a request, reduced to what the bar reads.
#[derive(Debug, PartialEq, Eq)]
pub enum NiriResponse {
    /// The request was handled and carries no data.
    Handled,
    /// The list of all windows.
    Windows(Vec<NiriWindow>),
    /// The list of all workspaces.
    Workspaces(Vec<NiriWorkspace>),
    /// Any other reply.
    Other,
}

/// The bar's model of the compositor: every window and every workspace by
/// id, the focused window and the focused workspace.
pub struct Niri {
    windows_hash: NiriWindows,
    workspaces_hash: NiriWorkspaces,
    focused_window: Option<NiriWindow>,
    focused_workspace: Option<NiriWorkspace>,
}

/// The model as a mathematical value.
pub struct NiriState {
    pub windows: Map<u64, NiriWindow>,
    pub workspaces: Map<u64, NiriWorkspace>,
    pub focused_window: Option<NiriWindow>,
    pub focused_workspace: Option<NiriWorkspace>,
}

impl View for Niri {
    type V = NiriState;

    closed spec fn view(&self) -> NiriState {
        NiriState {
            windows: self.windows_hash.0@,
            workspaces: self.workspaces_hash.0@,
            focused_window: self.focused_window,
            focused_workspace: self.focused_workspace,
        }
    }
}

/// The state after the window with this id, if the model knows it, became
/// the focused window; otherwise the state unchanged.
pub open spec fn focus_window(s: NiriState, id: Option<u64>) -> NiriState {
    match id {
        Some(id) => if s.windows.contains_key(id) {
            NiriState { focused_window: Some(s.windows[id]), ..s }
        } else {
            s
        },
        None => s,
    }
}

/// The notification for a focus change to the window with this id.
pub open spec fn focus_window_notification(s: NiriState, id: Option<u64>) -> Notification {
    match id {
        Some(id) => if s.windows.contains_key(id) {
            Notification::FocusedWindow
        } else {
            Notification::Nothing
        },
        None => Notification::Nothing,
    }
}

/// The state after an event.
pub open spec fn next_state(s: NiriState, e: NiriEvent) -> NiriState {
    match e {
        NiriEvent::WindowClosed { id } => NiriState { windows: s.windows.remove(id), ..s },
        NiriEvent::WindowOpenedOrChanged { window } => NiriState {
            windows: s.windows.insert(window.id, window),
            focused_window: if window.is_focused {
                Some(window)
            } else {
                s.focused_window
            },
            ..s
        },
        NiriEvent::WindowFocusChanged { id } => focus_window(s, id),
        NiriEvent::WorkspaceActiveWindowChanged { workspace_id, active_window_id } => focus_window(
            s,
            active_window_id,
        ),
        NiriEvent::WorkspacesChanged { workspaces } => NiriState {
            workspaces: by_id(workspaces@),
            ..s
        },
        NiriEvent::WorkspaceActivated { id, focused } => if focused && s.workspaces.contains_key(
            id,
        ) {
            NiriState { focused_workspace: Some(s.workspaces[id]), ..s }
        } else {
            s
        },
        NiriEvent::WindowLayoutsChanged => s,
        NiriEvent::Other => s,
    }
}

/// What must be announced after an event.
pub open spec fn notification(s: NiriState, e: NiriEvent) -> Notification {
    match e {
        NiriEvent::WindowClosed { .. } => Notification::Nothing,
        NiriEvent::WindowOpenedOrChanged { window } => if window.is_focused {
            Notification::FocusedWindow
        } else {
            Notification::Nothing
        },
        NiriEvent::WindowFocusChanged { id } => focus_window_notification(s, id),
        NiriEvent::WorkspaceActiveWindowChanged { workspace_id, active_window_id } =>
            focus_window_notification(s, active_window_id),
        NiriEvent::WorkspacesChanged { .. } => Notification::Workspaces,
        NiriEvent::WorkspaceActivated { id, focused } => if !focused {
            Notification::Nothing
        } else if s.workspaces.contains_key(id) {
            Notification::FocusedWorkspace
        } else {
            Notification::UnknownWorkspace(id)
        },
        NiriEvent::WindowLayoutsChanged => Notification::Nothing,
        NiriEvent::Other => Notification::Unhandled,
    }
}

/// The state after a reply to the request for all windows: the window
/// table is replaced when the reply carries the window list.
pub open spec fn after_windows_reply(s: NiriState, reply: Result<NiriResponse, String>) -> NiriState {
    match reply {
        Ok(NiriResponse::Windows(windows)) => NiriState { windows: by_id(windows@), ..s },
        _ => s,
    }
}

/// The state after a reply to the request for all workspaces: the workspace
/// table is replaced when the reply carries the workspace list.
pub open spec fn after_workspaces_reply(s: NiriState, reply: Result<NiriResponse, String>) -> NiriState {
    match reply {
        Ok(NiriResponse::Workspaces(workspaces)) => NiriState {
            workspaces: by_id(workspaces@),
            ..s
        },
        _ => s,
    }
}

/// What the setup makes of a reply: the compositor's error message, or
/// whether the reply was the expected list (and the setup goes on).
pub open spec fn reply_outcome(reply: Result<NiriResponse, String>, expect_windows: bool) -> Result<bool, String> {
    match reply {
        Err(message) => Err(message),
        Ok(NiriResponse::Windows(_)) => Ok(expect_windows),
        Ok(NiriResponse::Workspaces(_)) => Ok(!expect_windows),
        Ok(_) => Ok(false),
    }
}

/// The state after a sequence of events, each followed in order.
pub open spec fn run_events(s: NiriState, events: Seq<NiriEvent>) -> NiriState
    decreases events.len(),
{
    if events.len() == 0 {
        s
    } else {
        next_state(run_events(s, events.drop_last()), events.last())
    }
}

/// What is announced along a sequence of events, one notification per event,
/// each from the state its event finds.
pub open spec fn run_notifications(s: NiriState, events: Seq<NiriEvent>) -> Seq<Notification>
    decreases events.len(),
{
    if events.len() == 0 {
        Seq::empty()
    } else {
        run_notifications(s, events.drop_last()).push(
            notification(run_events(s, events.drop_last()), events.last()),
        )
    }
}

/// Following two sequences of events one after the other is following the
/// joined sequence.
pub proof fn law_run_events_append(s: NiriState, first: Seq<NiriEvent>, then: Seq<NiriEvent>)
    ensures
        run_events(s, first + then) == run_events(run_events(s, first), then),
        run_notifications(s, first + then) == run_notifications(s, first) + run_notifications(
            run_events(s, first),
            then,
        ),
    decreases then.len(),
{
    if then.len() == 0 {
        assert(first + then =~= first);
        assert(run_notifications(s, first) + Seq::<Notification>::empty() =~= run_notifications(s, first));
    } else {
        law_run_events_append(s, first, then.drop_last());
        assert((first + then).drop_last() =~= first + then.drop_last());
        assert((first + then).last() == then.last());
        assert(run_notifications(s, first) + run_notifications(run_events(s, first), then) =~= (
        run_notifications(s, first) + run_notifications(run_events(s, first), then.drop_last())).push(
            notification(run_events(run_events(s, first), then.drop_last()), then.last()),
        ));
    }
}

/// Any sequence of events keeps both tables keyed by the ids of their items.
pub proof fn law_run_events_keep_tables_keyed(s: NiriState, events: Seq<NiriEvent>)
    requires
        keyed_by_id(s),
    ensures
        keyed_by_id(run_events(s, events)),
    decreases events.len(),
{
    if events.len() > 0 {
        law_run_events_keep_tables_keyed(s, events.drop_last());
        law_events_keep_tables_keyed(run_events(s, events.drop_last()), events.last());
    }
}

/// Closing a window removes exactly that id from the window table: every
/// other id keeps its window, and nothing else changes or is announced.
pub proof fn law_close_removes_only_that_window(s: NiriState, id: u64, other: u64)
    requires
        other != id,
    ensures
        ({
            let n = next_state(s, NiriEvent::WindowClosed { id });
            &&& !n.windows.contains_key(id)
            &&& n.windows.contains_key(other) == s.windows.contains_key(other)
            &&& s.windows.contains_key(other) ==> n.windows[other] == s.windows[other]
            &&& n.windows.dom() == s.windows.dom().remove(id)
            &&& n.workspaces == s.workspaces
            &&& n.focused_window == s.focused_window
            &&& n.focused_workspace == s.focused_workspace
            &&& notification(s, NiriEvent::WindowClosed { id }) == Notification::Nothing
        }),
{
}

/// A window that is opened or changed is stored under its id, replacing what
/// was stored there and keeping every other id; when it carries the focus it
/// becomes the focused window and is announced, whatever was focused before
/// (the same window with an older title too); otherwise the focused window
/// stays and nothing is announced.
pub proof fn law_opened_window_takes_focus(s: NiriState, window: NiriWindow, other: u64)
    requires
        other != window.id,
    ensures
        ({
            let e = NiriEvent::WindowOpenedOrChanged { window };
            let n = next_state(s, e);
            &&& n.windows.contains_key(window.id)
            &&& n.windows[window.id] == window
            &&& n.windows.contains_key(other) == s.windows.contains_key(other)
            &&& s.windows.contains_key(other) ==> n.windows[other] == s.windows[other]
            &&& window.is_focused ==> n.focused_window == Some(window) && notification(s, e)
                == Notification::FocusedWindow
            &&& !window.is_focused ==> n.focused_window == s.focused_window && notification(s, e)
                == Notification::Nothing
            &&& n.workspaces == s.workspaces
            &&& n.focused_workspace == s.focused_workspace
        }),
{
}

/// A focus change to a window the table holds makes that window the focused
/// one and announces it, whatever was focused before; a focus change to an
/// unknown id, or to no window, changes and announces nothing. The active
/// window of a workspace moves the focus the same way.
pub proof fn law_focus_change_moves_focus(s: NiriState, id: Option<u64>, workspace_id: u64)
    ensures
        ({
            let e = NiriEvent::WindowFocusChanged { id };
            let a = NiriEvent::WorkspaceActiveWindowChanged { workspace_id, active_window_id: id };
            &&& (id matches Some(i) && s.windows.contains_key(i)) ==> {
                &&& next_state(s, e).focused_window == Some(s.windows[id->0])
                &&& notification(s, e) == Notification::FocusedWindow
                &&& next_state(s, a).focused_window == Some(s.windows[id->0])
                &&& notification(s, a) == Notification::FocusedWindow
            }
            &&& !(id matches Some(i) && s.windows.contains_key(i)) ==> {
                &&& next_state(s, e) == s
                &&& notification(s, e) == Notification::Nothing
                &&& next_state(s, a) == s
                &&& notification(s, a) == Notification::Nothing
            }
            &&& next_state(s, e).windows == s.windows
        }),
{
}

/// A focused activation of a workspace the table holds always makes it the
/// focused workspace and announces it, whatever was focused before; a
/// focused activation of an unknown workspace reports its id and changes
/// nothing; an activation without focus changes and announces nothing.
pub proof fn law_activation_moves_focused_workspace(s: NiriState, id: u64, focused: bool)
    ensures
        ({
            let e = NiriEvent::WorkspaceActivated { id, focused };
            let n = next_state(s, e);
            &&& (focused && s.workspaces.contains_key(id)) ==> n.focused_workspace == Some(
                s.workspaces[id],
            ) && notification(s, e) == Notification::FocusedWorkspace
            &&& (focused && !s.workspaces.contains_key(id)) ==> n == s && notification(s, e)
                == Notification::UnknownWorkspace(id)
            &&& !focused ==> n == s && notification(s, e) == Notification::Nothing
            &&& n.workspaces == s.workspaces
            &&& n.windows == s.windows
            &&& n.focused_window == s.focused_window
        }),
{
}

/// Whether an event concerns windows only.
pub open spec fn is_window_event(e: NiriEvent) -> bool {
    match e {
        NiriEvent::WindowOpenedOrChanged { .. } => true,
        NiriEvent::WindowClosed { .. } => true,
        NiriEvent::WindowFocusChanged { .. } => true,
        NiriEvent::WorkspaceActiveWindowChanged { .. } => true,
        NiriEvent::WindowLayoutsChanged => true,
        _ => false,
    }
}

/// Whether an event concerns workspaces only.
pub open spec fn is_workspace_event(e: NiriEvent) -> bool {
    match e {
        NiriEvent::WorkspacesChanged { .. } => true,
        NiriEvent::WorkspaceActivated { .. } => true,
        _ => false,
    }
}

/// A window that was opened or changed is stored under its id, and a focus
/// change to that id then makes it the focused window and is announced.
pub proof fn law_focus_follows_opened_window(s: NiriState, window: NiriWindow)
    ensures
        ({
            let opened = next_state(s, NiriEvent::WindowOpenedOrChanged { window });
            let focus = NiriEvent::WindowFocusChanged { id: Some(window.id) };
            &&& opened.windows.contains_key(window.id)
            &&& opened.windows[window.id] == window
            &&& next_state(opened, focus).focused_window == Some(window)
            &&& notification(opened, focus) == Notification::FocusedWindow
        }),
{
}

/// A closed window leaves the table, and a later focus change to its id
/// changes nothing and announces nothing.
pub proof fn law_closed_window_is_forgotten(s: NiriState, id: u64, focus: NiriEvent)
    requires
        focus == (NiriEvent::WindowFocusChanged { id: Some(id) }) || focus
            == (NiriEvent::WorkspaceActiveWindowChanged {
            workspace_id: focus->workspace_id,
            active_window_id: Some(id),
        }),
    ensures
        ({
            let closed = next_state(s, NiriEvent::WindowClosed { id });
            &&& !closed.windows.contains_key(id)
            &&& next_state(closed, focus) == closed
            &&& notification(closed, focus) == Notification::Nothing
        }),
{
}

/// A new workspace list replaces the whole table: what the table held before
/// does not matter, and it holds an id exactly when the list has it.
pub proof fn law_workspaces_replaced(s: NiriState, t: NiriState, workspaces: Vec<NiriWorkspace>, id: u64)
    ensures
        next_state(s, NiriEvent::WorkspacesChanged { workspaces }).workspaces == next_state(
            t,
            NiriEvent::WorkspacesChanged { workspaces },
        ).workspaces,
        next_state(s, NiriEvent::WorkspacesChanged { workspaces }).workspaces.contains_key(id)
            <==> exists|i: int| 0 <= i < workspaces@.len() && (#[trigger] workspaces@[i]).id == id,
{
    law_by_id_keys(workspaces@, id);
}

/// Window events leave the workspaces and the focused workspace alone.
pub proof fn law_window_events_keep_workspaces(s: NiriState, e: NiriEvent)
    requires
        is_window_event(e),
    ensures
        next_state(s, e).workspaces == s.workspaces,
        next_state(s, e).focused_workspace == s.focused_workspace,
{
}

/// Workspace events leave the windows and the focused window alone.
pub proof fn law_workspace_events_keep_windows(s: NiriState, e: NiriEvent)
    requires
        is_workspace_event(e),
    ensures
        next_state(s, e).windows == s.windows,
        next_state(s, e).focused_window == s.focused_window,
{
}

/// Events the bar does not follow change nothing.
pub proof fn law_other_events_change_nothing(s: NiriState)
    ensures
        next_state(s, NiriEvent::Other) == s,
        next_state(s, NiriEvent::WindowLayoutsChanged) == s,
        notification(s, NiriEvent::Other) == Notification::Unhandled,
{
}

/// Both tables store every item under its own id.
pub open spec fn keyed_by_id(s: NiriState) -> bool {
    &&& forall|id: u64| #[trigger] s.windows.contains_key(id) ==> s.windows[id].id == id
    &&& forall|id: u64| #[trigger] s.workspaces.contains_key(id) ==> s.workspaces[id].id == id
}

/// Every event keeps both tables keyed by the ids of their items.
pub proof fn law_events_keep_tables_keyed(s: NiriState, e: NiriEvent)
    requires
        keyed_by_id(s),
    ensures
        keyed_by_id(next_state(s, e)),
{
    if let NiriEvent::WorkspacesChanged { workspaces } = e {
        law_by_id_keyed(workspaces@);
    }
}

/// Replies to the setup's requests keep both tables keyed by the ids of their
/// items.
pub proof fn law_replies_keep_tables_keyed(s: NiriState, reply: Result<NiriResponse, String>)
    requires
        keyed_by_id(s),
    ensures
        keyed_by_id(after_windows_reply(s, reply)),
        keyed_by_id(after_workspaces_reply(s, reply)),
{
    match reply {
        Ok(NiriResponse::Windows(windows)) => law_by_id_keyed(windows@),
        Ok(NiriResponse::Workspaces(workspaces)) => law_by_id_keyed(workspaces@),
        _ => {},
    }
}

/// Whenever a focused window is announced, it is the window that the table
/// holds under its id.
pub proof fn law_announced_window_is_known(s: NiriState, e: NiriEvent)
    requires
        keyed_by_id(s),
        notification(s, e) == Notification::FocusedWindow,
    ensures
        next_state(s, e).focused_window is Some,
        next_state(s, e).windows.contains_key(next_state(s, e).focused_window->0.id),
        next_state(s, e).windows[next_state(s, e).focused_window->0.id] == next_state(
            s,
            e,
        ).focused_window->0,
{
}

/// Whenever a focused workspace is announced, it is the workspace that the
/// table holds under the activated id; and the focused workspace changes only
/// when it is announced.
pub proof fn law_announced_workspace_is_known(s: NiriState, e: NiriEvent)
    requires
        keyed_by_id(s),
    ensures
        notification(s, e) == Notification::FocusedWorkspace ==> {
            let n = next_state(s, e);
            &&& n.focused_workspace is Some
            &&& n.workspaces.contains_key(n.focused_workspace->0.id)
            &&& n.workspaces[n.focused_workspace->0.id] == n.focused_workspace->0
            &&& n.focused_workspace == Some(s.workspaces[e->WorkspaceActivated_id])
        },
        notification(s, e) != Notification::FocusedWorkspace ==> next_state(s, e).focused_workspace
            == s.focused_workspace,
{
}

/// The workspace table that the setup builds from the reply to its request
/// is the one that the event announcing the same list builds.
pub proof fn law_reply_and_event_agree(s: NiriState, workspaces: Vec<NiriWorkspace>, windows: Vec<NiriWindow>)
    ensures
        after_workspaces_reply(s, Ok(NiriResponse::Workspaces(workspaces))).workspaces == next_state(
            s,
            NiriEvent::WorkspacesChanged { workspaces },
        ).workspaces,
        after_windows_reply(s, Ok(NiriResponse::Windows(windows))).windows == by_id(windows@),
{
}

impl Niri {
    /// Both tables store every item under its own id.
    #[verifier::type_invariant]
    spec fn tables_keyed(&self) -> bool {
        keyed_by_id(self@)
    }

    /// Every window, by id.
    pub fn windows_hash(&self) -> (windows: &NiriWindows)
        ensures
            windows.0@ == self@.windows,
            keyed_by_id(self@),
    {
        proof {
            use_type_invariant(self);
        }
        &self.windows_hash
    }

    /// Every workspace, by id.
    pub fn workspaces_hash(&self) -> (workspaces: &NiriWorkspaces)
        ensures
            workspaces.0@ == self@.workspaces,
            keyed_by_id(self@),
    {
        proof {
            use_type_invariant(self);
        }
        &self.workspaces_hash
    }

    /// The window that last became focused, if any did.
    pub fn focused_window(&self) -> (window: &Option<NiriWindow>)
        ensures
            *window == self@.focused_window,
            keyed_by_id(self@),
    {
        proof {
            use_type_invariant(self);
        }
        &self.focused_window
    }

    /// The workspace that last became focused, if any did.
    pub fn focused_workspace(&self) -> (workspace: &Option<NiriWorkspace>)
        ensures
            *workspace == self@.focused_workspace,
            keyed_by_id(self@),
    {
        proof {
            use_type_invariant(self);
        }
        &self.focused_workspace
    }

    /// A model that knows no window and no workspace.
    pub fn new() -> (niri: Self)
        ensures
            niri@.windows == Map::<u64, NiriWindow>::empty(),
            niri@.workspaces == Map::<u64, NiriWorkspace>::empty(),
            niri@.focused_window is None,
            niri@.focused_workspace is None,
            keyed_by_id(niri@),
    {
        Niri {
            windows_hash: NiriWindows::new(),
            workspaces_hash: NiriWorkspaces::new(),
            focused_window: None,
            focused_workspace: None,
        }
    }

    /// Sets the focused window to the known window with this id, if any.
    fn focus_by_id(&mut self, id: Option<u64>) -> (n: Notification)
        ensures
            final(self)@ == focus_window(old(self)@, id),
            n == focus_window_notification(old(self)@, id),
    {
        proof {
            use_type_invariant(&*self);
        }
        match id {
            Some(id) => match self.windows_hash.0.get(&id) {
                Some(window) => {
                    self.focused_window = Some(window.duplicate());
                    Notification::FocusedWindow
                },
                None => Notification::Nothing,
            },
            None => Notification::Nothing,
        }
    }

    /// Follows one event of the compositor's event stream, and says what must
    /// be announced.
    pub fn handle_event(&mut self, event: NiriEvent) -> (n: Notification)
        ensures
            final(self)@ == next_state(old(self)@, event),
            n == notification(old(self)@, event),
            keyed_by_id(final(self)@),
    {
        proof {
            use_type_invariant(&*self);
            law_events_keep_tables_keyed(self@, event);
        }
        match event {
            NiriEvent::WindowClosed { id } => {
                let mut windows = NiriWindows::new();
                std::mem::swap(&mut windows, &mut self.windows_hash);
                windows.0.remove(&id);
                self.windows_hash = windows;
                Notification::Nothing
            },
            NiriEvent::WindowOpenedOrChanged { window } => {
                let focused = window.is_focused;
                let copy = window.duplicate();
                let mut windows = NiriWindows::new();
                std::mem::swap(&mut windows, &mut self.windows_hash);
                windows.0.insert(window.id, window);
                self.windows_hash = windows;
                if focused {
                    self.focused_window = Some(copy);
                    Notification::FocusedWindow
                } else {
                    Notification::Nothing
                }
            },
            NiriEvent::WindowFocusChanged { id } => self.focus_by_id(id),
            NiriEvent::WorkspaceActiveWindowChanged { workspace_id, active_window_id } => {
                self.focus_by_id(active_window_id)
            },
            NiriEvent::WorkspacesChanged { workspaces } => {
                self.workspaces_hash = NiriWorkspaces::from_list(&workspaces);
                Notification::Workspaces
            },
            NiriEvent::WorkspaceActivated { id, focused } => {
                if !focused {
                    Notification::Nothing
                } else {
                    match self.workspaces_hash.0.get(&id) {
                        Some(workspace) => {
                            self.focused_workspace = Some(*workspace);
                            Notification::FocusedWorkspace
                        },
                        None => Notification::UnknownWorkspace(id),
                    }
                }
            },
            NiriEvent::WindowLayoutsChanged => Notification::Nothing,
            NiriEvent::Other => Notification::Unhandled,
        }
    }

    /// Follows the events of the event stream in the order they arrived, each
    /// once, and says what each one must announce.
    pub fn handle_events(&mut self, events: Vec<NiriEvent>) -> (notes: Vec<Notification>)
        ensures
            final(self)@ == run_events(old(self)@, events@),
            notes@ == run_notifications(old(self)@, events@),
            keyed_by_id(final(self)@),
    {
        let ghost start = self@;
        let mut rest = events;
        let mut notes: Vec<Notification> = Vec::new();
        let ghost all = rest@;
        let count: usize = rest.len();
        assert(all.len() == count);
        let mut i: usize = 0;
        while rest.len() > 0
            invariant
                i <= all.len(),
                all.len() <= usize::MAX,
                rest@ == all.skip(i as int),
                self@ == run_events(start, all.take(i as int)),
                notes@ == run_notifications(start, all.take(i as int)),
            decreases rest@.len(),
        {
            let event = rest.remove(0);
            proof {
                assert(event == all[i as int]);
                assert(all.take(i + 1).drop_last() =~= all.take(i as int));
                assert(all.take(i + 1).last() == all[i as int]);
                assert(rest@ =~= all.skip(i + 1));
            }
            let note = self.handle_event(event);
            notes.push(note);
            i = i + 1;
        }
        proof {
            assert(all.take(i as int) =~= all);
            use_type_invariant(&*self);
        }
        notes
    }

    /// Takes in the reply to the request for all windows. On the window list
    /// the window table is replaced and the setup goes on (`Ok(true)`); on
    /// another reply the setup ends quietly (`Ok(false)`); on the
    /// compositor's error message it fails with that message.
    pub fn apply_windows_reply(&mut self, reply: Result<NiriResponse, String>) -> (r: Result<bool, String>)
        ensures
            final(self)@ == after_windows_reply(old(self)@, reply),
            r == reply_outcome(reply, true),
            keyed_by_id(final(self)@),
    {
        proof {
            use_type_invariant(&*self);
            law_replies_keep_tables_keyed(self@, reply);
        }
        match reply {
            Err(message) => Err(message),
            Ok(NiriResponse::Windows(windows)) => {
                self.windows_hash = NiriWindows::from_list(&windows);
                Ok(true)
            },
            Ok(_) => Ok(false),
        }
    }

    /// Takes in the reply to the request for all workspaces. On the workspace
    /// list the workspace table is replaced and the setup goes on
    /// (`Ok(true)`); on another reply the setup ends quietly (`Ok(false)`);
    /// on the compositor's error message it fails with that message.
    pub fn apply_workspaces_reply(&mut self, reply: Result<NiriResponse, String>) -> (r: Result<bool, String>)
        ensures
            final(self)@ == after_workspaces_reply(old(self)@, reply),
            r == reply_outcome(reply, false),
            keyed_by_id(final(self)@),
    {
        proof {
            use_type_invariant(&*self);
            law_replies_keep_tables_keyed(self@, reply);
        }
        match reply {
            Err(message) => Err(message),
            Ok(NiriResponse::Workspaces(workspaces)) => {
                self.workspaces_hash = NiriWorkspaces::from_list(&workspaces);
                Ok(true)
            },
            Ok(_) => Ok(false),
        }
    }

    /// Whether the compositor accepted the request for its event stream:
    /// any reply but an error message.
    pub fn event_stream_accepted(reply: &Result<NiriResponse, String>) -> (accepted: bool)
        ensures
            accepted == reply is Ok,
    {
        reply.is_ok()
    }
}

} // verus!
