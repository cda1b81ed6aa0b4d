//! The decisions of the bar's widgets: the workspace indicators and the
//! label and icon of the focused window.

use crate::types::{NiriWindow, NiriWorkspace};
use vstd::prelude::*;
use vstd::string::*;

verus! {

/// Whether the indicator for this index shows the focused workspace.
pub open spec fn shows_focus(focused: Option<NiriWorkspace>, id: u8) -> bool {
    match focused {
        Some(workspace) => workspace.idx == id,
        None => false,
    }
}

/// The style classes an indicator carries: always `workspace`, and `active`
/// while it shows the focused workspace.
pub open spec fn workspace_classes(active: bool) -> Seq<Seq<char>> {
    if active {
        seq!["workspace"@, "active"@]
    } else {
        seq!["workspace"@]
    }
}

/// The indicator of one workspace index in the bar.
#[derive(Debug, Clone, Copy, PartialEq, Eq, Structural)]
pub struct Workspace {
    /// The workspace index the indicator stands for.
    pub id: u8,
    /// Whether the indicator shows the focused workspace.
    pub active: bool,
}

impl Workspace {
    /// The indicator for a workspace index, not yet active.
    pub fn new(id: u8) -> (workspace: Self)
        ensures
            workspace.id == id,
            !workspace.active,
    {
        Workspace { id, active: false }
    }

    /// Follows a change of the focused workspace: the indicator is active
    /// exactly when the focused workspace has its index.
    pub fn update(&mut self, focused: &Option<NiriWorkspace>)
        ensures
            final(self).id == old(self).id,
            final(self).active == shows_focus(*focused, old(self).id),
    {
        self.active = match focused {
            Some(workspace) => workspace.idx == self.id,
            None => false,
        };
    }

    /// The style classes the indicator carries.
    pub fn css_classes(&self) -> (classes: Vec<String>)
        ensures
            classes@.map_values(|c: String| c@) == workspace_classes(self.active),
    {
        let mut classes: Vec<String> = Vec::new();
        classes.push(String::from_str("workspace"));
        if self.active {
            classes.push(String::from_str("active"));
        }
        assert(classes@.map_values(|c: String| c@) =~= workspace_classes(self.active));
        classes
    }
}

/// The number of workspace indicators in the bar.
pub const WORKSPACE_COUNT: u8 = 5;

/// The row of workspace indicators: indices 1 to 5, in order.
pub struct Workspaces {
    pub items: Vec<Workspace>,
}

/// Whether no two indicators stand for the same index.
pub open spec fn distinct_ids(items: Seq<Workspace>) -> bool {
    forall|i: int, j: int| 0 <= i < j < items.len() ==> #[trigger] items[i].id != #[trigger] items[j].id
}

impl Workspaces {
    /// The indicators for indices 1 to 5, in order, none active.
    pub fn new() -> (workspaces: Self)
        ensures
            workspaces.items@.len() == WORKSPACE_COUNT,
            forall|i: int| 0 <= i < workspaces.items@.len() ==> (#[trigger] workspaces.items@[i]).id == i + 1
                && !workspaces.items@[i].active,
            distinct_ids(workspaces.items@),
    {
        let mut items: Vec<Workspace> = Vec::new();
        let mut x: u8 = 1;
        while x < WORKSPACE_COUNT + 1
            invariant
                1 <= x <= WORKSPACE_COUNT + 1,
                items@.len() == x - 1,
                forall|i: int| 0 <= i < items@.len() ==> (#[trigger] items@[i]).id == i + 1 && !items@[i].active,
            decreases WORKSPACE_COUNT + 1 - x,
        {
            items.push(Workspace::new(x));
            x = x + 1;
        }
        Workspaces { items }
    }

    /// Follows a change of the focused workspace in every indicator.
    pub fn update_all(&mut self, focused: &Option<NiriWorkspace>)
        ensures
            final(self).items@.len() == old(self).items@.len(),
            forall|i: int| 0 <= i < final(self).items@.len() ==> (#[trigger] final(self).items@[i]).id == old(self).items@[i].id
                && final(self).items@[i].active == shows_focus(*focused, old(self).items@[i].id),
    {
        let mut i: usize = 0;
        while i < self.items.len()
            invariant
                i <= self.items@.len(),
                self.items@.len() == old(self).items@.len(),
                forall|j: int| 0 <= j < self.items@.len() ==> (#[trigger] self.items@[j]).id == old(self).items@[j].id,
                forall|j: int| 0 <= j < i ==> (#[trigger] self.items@[j]).active == shows_focus(*focused, old(self).items@[j].id),
                forall|j: int| i <= j < self.items@.len() ==> #[trigger] self.items@[j] == old(self).items@[j],
            decreases self.items@.len() - i,
        {
            let mut item = self.items[i];
            item.update(focused);
            self.items.set(i, item);
            i = i + 1;
        }
    }
}

/// Indicators with distinct indices that follow the focused workspace show
/// at most one active indicator.
pub proof fn law_at_most_one_active(items: Seq<Workspace>, focused: Option<NiriWorkspace>)
    requires
        distinct_ids(items),
        forall|i: int| 0 <= i < items.len() ==> (#[trigger] items[i]).active == shows_focus(focused, items[i].id),
    ensures
        forall|i: int, j: int| 0 <= i < items.len() && 0 <= j < items.len() && #[trigger] items[i].active && #[trigger] items[j].active ==> i == j,
{
    assert forall|i: int, j: int| 0 <= i < items.len() && 0 <= j < items.len() && #[trigger] items[i].active && #[trigger] items[j].active implies i == j by {
        if i < j {
            assert(items[i].id != items[j].id);
        } else if j < i {
            assert(items[j].id != items[i].id);
        }
    }
}

/// An indicator shows the focused workspace exactly when the focused
/// workspace's index equals the indicator's index, for every index; with no
/// focused workspace no indicator does.
pub proof fn law_indicator_follows_index(w: NiriWorkspace, id: u8)
    ensures
        shows_focus(Some(w), id) <==> w.idx == id,
        !shows_focus(None, id),
{
}

/// In the row of indicators 1 to 5, after a focus change, the indicator at
/// position `i` is active exactly when the focused workspace has index
/// `i + 1`; so a focused workspace with an index from 1 to 5 lights exactly
/// its own indicator, and any other index lights none.
pub proof fn law_row_lights_focused_index(items: Seq<Workspace>, focused: Option<NiriWorkspace>)
    requires
        items.len() == WORKSPACE_COUNT,
        forall|i: int| 0 <= i < items.len() ==> (#[trigger] items[i]).id == i + 1,
        forall|i: int| 0 <= i < items.len() ==> (#[trigger] items[i]).active == shows_focus(focused, items[i].id),
    ensures
        forall|i: int| 0 <= i < items.len() ==> ((#[trigger] items[i]).active <==> (focused is Some
            && focused->0.idx == i + 1)),
        focused is Some && 1 <= focused->0.idx <= WORKSPACE_COUNT ==> items[focused->0.idx - 1].active,
        focused is Some && !(1 <= focused->0.idx <= WORKSPACE_COUNT) ==> forall|i: int|
            0 <= i < items.len() ==> !(#[trigger] items[i]).active,
{
    if focused is Some && 1 <= focused->0.idx <= WORKSPACE_COUNT {
        let k = focused->0.idx - 1;
        assert(items[k].id == k + 1);
    }
}

/// The text the focused-window label shows before any window is focused, and
/// for a window without a title.
pub open spec fn default_label() -> Seq<char> {
    "NixOS"@
}

/// The text of an optional string, as a mathematical value.
pub open spec fn text_of(text: Option<String>) -> Option<Seq<char>> {
    match text {
        Some(t) => Some(t@),
        None => None,
    }
}

/// What the focused-window icon must do after a focus change.
#[derive(Debug, PartialEq, Eq)]
pub enum IconRefresh {
    /// Keep the icon shown now.
    Keep,
    /// Look up the icon of the application with this id.
    LookUp(Option<String>),
}

/// Where an icon comes from.
#[derive(Debug, PartialEq, Eq)]
pub enum IconSource {
    /// An image file at this path.
    File(String),
    /// The icon of this name in the icon theme.
    Themed(String),
}

/// The label and the icon of the focused window.
pub struct ActiveWindow {
    /// The application id whose icon is shown, as of the last focus change.
    pub previous_focused_id: Option<String>,
    /// The text the label shows.
    pub label: String,
}

/// Compares two optional strings by their text.
fn same_text(a: &Option<String>, b: &Option<String>) -> (same: bool)
    ensures
        same == (text_of(*a) == text_of(*b)),
{
    match (a, b) {
        (Some(x), Some(y)) => *x == *y,
        (None, None) => true,
        _ => false,
    }
}

impl ActiveWindow {
    /// The widget before any focus change: the default label, no application.
    pub fn new() -> (widget: Self)
        ensures
            widget.previous_focused_id is None,
            widget.label@ == default_label(),
    {
        ActiveWindow { previous_focused_id: None, label: String::from_str("NixOS") }
    }

    /// Follows a change of the focused window. With no focused window nothing
    /// changes. Otherwise the label shows the window's title (the default
    /// label for a window without one), the window's application id is
    /// remembered, and the icon is looked up again exactly when that id
    /// differs from the one remembered before.
    pub fn on_focused_window(&mut self, focused: &Option<NiriWindow>) -> (refresh: IconRefresh)
        ensures
            match *focused {
                None => {
                    &&& refresh == IconRefresh::Keep
                    &&& final(self).previous_focused_id == old(self).previous_focused_id
                    &&& final(self).label == old(self).label
                },
                Some(window) => {
                    &&& (text_of(old(self).previous_focused_id) != text_of(window.app_id)) ==> refresh
                        == IconRefresh::LookUp(window.app_id)
                    &&& (text_of(old(self).previous_focused_id) == text_of(window.app_id)) ==> refresh
                        == IconRefresh::Keep
                    &&& final(self).previous_focused_id == window.app_id
                    &&& final(self).label@ == match window.title {
                        Some(title) => title@,
                        None => default_label(),
                    }
                },
            },
    {
        match focused {
            None => IconRefresh::Keep,
            Some(window) => {
                let refresh = if !same_text(&self.previous_focused_id, &window.app_id) {
                    IconRefresh::LookUp(crate::types::copy_text(&window.app_id))
                } else {
                    IconRefresh::Keep
                };
                self.previous_focused_id = crate::types::copy_text(&window.app_id);
                self.label = match &window.title {
                    Some(title) => title.clone(),
                    None => String::from_str("NixOS"),
                };
                refresh
            },
        }
    }

    /// The icon name to look up for an application id: the id itself, or the
    /// empty name when there is none.
    pub fn icon_name(app_id: &Option<String>) -> (name: String)
        ensures
            name@ == match *app_id {
                Some(id) => id@,
                None => Seq::<char>::empty(),
            },
    {
        match app_id {
            Some(id) => id.clone(),
            None => String::new(),
        }
    }

    /// The icon for an application id when the icon theme has an icon of
    /// that name; otherwise `None`, and the installed applications are
    /// searched.
    pub fn themed_icon(name: String, theme_has_icon: bool) -> (icon: Option<IconSource>)
        ensures
            theme_has_icon ==> icon == Some(IconSource::Themed(name)),
            !theme_has_icon ==> icon is None,
    {
        if theme_has_icon {
            Some(IconSource::Themed(name))
        } else {
            None
        }
    }

    /// The icon of an installed application, from its icon name and whether
    /// a file of that name exists: the file when it does, the themed icon of
    /// that name when it does not, and none when that could not be told.
    pub fn icon_from_app(icon_name: String, exists: Result<bool, String>) -> (icon: Option<IconSource>)
        ensures
            exists == Ok::<bool, String>(true) ==> icon == Some(IconSource::File(icon_name)),
            exists == Ok::<bool, String>(false) ==> icon == Some(IconSource::Themed(icon_name)),
            exists is Err ==> icon is None,
    {
        match exists {
            Ok(true) => Some(IconSource::File(icon_name)),
            Ok(false) => Some(IconSource::Themed(icon_name)),
            Err(_) => None,
        }
    }
}

} // verus!
