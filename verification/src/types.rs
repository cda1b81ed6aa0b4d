//! The compositor's windows and workspaces, as the bar sees them, and the
//! tables that index them by id.

use std::collections::HashMap;
use vstd::prelude::*;

verus! {

broadcast use vstd::std_specs::hash::group_hash_axioms;

/// An item the compositor identifies by a 64-bit id.
pub trait Identified: Sized {
    /// The item's id.
    spec fn spec_id(&self) -> u64;

    /// Returns the item's id.
    fn id_of(&self) -> (id: u64)
        ensures
            id == self.spec_id(),
    ;

    /// Returns an equal copy of the item.
    fn duplicate(&self) -> (copy: Self)
        ensures
            copy == *self,
    ;
}

/// The table that a list of items gives when each is stored under its id,
/// in list order, so that of two items with one id the later one stays.
pub open spec fn by_id<T: Identified>(items: Seq<T>) -> Map<u64, T>
    decreases items.len(),
{
    if items.len() == 0 {
        Map::empty()
    } else {
        by_id(items.drop_last()).insert(items.last().spec_id(), items.last())
    }
}

/// The table holds an id exactly when some item of the list has that id.
pub proof fn law_by_id_keys<T: Identified>(items: Seq<T>, id: u64)
    ensures
        by_id(items).contains_key(id) <==> exists|i: int|
            0 <= i < items.len() && (#[trigger] items[i]).spec_id() == id,
    decreases items.len(),
{
    if items.len() > 0 {
        let rest = items.drop_last();
        law_by_id_keys(rest, id);
        if by_id(rest).contains_key(id) {
            let i = choose|i: int| 0 <= i < rest.len() && #[trigger] rest[i].spec_id() == id;
            assert(items[i].spec_id() == id);
        }
        if exists|i: int| 0 <= i < items.len() && #[trigger] items[i].spec_id() == id {
            let i = choose|i: int| 0 <= i < items.len() && #[trigger] items[i].spec_id() == id;
            if i < items.len() - 1 {
                assert(rest[i].spec_id() == id);
            }
        }
    }
}

/// Every item of the table is stored under its own id.
pub proof fn law_by_id_keyed<T: Identified>(items: Seq<T>)
    ensures
        forall|id: u64| #[trigger] by_id(items).contains_key(id) ==> by_id(items)[id].spec_id() == id,
    decreases items.len(),
{
    if items.len() > 0 {
        let rest = items.drop_last();
        law_by_id_keyed(rest);
        assert forall|id: u64| #[trigger] by_id(items).contains_key(id) implies by_id(
            items,
        )[id].spec_id() == id by {
            if id != items.last().spec_id() {
                assert(by_id(rest).contains_key(id));
            }
        }
    }
}

/// Under an id the table holds the last item of the list with that id.
pub proof fn law_by_id_last_wins<T: Identified>(items: Seq<T>, i: int)
    requires
        0 <= i < items.len(),
        forall|j: int| i < j < items.len() ==> #[trigger] items[j].spec_id() != items[i].spec_id(),
    ensures
        by_id(items).contains_key(items[i].spec_id()),
        by_id(items)[items[i].spec_id()] == items[i],
    decreases items.len(),
{
    if i < items.len() - 1 {
        let rest = items.drop_last();
        assert forall|j: int| i < j < rest.len() implies #[trigger] rest[j].spec_id() != rest[i].spec_id() by {
            assert(rest[j] == items[j]);
        }
        law_by_id_last_wins(rest, i);
        assert(items.last().spec_id() != items[i].spec_id());
    }
}

/// A toplevel window, with the fields that the bar reads.
#[derive(Debug, Clone, PartialEq, Eq)]
pub struct NiriWindow {
    pub id: u64,
    pub title: Option<String>,
    pub app_id: Option<String>,
    pub is_focused: bool,
}

/// Copies an optional string.
pub fn copy_text(text: &Option<String>) -> (copy: Option<String>)
    ensures
        copy == *text,
{
    match text {
        Some(t) => Some(t.clone()),
        None => None,
    }
}

impl Identified for NiriWindow {
    open spec fn spec_id(&self) -> u64 {
        self.id
    }

    fn id_of(&self) -> (id: u64) {
        self.id
    }

    fn duplicate(&self) -> (copy: Self) {
        NiriWindow {
            id: self.id,
            title: copy_text(&self.title),
            app_id: copy_text(&self.app_id),
            is_focused: self.is_focused,
        }
    }
}

/// A workspace, with the fields that the bar reads: its id and its index on
/// its output.
#[derive(Debug, Clone, Copy, PartialEq, Eq, Structural)]
pub struct NiriWorkspace {
    pub id: u64,
    pub idx: u8,
}

impl Identified for NiriWorkspace {
    open spec fn spec_id(&self) -> u64 {
        self.id
    }

    fn id_of(&self) -> (id: u64) {
        self.id
    }

    fn duplicate(&self) -> (copy: Self) {
        *self
    }
}

/// Stores each item under its id, in order: a later item replaces an earlier
/// one with the same id.
pub fn index_by_id<T: Identified>(items: &Vec<T>) -> (table: HashMap<u64, T>)
    ensures
        table@ == by_id(items@),
{
    let mut table: HashMap<u64, T> = HashMap::new();
    let mut i: usize = 0;
    while i < items.len()
        invariant
            i <= items.len(),
            table@ == by_id(items@.take(i as int)),
        decreases items.len() - i,
    {
        let item = items[i].duplicate();
        let id = item.id_of();
        assert(items@.take(i + 1).drop_last() == items@.take(i as int));
        table.insert(id, item);
        i = i + 1;
    }
    assert(items@.take(items.len() as int) == items@);
    table
}

/// All windows the compositor reported, by id.
#[derive(Debug, Clone)]
pub struct NiriWindows(pub HashMap<u64, NiriWindow>);

/// All workspaces the compositor reported, by id.
#[derive(Debug, Clone)]
pub struct NiriWorkspaces(pub HashMap<u64, NiriWorkspace>);

impl Default for NiriWindows {
    /// An empty table.
    fn default() -> (table: Self)
        ensures
            table.0@ == Map::<u64, NiriWindow>::empty(),
    {
        NiriWindows::new()
    }
}

impl Default for NiriWorkspaces {
    /// An empty table.
    fn default() -> (table: Self)
        ensures
            table.0@ == Map::<u64, NiriWorkspace>::empty(),
    {
        NiriWorkspaces::new()
    }
}

impl NiriWindows {
    /// An empty table.
    pub fn new() -> (table: Self)
        ensures
            table.0@ == Map::<u64, NiriWindow>::empty(),
    {
        NiriWindows(HashMap::new())
    }

    /// The table of a list of windows; of two with one id the later stays.
    pub fn from_list(windows: &Vec<NiriWindow>) -> (table: Self)
        ensures
            table.0@ == by_id(windows@),
    {
        NiriWindows(index_by_id(windows))
    }
}

impl NiriWorkspaces {
    /// An empty table.
    pub fn new() -> (table: Self)
        ensures
            table.0@ == Map::<u64, NiriWorkspace>::empty(),
    {
        NiriWorkspaces(HashMap::new())
    }

    /// The table of a list of workspaces; of two with one id the later stays.
    pub fn from_list(workspaces: &Vec<NiriWorkspace>) -> (table: Self)
        ensures
            table.0@ == by_id(workspaces@),
    {
        NiriWorkspaces(index_by_id(workspaces))
    }
}

} // verus!
