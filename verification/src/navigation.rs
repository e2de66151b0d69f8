//! Where the browser stands: the listing of the current directory with its
//! highlight, and the paths queued for deletion.
//!
//! The working directory belongs to the process. It is never kept here:
//! whoever asks for a move or a deletion says where the process stands.

use crate::fs::{parent, path_parent, text_view, DirectoryEntry};
use crate::order::deletion_order_of;
use crate::queue::{text_views, toggled, QueuedSet};
use crate::selection::{ListView, SelectionList};
use vstd::prelude::*;

verus! {

/// What has to be removed, and where to go before that.
#[derive(Debug, PartialEq, Eq)]
pub struct DeletionPlan {
    /// The directory to move to before anything is removed: the parent of the
    /// working directory, where the working directory is itself to go.
    pub leave_to: Option<String>,
    /// The paths to remove, in this order.
    pub items: Vec<String>,
}

/// A `DeletionPlan` with its paths as sequences of scalar values.
pub struct DeletionPlanView {
    pub leave_to: Option<Seq<char>>,
    pub items: Seq<Seq<char>>,
}

impl View for DeletionPlan {
    type V = DeletionPlanView;

    open spec fn view(&self) -> DeletionPlanView {
        DeletionPlanView { leave_to: text_view(self.leave_to), items: text_views(self.items@) }
    }
}

/// What a `NavigationState` holds.
pub struct NavView {
    pub entries: ListView<DirectoryEntry>,
    pub queued: Seq<Seq<char>>,
}

impl NavView {
    /// The highlight points into the listing, and no path is queued twice.
    pub open spec fn wf(self) -> bool {
        self.entries.wf() && self.queued.no_duplicates()
    }

    /// Nothing listed, nothing queued.
    pub open spec fn empty() -> NavView {
        NavView { entries: ListView::empty(), queued: Seq::empty() }
    }

    /// The path to move into: that of the highlighted entry if it is a
    /// directory.
    pub open spec fn child_target(self) -> Option<Seq<char>> {
        match self.entries.selected_item() {
            Some(entry) => if entry.is_dir {
                Some(entry.path@)
            } else {
                None
            },
            None => None,
        }
    }

    /// The highlighted path queued if it was not, and taken out if it was;
    /// unchanged where nothing is highlighted.
    pub open spec fn toggle_queue(self) -> NavView {
        match self.entries.selected_item() {
            Some(entry) => NavView { entries: self.entries, queued: toggled(self.queued, entry.path@) },
            None => self,
        }
    }

    /// After the working directory has changed: the first entry highlighted.
    pub open spec fn entered(self) -> NavView {
        NavView { entries: self.entries.select_first(), queued: self.queued }
    }

    /// What `delete_queued` plans while the process stands in `cwd`.
    pub open spec fn deletion_plan(self, cwd: Seq<char>) -> DeletionPlanView {
        DeletionPlanView {
            leave_to: if self.queued.contains(cwd) {
                path_parent(cwd)
            } else {
                None
            },
            items: deletion_order_of(self.queued),
        }
    }
}

/// The listing of the current directory and the paths queued for deletion.
pub struct NavigationState {
    pub entries: SelectionList<DirectoryEntry>,
    pub queued: QueuedSet,
}

impl View for NavigationState {
    type V = NavView;

    open spec fn view(&self) -> NavView {
        NavView { entries: self.entries@, queued: self.queued@ }
    }
}

impl NavigationState {
    /// Nothing listed, nothing queued.
    pub fn new() -> (state: NavigationState)
        ensures
            state@ == NavView::empty(),
            state@.wf(),
    {
        NavigationState { entries: SelectionList::new(), queued: QueuedSet::new() }
    }

    /// The path that a move into the highlighted entry leads to: none where
    /// nothing is highlighted or the highlighted entry is no directory.
    pub fn move_to_child(&self) -> (target: Option<String>)
        ensures
            text_view(target) == self@.child_target(),
    {
        match self.entries.selected_item() {
            Some(entry) => if entry.is_dir {
                Some(entry.path.clone())
            } else {
                None
            },
            None => None,
        }
    }

    /// The path that a move up from `cwd` leads to: none where `cwd` has no
    /// parent.
    pub fn move_to_parent(cwd: &str) -> (target: Option<String>)
        ensures
            text_view(target) == path_parent(cwd@),
    {
        parent(cwd)
    }

    /// Queues the highlighted path if it is not queued, and takes it out of
    /// the queue if it is. Does nothing where nothing is highlighted.
    pub fn toggle_queue(&mut self)
        ensures
            final(self)@ == old(self)@.toggle_queue(),
    {
        let path: Option<String> = match self.entries.selected_item() {
            Some(entry) => Some(entry.path.clone()),
            None => None,
        };
        if let Some(path) = path {
            self.queued.toggle(path);
        }
    }

    /// After the working directory has changed: highlights the first entry.
    pub fn entered(&mut self)
        ensures
            final(self)@ == old(self)@.entered(),
    {
        self.entries.select_first();
    }

    /// Plans the deletion of the queued paths while the process stands in
    /// `cwd`: the paths, the greatest file name first, and the parent of `cwd`
    /// to move to beforehand if `cwd` is one of them.
    pub fn delete_queued(&self, cwd: &str) -> (plan: DeletionPlan)
        ensures
            plan@ == self@.deletion_plan(cwd@),
    {
        let items: Vec<String> = self.queued.deletion_order();
        let leave_to: Option<String> = if self.queued.contains(cwd) {
            parent(cwd)
        } else {
            None
        };
        DeletionPlan { leave_to, items }
    }
}

/// Toggling the highlighted path twice leaves the set of queued paths as it
/// was, and never queues a path twice.
pub proof fn lemma_toggle_queue_twice(v: NavView)
    requires
        v.wf(),
    ensures
        v.toggle_queue().toggle_queue().queued.to_set() == v.queued.to_set(),
        v.toggle_queue().toggle_queue().entries == v.entries,
        v.toggle_queue().wf(),
        v.toggle_queue().toggle_queue().wf(),
{
    match v.entries.selected_item() {
        Some(entry) => {
            crate::queue::lemma_toggled(v.queued, entry.path@);
            crate::queue::lemma_toggle_twice(v.queued, entry.path@);
        },
        None => {},
    }
}

/// A deletion plan names every queued path, the greatest file name first, and
/// asks to leave the working directory exactly if that is queued.
pub proof fn lemma_deletion_plan(v: NavView, cwd: Seq<char>)
    ensures
        crate::order::descending_by_file_name(v.deletion_plan(cwd).items),
        v.deletion_plan(cwd).items.to_multiset() == v.queued.to_multiset(),
        v.deletion_plan(cwd).leave_to is Some ==> v.deletion_plan(cwd).items.contains(cwd),
        v.deletion_plan(cwd).leave_to is Some <==> v.queued.contains(cwd) && path_parent(cwd) is Some,
{
    crate::order::lemma_deletion_order(v.queued);
    crate::order::lemma_deletion_order_contains(v.queued, cwd);
}

} // verus!
