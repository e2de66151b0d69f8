//! An ordered list with at most one highlighted position.

use vstd::prelude::*;

verus! {

/// What a `SelectionList` holds: the items in listing order and the index of
/// the highlighted one, if any.
pub struct ListView<T> {
    pub items: Seq<T>,
    pub selected: Option<nat>,
}

impl<T> ListView<T> {
    /// A highlighted index points at an item; an empty list highlights nothing.
    pub open spec fn wf(self) -> bool {
        self.selected matches Some(i) ==> i < self.items.len()
    }

    /// The list with nothing in it.
    pub open spec fn empty() -> ListView<T> {
        ListView { items: Seq::empty(), selected: None }
    }

    /// The first item highlighted; nothing where there is no item.
    pub open spec fn select_first(self) -> ListView<T> {
        ListView {
            items: self.items,
            selected: if self.items.len() == 0 {
                None
            } else {
                Some(0)
            },
        }
    }

    /// The highlight one item further down, staying on the last item. With
    /// nothing highlighted the first item is taken.
    pub open spec fn move_down(self) -> ListView<T> {
        ListView {
            items: self.items,
            selected: if self.items.len() == 0 {
                None
            } else {
                match self.selected {
                    None => Some(0),
                    Some(i) => if i + 1 < self.items.len() {
                        Some(i + 1)
                    } else {
                        Some((self.items.len() - 1) as nat)
                    },
                }
            },
        }
    }

    /// The highlight one item further up, staying on the first item. With
    /// nothing highlighted the last item is taken.
    pub open spec fn move_up(self) -> ListView<T> {
        ListView {
            items: self.items,
            selected: if self.items.len() == 0 {
                None
            } else {
                match self.selected {
                    None => Some((self.items.len() - 1) as nat),
                    Some(i) => if i == 0 {
                        Some(0)
                    } else {
                        Some((i - 1) as nat)
                    },
                }
            },
        }
    }

    /// New items under the old highlight, which is pulled back onto the last
    /// item where the new list is shorter and dropped where it is empty.
    pub open spec fn with_items(self, items: Seq<T>) -> ListView<T> {
        ListView {
            items: items,
            selected: match self.selected {
                None => None,
                Some(i) => if items.len() == 0 {
                    None
                } else if i < items.len() {
                    Some(i)
                } else {
                    Some((items.len() - 1) as nat)
                },
            },
        }
    }

    /// The highlighted item.
    pub open spec fn selected_item(self) -> Option<T> {
        match self.selected {
            Some(i) if i < self.items.len() => Some(self.items[i as int]),
            _ => None,
        }
    }
}

/// Items in listing order, one of which may be highlighted.
pub struct SelectionList<T> {
    items: Vec<T>,
    selected: Option<usize>,
}

impl<T> View for SelectionList<T> {
    type V = ListView<T>;

    closed spec fn view(&self) -> ListView<T> {
        ListView {
            items: self.items@,
            selected: match self.selected {
                Some(i) => Some(i as nat),
                None => None,
            },
        }
    }
}

impl<T> SelectionList<T> {
    #[verifier::type_invariant]
    spec fn selection_in_range(self) -> bool {
        self.selected matches Some(i) ==> i < self.items@.len()
    }

    /// A list without items.
    pub fn new() -> (list: SelectionList<T>)
        ensures
            list@ == ListView::<T>::empty(),
            list@.wf(),
    {
        SelectionList { items: Vec::new(), selected: None }
    }

    /// The items, in listing order.
    pub fn items(&self) -> (items: &Vec<T>)
        ensures
            items@ == self@.items,
    {
        &self.items
    }

    /// Number of items.
    pub fn len(&self) -> (n: usize)
        ensures
            n == self@.items.len(),
    {
        self.items.len()
    }

    /// Index of the highlighted item.
    pub fn selected(&self) -> (selected: Option<usize>)
        ensures
            self@.wf(),
            match selected {
                Some(i) => self@.selected == Some(i as nat),
                None => self@.selected is None,
            },
    {
        proof {
            use_type_invariant(self);
        }
        self.selected
    }

    /// The highlighted item.
    pub fn selected_item(&self) -> (item: Option<&T>)
        ensures
            match item {
                Some(t) => self@.selected_item() == Some(*t),
                None => self@.selected_item() is None,
            },
    {
        proof {
            use_type_invariant(self);
        }
        match self.selected {
            Some(i) => Some(&self.items[i]),
            None => None,
        }
    }

    /// Replaces the items. A highlight that the new list is too short for is
    /// pulled back onto its last item, or dropped if the list is empty.
    pub fn set_items(&mut self, items: Vec<T>)
        ensures
            final(self)@ == old(self)@.with_items(items@),
            final(self)@.wf(),
    {
        let n: usize = items.len();
        let selected: Option<usize> = match self.selected {
            None => None,
            Some(i) => if n == 0 {
                None
            } else if i < n {
                Some(i)
            } else {
                Some(n - 1)
            },
        };
        self.selected = None;
        self.items = items;
        self.selected = selected;
    }

    /// Highlights the first item.
    pub fn select_first(&mut self)
        ensures
            final(self)@ == old(self)@.select_first(),
            final(self)@.wf(),
    {
        if self.items.len() == 0 {
            self.selected = None;
        } else {
            self.selected = Some(0);
        }
    }

    /// Moves the highlight one item down, without wrapping around.
    pub fn move_down(&mut self)
        ensures
            final(self)@ == old(self)@.move_down(),
            final(self)@.wf(),
    {
        proof {
            use_type_invariant(&*self);
        }
        let n: usize = self.items.len();
        if n == 0 {
            self.selected = None;
        } else {
            self.selected = match self.selected {
                None => Some(0),
                Some(i) => if i + 1 < n {
                    Some(i + 1)
                } else {
                    Some(n - 1)
                },
            };
        }
    }

    /// Moves the highlight one item up, without wrapping around.
    pub fn move_up(&mut self)
        ensures
            final(self)@ == old(self)@.move_up(),
            final(self)@.wf(),
    {
        proof {
            use_type_invariant(&*self);
        }
        let n: usize = self.items.len();
        if n == 0 {
            self.selected = None;
        } else {
            self.selected = match self.selected {
                None => Some(n - 1),
                Some(i) => if i == 0 {
                    Some(0)
                } else {
                    Some(i - 1)
                },
            };
        }
    }
}

/// Whatever is done to a list, its highlight is absent or points at one of
/// its items.
pub proof fn lemma_selection_stays_in_range<T>(v: ListView<T>, items: Seq<T>)
    requires
        v.wf(),
    ensures
        ListView::<T>::empty().wf(),
        v.select_first().wf(),
        v.move_down().wf(),
        v.move_up().wf(),
        v.with_items(items).wf(),
{
}

/// On a list with a highlight that is not on the last item, down and then up
/// comes back to it; with one that is not on the first item, so does up and
/// then down.
pub proof fn lemma_down_and_up_cancel<T>(v: ListView<T>, i: nat)
    requires
        v.wf(),
        v.selected == Some(i),
    ensures
        i + 1 < v.items.len() ==> v.move_down().move_up() == v,
        i > 0 ==> v.move_up().move_down() == v,
{
}

} // verus!
