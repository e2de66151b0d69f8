//! The paths that are marked for deletion.

use crate::order::{deletion_order, deletion_order_of};
use vstd::prelude::*;
use vstd::utf8::encode_utf8;

verus! {

/// The views of a sequence of texts.
pub open spec fn text_views(texts: Seq<String>) -> Seq<Seq<char>> {
    texts.map_values(|t: String| t@)
}

/// Whether two texts hold the same scalar values.
pub fn same_text(a: &str, b: &str) -> (same: bool)
    ensures
        same == (a@ == b@),
{
    let x: &[u8] = a.as_bytes();
    let y: &[u8] = b.as_bytes();
    proof {
        vstd::utf8::encode_utf8_decode_utf8(a@);
        vstd::utf8::encode_utf8_decode_utf8(b@);
    }
    if x.len() != y.len() {
        return false;
    }
    let mut i: usize = 0;
    while i < x.len()
        invariant
            i <= x.len(),
            x.len() == y.len(),
            x@ == encode_utf8(a@),
            y@ == encode_utf8(b@),
            forall|j: int| 0 <= j < i ==> x@[j] == y@[j],
        decreases x.len() - i,
    {
        if x[i] != y[i] {
            return false;
        }
        i = i + 1;
    }
    assert(x@ =~= y@);
    true
}

/// `queue` without `path`.
pub open spec fn without(queue: Seq<Seq<char>>, path: Seq<char>) -> Seq<Seq<char>> {
    if queue.contains(path) {
        queue.remove(queue.index_of(path))
    } else {
        queue
    }
}

/// `queue` with `path` taken out if it is queued, and put in at the end if it
/// is not.
pub open spec fn toggled(queue: Seq<Seq<char>>, path: Seq<char>) -> Seq<Seq<char>> {
    if queue.contains(path) {
        without(queue, path)
    } else {
        queue.push(path)
    }
}

/// In a queue that holds no path twice, a path is found at one index only.
pub proof fn lemma_index_of_distinct(queue: Seq<Seq<char>>, i: int)
    requires
        queue.no_duplicates(),
        0 <= i < queue.len(),
    ensures
        queue.contains(queue[i]),
        queue.index_of(queue[i]) == i,
{
    assert(queue.contains(queue[i]));
}

/// What a queue holds once a path is taken out: every other path that it held,
/// still without one twice.
pub proof fn lemma_without(queue: Seq<Seq<char>>, path: Seq<char>)
    requires
        queue.no_duplicates(),
    ensures
        without(queue, path).no_duplicates(),
        forall|other: Seq<char>|
            #[trigger] without(queue, path).contains(other) <==> queue.contains(other) && other
                != path,
{
    let rest = without(queue, path);
    if queue.contains(path) {
        let at = queue.index_of(path);
        assert forall|other: Seq<char>| #[trigger] rest.contains(other) implies queue.contains(
            other,
        ) && other != path by {
            let k = choose|k: int| 0 <= k < rest.len() && rest[k] == other;
            if k < at {
                assert(queue[k] == other);
            } else {
                assert(queue[k + 1] == other);
            }
        }
        assert forall|other: Seq<char>| queue.contains(other) && other != path implies 
            #[trigger] rest.contains(other) by {
            let k = choose|k: int| 0 <= k < queue.len() && queue[k] == other;
            if k < at {
                assert(rest[k] == other);
            } else {
                assert(rest[k - 1] == other);
            }
        }
        assert forall|i: int, j: int| 0 <= i < rest.len() && 0 <= j < rest.len() && i != j implies 
            rest[i] != rest[j] by {
            let qi = if i < at { i } else { i + 1 };
            let qj = if j < at { j } else { j + 1 };
            assert(rest[i] == queue[qi] && rest[j] == queue[qj]);
        }
    }
}

/// What a queue holds once a path is toggled: the path exactly if it did not
/// hold it, every other path exactly if it held it, and none twice.
pub proof fn lemma_toggled(queue: Seq<Seq<char>>, path: Seq<char>)
    requires
        queue.no_duplicates(),
    ensures
        toggled(queue, path).no_duplicates(),
        toggled(queue, path).contains(path) <==> !queue.contains(path),
        forall|other: Seq<char>|
            other != path ==> (#[trigger] toggled(queue, path).contains(other) <==> queue.contains(
                other,
            )),
{
    lemma_without(queue, path);
    if !queue.contains(path) {
        let more = queue.push(path);
        assert(more[queue.len() as int] == path);
        assert forall|other: Seq<char>| other != path implies (#[trigger] more.contains(other)
            <==> queue.contains(other)) by {
            if more.contains(other) {
                let k = choose|k: int| 0 <= k < more.len() && more[k] == other;
                assert(queue[k] == other);
            }
            if queue.contains(other) {
                let k = choose|k: int| 0 <= k < queue.len() && queue[k] == other;
                assert(more[k] == other);
            }
        }
        assert forall|i: int, j: int| 0 <= i < more.len() && 0 <= j < more.len() && i != j implies 
            more[i] != more[j] by {
            if i == queue.len() {
                assert(queue[j] == more[j]);
            } else if j == queue.len() {
                assert(queue[i] == more[i]);
            }
        }
    }
}

/// Toggling a path twice leaves the set of queued paths as it was; where the
/// path was not queued, the queue itself is as it was.
pub proof fn lemma_toggle_twice(queue: Seq<Seq<char>>, path: Seq<char>)
    requires
        queue.no_duplicates(),
    ensures
        toggled(toggled(queue, path), path).to_set() == queue.to_set(),
        toggled(toggled(queue, path), path).no_duplicates(),
        !queue.contains(path) ==> toggled(toggled(queue, path), path) == queue,
{
    let once = toggled(queue, path);
    let twice = toggled(once, path);
    lemma_toggled(queue, path);
    lemma_toggled(once, path);
    assert forall|other: Seq<char>| twice.to_set().contains(other) <==> queue.to_set().contains(
        other,
    ) by {
        if other == path {
            assert(twice.contains(path) <==> !once.contains(path));
        } else {
            assert(twice.contains(other) <==> once.contains(other));
            assert(once.contains(other) <==> queue.contains(other));
        }
    }
    assert(twice.to_set() =~= queue.to_set());
    if !queue.contains(path) {
        assert(once[queue.len() as int] == path);
        lemma_index_of_distinct(once, queue.len() as int);
        assert(once.remove(queue.len() as int) == queue);
    }
}

/// The paths that are marked for deletion: no path twice, in the order in
/// which they were marked.
pub struct QueuedSet {
    paths: Vec<String>,
}

impl View for QueuedSet {
    type V = Seq<Seq<char>>;

    closed spec fn view(&self) -> Seq<Seq<char>> {
        text_views(self.paths@)
    }
}

impl QueuedSet {
    #[verifier::type_invariant]
    spec fn distinct(self) -> bool {
        text_views(self.paths@).no_duplicates()
    }

    /// A queue without paths.
    pub fn new() -> (queue: QueuedSet)
        ensures
            queue@ == Seq::<Seq<char>>::empty(),
    {
        QueuedSet { paths: Vec::new() }
    }

    /// The queued paths, in the order in which they were marked; none occurs
    /// twice.
    pub fn paths(&self) -> (paths: &Vec<String>)
        ensures
            text_views(paths@) == self@,
            self@.no_duplicates(),
    {
        proof {
            use_type_invariant(self);
        }
        &self.paths
    }

    /// Number of queued paths.
    pub fn len(&self) -> (n: usize)
        ensures
            n == self@.len(),
    {
        self.paths.len()
    }

    /// Where in the queue `path` stands.
    fn position(&self, path: &str) -> (at: Option<usize>)
        ensures
            self@.no_duplicates(),
            match at {
                Some(i) => i < self@.len() && self@[i as int] == path@ && self@.contains(path@)
                    && self@.index_of(path@) == i,
                None => !self@.contains(path@),
            },
    {
        proof {
            use_type_invariant(self);
        }
        let mut i: usize = 0;
        while i < self.paths.len()
            invariant
                i <= self.paths.len(),
                self@.no_duplicates(),
                forall|j: int| 0 <= j < i ==> self@[j] != path@,
            decreases self.paths.len() - i,
        {
            assert(self@[i as int] == self.paths[i as int]@);
            if same_text(self.paths[i].as_str(), path) {
                proof {
                    lemma_index_of_distinct(self@, i as int);
                }
                return Some(i);
            }
            i = i + 1;
        }
        None
    }

    /// Whether `path` is queued.
    pub fn contains(&self, path: &str) -> (queued: bool)
        ensures
            queued == self@.contains(path@),
    {
        self.position(path).is_some()
    }

    /// Takes `path` out of the queue if it is there.
    pub fn remove(&mut self, path: &str)
        ensures
            final(self)@ == without(old(self)@, path@),
            final(self)@.no_duplicates(),
    {
        let at: Option<usize> = self.position(path);
        proof {
            lemma_without(self@, path@);
        }
        if let Some(i) = at {
            let mut paths: Vec<String> = Vec::new();
            std::mem::swap(&mut self.paths, &mut paths);
            let _ = paths.remove(i);
            assert(text_views(paths@) == old(self)@.remove(i as int));
            std::mem::swap(&mut self.paths, &mut paths);
        }
    }

    /// Takes `path` out of the queue if it is there, and puts it in if it is
    /// not.
    pub fn toggle(&mut self, path: String)
        ensures
            final(self)@ == toggled(old(self)@, path@),
            final(self)@.no_duplicates(),
    {
        let at: Option<usize> = self.position(path.as_str());
        proof {
            lemma_toggled(self@, path@);
        }
        let mut paths: Vec<String> = Vec::new();
        std::mem::swap(&mut self.paths, &mut paths);
        match at {
            Some(i) => {
                let _ = paths.remove(i);
                assert(text_views(paths@) == old(self)@.remove(i as int));
            },
            None => {
                paths.push(path);
                assert(text_views(paths@) == old(self)@.push(path@));
            },
        }
        std::mem::swap(&mut self.paths, &mut paths);
    }

    /// The queued paths in the order in which they are deleted.
    pub fn deletion_order(&self) -> (order: Vec<String>)
        ensures
            text_views(order@) == deletion_order_of(self@),
    {
        deletion_order(&self.paths)
    }
}

} // verus!
