//! The order in which queued paths are deleted: by file name, the greatest
//! first.

use crate::fs::{file_name, path_file_name, text_view};
use crate::queue::text_views;
use vstd::prelude::*;
use vstd::utf8::encode_utf8;

verus! {

/// Byte sequences in dictionary order: `a` is a prefix of `b`, or has the
/// smaller byte where the two first differ.
pub open spec fn bytes_le(a: Seq<u8>, b: Seq<u8>) -> bool
    decreases a.len(),
{
    if a.len() == 0 {
        true
    } else if b.len() == 0 {
        false
    } else if a[0] != b[0] {
        a[0] < b[0]
    } else {
        bytes_le(a.drop_first(), b.drop_first())
    }
}

/// File names in the order in which they are compared: no name comes before
/// every name, and names go by the dictionary order of their UTF-8 bytes.
pub open spec fn name_le(a: Option<Seq<char>>, b: Option<Seq<char>>) -> bool {
    match (a, b) {
        (None, _) => true,
        (Some(_), None) => false,
        (Some(x), Some(y)) => bytes_le(encode_utf8(x), encode_utf8(y)),
    }
}

/// Of two byte sequences one is at most the other.
pub proof fn lemma_bytes_le_total(a: Seq<u8>, b: Seq<u8>)
    ensures
        bytes_le(a, b) || bytes_le(b, a),
    decreases a.len(),
{
    if a.len() > 0 && b.len() > 0 && a[0] == b[0] {
        lemma_bytes_le_total(a.drop_first(), b.drop_first());
    }
}

/// The dictionary order is transitive.
pub proof fn lemma_bytes_le_transitive(a: Seq<u8>, b: Seq<u8>, c: Seq<u8>)
    requires
        bytes_le(a, b),
        bytes_le(b, c),
    ensures
        bytes_le(a, c),
    decreases a.len(),
{
    if a.len() > 0 && b.len() > 0 && c.len() > 0 && a[0] == b[0] && b[0] == c[0] {
        lemma_bytes_le_transitive(a.drop_first(), b.drop_first(), c.drop_first());
    }
}

/// Of two file names one is at most the other.
pub proof fn lemma_name_le_total(a: Option<Seq<char>>, b: Option<Seq<char>>)
    ensures
        name_le(a, b) || name_le(b, a),
{
    if a is Some && b is Some {
        lemma_bytes_le_total(encode_utf8(a->0), encode_utf8(b->0));
    }
}

/// The order of file names is transitive.
pub proof fn lemma_name_le_transitive(
    a: Option<Seq<char>>,
    b: Option<Seq<char>>,
    c: Option<Seq<char>>,
)
    requires
        name_le(a, b),
        name_le(b, c),
    ensures
        name_le(a, c),
{
    if a is Some && b is Some && c is Some {
        lemma_bytes_le_transitive(encode_utf8(a->0), encode_utf8(b->0), encode_utf8(c->0));
    }
}

/// Whether `a` is at most `b` in dictionary order.
pub fn bytes_at_most(a: &[u8], b: &[u8]) -> (le: bool)
    ensures
        le == bytes_le(a@, b@),
{
    let mut i: usize = 0;
    assert(a@.skip(0) == a@ && b@.skip(0) == b@);
    while i < a.len() && i < b.len()
        invariant
            i <= a.len(),
            i <= b.len(),
            bytes_le(a@, b@) == bytes_le(a@.skip(i as int), b@.skip(i as int)),
        decreases a.len() - i,
    {
        assert(a@.skip(i as int)[0] == a@[i as int]);
        assert(b@.skip(i as int)[0] == b@[i as int]);
        if a[i] != b[i] {
            return a[i] < b[i];
        }
        assert(a@.skip(i as int).drop_first() == a@.skip(i + 1));
        assert(b@.skip(i as int).drop_first() == b@.skip(i + 1));
        i = i + 1;
    }
    assert(a@.skip(i as int).len() == a.len() - i);
    assert(b@.skip(i as int).len() == b.len() - i);
    i == a.len()
}

/// Whether the file name `a` is at most the file name `b`.
pub fn name_at_most(a: &Option<String>, b: &Option<String>) -> (le: bool)
    ensures
        le == name_le(text_view(*a), text_view(*b)),
{
    match a {
        None => true,
        Some(x) => match b {
            None => false,
            Some(y) => bytes_at_most(x.as_str().as_bytes(), y.as_str().as_bytes()),
        },
    }
}

/// A path together with the file name by which it is ordered.
pub struct NamedPath {
    pub name: Option<Seq<char>>,
    pub path: Seq<char>,
}

/// The view of a path that comes with its file name.
pub open spec fn named_view(item: (Option<String>, String)) -> NamedPath {
    NamedPath { name: text_view(item.0), path: item.1@ }
}

/// The views of paths that come with their file names.
pub open spec fn named_views(items: Seq<(Option<String>, String)>) -> Seq<NamedPath> {
    items.map_values(|item: (Option<String>, String)| named_view(item))
}

/// The paths of `items`, without their names.
pub open spec fn paths_of(items: Seq<NamedPath>) -> Seq<Seq<char>> {
    items.map_values(|item: NamedPath| item.path)
}

/// `paths`, each with the file name that it has.
pub open spec fn with_file_names(paths: Seq<Seq<char>>) -> Seq<NamedPath> {
    paths.map_values(|path: Seq<char>| NamedPath { name: path_file_name(path), path: path })
}

/// `sorted` with `item` put in behind every item whose name is at least its
/// own.
pub open spec fn insert_by_name(sorted: Seq<NamedPath>, item: NamedPath) -> Seq<NamedPath>
    decreases sorted.len(),
{
    if sorted.len() == 0 {
        seq![item]
    } else if name_le(item.name, sorted.last().name) {
        sorted.push(item)
    } else {
        insert_by_name(sorted.drop_last(), item).push(sorted.last())
    }
}

/// `items` by name, the greatest first; items with names that compare equal
/// stay in the order in which they came.
pub open spec fn sorted_by_name(items: Seq<NamedPath>) -> Seq<NamedPath>
    decreases items.len(),
{
    if items.len() == 0 {
        Seq::empty()
    } else {
        insert_by_name(sorted_by_name(items.drop_last()), items.last())
    }
}

/// The order in which queued paths are deleted: by file name, the greatest
/// first; paths with file names that compare equal stay in the order in which
/// they were queued.
pub open spec fn deletion_order_of(queue: Seq<Seq<char>>) -> Seq<Seq<char>> {
    paths_of(sorted_by_name(with_file_names(queue)))
}

/// Whether the names of `items` never grow from one item to the next.
pub open spec fn descending_by_name(items: Seq<NamedPath>) -> bool {
    forall|i: int, j: int|
        0 <= i < j < items.len() ==> name_le((#[trigger] items[j]).name, (#[trigger] items[i]).name)
}

/// Whether the file names of `paths` never grow from one path to the next.
pub open spec fn descending_by_file_name(paths: Seq<Seq<char>>) -> bool {
    forall|i: int, j: int|
        0 <= i < j < paths.len() ==> name_le(
            path_file_name(#[trigger] paths[j]),
            path_file_name(#[trigger] paths[i]),
        )
}

/// Whether `first` stands somewhere in front of `second` in `items`.
pub open spec fn stands_before<T>(items: Seq<T>, first: T, second: T) -> bool {
    exists|i: int, j: int|
        0 <= i < j < items.len() && #[trigger] items[i] == first && #[trigger] items[j] == second
}

/// Where `insert_by_name` puts an item: at the one position that has only
/// names at least its own in front and only smaller ones behind.
pub proof fn lemma_insert_by_name_at(sorted: Seq<NamedPath>, item: NamedPath, at: int)
    requires
        0 <= at <= sorted.len(),
        at > 0 ==> name_le(item.name, sorted[at - 1].name),
        forall|j: int| at <= j < sorted.len() ==> !name_le(item.name, (#[trigger] sorted[j]).name),
    ensures
        insert_by_name(sorted, item) == sorted.insert(at, item),
    decreases sorted.len() - at,
{
    if sorted.len() == 0 {
        assert(sorted.insert(at, item) == seq![item]);
    } else if at == sorted.len() {
        assert(sorted.insert(at, item) == sorted.push(item));
    } else {
        assert(!name_le(item.name, sorted[sorted.len() - 1].name));
        assert forall|j: int| at <= j < sorted.drop_last().len() implies !name_le(
            item.name,
            (#[trigger] sorted.drop_last()[j]).name,
        ) by {
            assert(sorted.drop_last()[j] == sorted[j]);
        }
        lemma_insert_by_name_at(sorted.drop_last(), item, at);
        assert(sorted.insert(at, item) == sorted.drop_last().insert(at, item).push(
            sorted.last(),
        ));
    }
}

/// The position at which `insert_by_name` puts `item`: every item from there
/// on has a smaller name than `item`, and the one in front of it has not.
pub proof fn lemma_insert_position(sorted: Seq<NamedPath>, item: NamedPath) -> (at: int)
    ensures
        0 <= at <= sorted.len(),
        insert_by_name(sorted, item) == sorted.insert(at, item),
        at > 0 ==> name_le(item.name, sorted[at - 1].name),
        forall|j: int| at <= j < sorted.len() ==> !name_le(item.name, (#[trigger] sorted[j]).name),
    decreases sorted.len(),
{
    let at = if sorted.len() == 0 {
        0
    } else if name_le(item.name, sorted.last().name) {
        sorted.len() as int
    } else {
        lemma_insert_position(sorted.drop_last(), item)
    };
    assert forall|j: int| at <= j < sorted.len() implies !name_le(
        item.name,
        (#[trigger] sorted[j]).name,
    ) by {
        if j < sorted.len() - 1 {
            assert(sorted[j] == sorted.drop_last()[j]);
        }
    }
    if 0 < at < sorted.len() {
        assert(sorted[at - 1] == sorted.drop_last()[at - 1]);
    }
    lemma_insert_by_name_at(sorted, item, at);
    at
}

/// Putting an item into a descending sequence leaves it descending, and adds
/// that one item to what it holds.
pub proof fn lemma_insert_by_name(sorted: Seq<NamedPath>, item: NamedPath)
    requires
        descending_by_name(sorted),
    ensures
        descending_by_name(insert_by_name(sorted, item)),
        insert_by_name(sorted, item).to_multiset() == sorted.to_multiset().insert(item),
        insert_by_name(sorted, item).len() == sorted.len() + 1,
{
    broadcast use vstd::seq_lib::group_to_multiset_ensures;

    let at = lemma_insert_position(sorted, item);
    let result = sorted.insert(at, item);
    assert forall|i: int, j: int| 0 <= i < j < result.len() implies name_le(
        (#[trigger] result[j]).name,
        (#[trigger] result[i]).name,
    ) by {
        if j < at {
            assert(result[i] == sorted[i] && result[j] == sorted[j]);
        } else if j == at {
            assert(result[i] == sorted[i]);
            if i < at - 1 {
                assert(name_le(sorted[at - 1].name, sorted[i].name));
                lemma_name_le_transitive(item.name, sorted[at - 1].name, sorted[i].name);
            }
        } else if i == at {
            assert(result[j] == sorted[j - 1]);
            lemma_name_le_total(item.name, sorted[j - 1].name);
        } else if i < at {
            assert(result[i] == sorted[i] && result[j] == sorted[j - 1]);
        } else {
            assert(result[i] == sorted[i - 1] && result[j] == sorted[j - 1]);
        }
    }
    assert(result.remove(at) == sorted);
    assert(result[at] == item);
    assert(result.to_multiset() =~= sorted.to_multiset().insert(item));
}

/// Sorting by name keeps every item as often as it came, and names never grow
/// along the result.
pub proof fn lemma_sorted_by_name(items: Seq<NamedPath>)
    ensures
        descending_by_name(sorted_by_name(items)),
        sorted_by_name(items).to_multiset() == items.to_multiset(),
        sorted_by_name(items).len() == items.len(),
    decreases items.len(),
{
    broadcast use vstd::seq_lib::group_to_multiset_ensures;

    if items.len() == 0 {
        assert(items == Seq::<NamedPath>::empty());
    } else {
        lemma_sorted_by_name(items.drop_last());
        lemma_insert_by_name(sorted_by_name(items.drop_last()), items.last());
        assert(items == items.drop_last().push(items.last()));
    }
}

/// An item that comes later than another one, with a name that is at most the
/// other's, stands behind the other one once sorted. So items with names that
/// compare equal stay in the order in which they came.
pub proof fn lemma_sorted_by_name_stable(items: Seq<NamedPath>, a: int, b: int)
    requires
        0 <= a < b < items.len(),
        name_le(items[b].name, items[a].name),
    ensures
        stands_before(sorted_by_name(items), items[a], items[b]),
    decreases items.len(),
{
    broadcast use vstd::seq_lib::group_to_multiset_ensures;

    let front = items.drop_last();
    let sorted = sorted_by_name(front);
    let at = lemma_insert_position(sorted, items.last());
    let result = sorted_by_name(items);
    assert(result == sorted.insert(at, items.last()));
    if b < items.len() - 1 {
        lemma_sorted_by_name_stable(front, a, b);
        let (i, j) = choose|i: int, j: int|
            0 <= i < j < sorted.len() && #[trigger] sorted[i] == front[a] && #[trigger] sorted[j]
                == front[b];
        let i2 = if i < at {
            i
        } else {
            i + 1
        };
        let j2 = if j < at {
            j
        } else {
            j + 1
        };
        assert(result[i2] == items[a] && result[j2] == items[b]);
    } else {
        lemma_sorted_by_name(front);
        assert(front[a] == items[a]);
        assert(front.contains(items[a]));
        assert(sorted.to_multiset().count(items[a]) > 0);
        assert(sorted.contains(items[a]));
        let i = choose|i: int| 0 <= i < sorted.len() && sorted[i] == items[a];
        assert(i < at);
        assert(result[i] == items[a] && result[at] == items[b]);
    }
}

/// Sorted by name, the queued paths still carry their own file names.
pub proof fn lemma_names_follow_paths(queue: Seq<Seq<char>>)
    ensures
        sorted_by_name(with_file_names(queue)) == with_file_names(deletion_order_of(queue)),
        deletion_order_of(queue).to_multiset() == queue.to_multiset(),
        deletion_order_of(queue).len() == queue.len(),
    decreases queue.len(),
{
    broadcast use vstd::seq_lib::group_to_multiset_ensures;

    let order = deletion_order_of(queue);
    if queue.len() == 0 {
        assert(with_file_names(queue) == Seq::<NamedPath>::empty());
        assert(order == Seq::<Seq<char>>::empty());
        assert(queue == Seq::<Seq<char>>::empty());
        assert(with_file_names(order) == Seq::<NamedPath>::empty());
    } else {
        let front = queue.drop_last();
        let last = queue.last();
        let item = NamedPath { name: path_file_name(last), path: last };
        lemma_names_follow_paths(front);
        assert(with_file_names(queue).drop_last() == with_file_names(front));
        assert(with_file_names(queue).last() == item);
        let sorted = sorted_by_name(with_file_names(front));
        let at = lemma_insert_position(sorted, item);
        let front_order = deletion_order_of(front);
        assert(order == front_order.insert(at, last));
        assert(sorted.insert(at, item) == with_file_names(order));
        assert(order.remove(at) == front_order);
        assert(order[at] == last);
        assert(queue == front.push(last));
        assert(order.to_multiset() =~= queue.to_multiset());
    }
}

/// The deletion order holds every queued path as often as the queue does, and
/// file names never grow along it.
pub proof fn lemma_deletion_order(queue: Seq<Seq<char>>)
    ensures
        descending_by_file_name(deletion_order_of(queue)),
        deletion_order_of(queue).to_multiset() == queue.to_multiset(),
        deletion_order_of(queue).len() == queue.len(),
{
    lemma_names_follow_paths(queue);
    lemma_sorted_by_name(with_file_names(queue));
    let order = deletion_order_of(queue);
    let sorted = with_file_names(order);
    assert forall|i: int, j: int| 0 <= i < j < order.len() implies name_le(
        path_file_name(#[trigger] order[j]),
        path_file_name(#[trigger] order[i]),
    ) by {
        assert(sorted[i].name == path_file_name(order[i]));
        assert(sorted[j].name == path_file_name(order[j]));
    }
}

/// The deletion order holds exactly the queued paths.
pub proof fn lemma_deletion_order_contains(queue: Seq<Seq<char>>, path: Seq<char>)
    ensures
        deletion_order_of(queue).contains(path) <==> queue.contains(path),
{
    broadcast use vstd::seq_lib::group_to_multiset_ensures;

    lemma_deletion_order(queue);
    assert(deletion_order_of(queue).to_multiset().count(path) == queue.to_multiset().count(path));
}

/// A path that is queued later than another one, with a file name that is at
/// most the other's, is deleted later than the other one. So paths with file
/// names that compare equal are deleted in the order in which they were queued.
pub proof fn lemma_deletion_order_stable(queue: Seq<Seq<char>>, a: int, b: int)
    requires
        0 <= a < b < queue.len(),
        name_le(path_file_name(queue[b]), path_file_name(queue[a])),
    ensures
        stands_before(deletion_order_of(queue), queue[a], queue[b]),
{
    let items = with_file_names(queue);
    lemma_sorted_by_name_stable(items, a, b);
    let sorted = sorted_by_name(items);
    let (i, j) = choose|i: int, j: int|
        0 <= i < j < sorted.len() && #[trigger] sorted[i] == items[a] && #[trigger] sorted[j]
            == items[b];
    let order = deletion_order_of(queue);
    assert(order[i] == queue[a] && order[j] == queue[b]);
}

/// `items` by name, the greatest first, without the names. Items with names
/// that compare equal stay in the order in which they came.
pub fn order_by_name(items: &Vec<(Option<String>, String)>) -> (paths: Vec<String>)
    ensures
        text_views(paths@) == paths_of(sorted_by_name(named_views(items@))),
{
    let mut paths: Vec<String> = Vec::new();
    let mut names: Vec<Option<String>> = Vec::new();
    let mut i: usize = 0;
    assert(named_views(items@).take(0) == Seq::<NamedPath>::empty());
    assert(text_views(paths@) == Seq::<Seq<char>>::empty());
    assert(paths_of(Seq::<NamedPath>::empty()) == Seq::<Seq<char>>::empty());
    while i < items.len()
        invariant
            i <= items.len(),
            names.len() == paths.len(),
            paths.len() == sorted_by_name(named_views(items@).take(i as int)).len(),
            forall|j: int|
                0 <= j < paths.len() ==> #[trigger] sorted_by_name(
                    named_views(items@).take(i as int),
                )[j] == (NamedPath { name: text_view(names[j]), path: paths[j]@ }),
        decreases items.len() - i,
    {
        let ghost sorted = sorted_by_name(named_views(items@).take(i as int));
        let ghost item = named_view(items[i as int]);
        let name: Option<String> = match &items[i].0 {
            Some(name) => Some(name.clone()),
            None => None,
        };
        let path: String = items[i].1.clone();
        let mut at: usize = paths.len();
        while at > 0 && !name_at_most(&name, &names[at - 1])
            invariant
                at <= paths.len(),
                names.len() == paths.len(),
                paths.len() == sorted.len(),
                text_view(name) == item.name,
                forall|j: int| 0 <= j < paths.len() ==> (#[trigger] sorted[j]).name == text_view(names[j]),
                forall|j: int| at <= j < sorted.len() ==> !name_le(item.name, (#[trigger] sorted[j]).name),
            decreases at,
        {
            at = at - 1;
        }
        proof {
            lemma_insert_by_name_at(sorted, item, at as int);
            assert(named_views(items@).take(i + 1).drop_last() == named_views(items@).take(
                i as int,
            ));
            assert(named_views(items@).take(i + 1).last() == item);
        }
        paths.insert(at, path);
        names.insert(at, name);
        i = i + 1;
    }
    assert(named_views(items@).take(items.len() as int) == named_views(items@));
    assert(text_views(paths@) =~= paths_of(sorted_by_name(named_views(items@))));
    paths
}

/// The paths of `queue` in the order in which they are deleted.
pub fn deletion_order(queue: &Vec<String>) -> (order: Vec<String>)
    ensures
        text_views(order@) == deletion_order_of(text_views(queue@)),
{
    let mut items: Vec<(Option<String>, String)> = Vec::new();
    let mut i: usize = 0;
    while i < queue.len()
        invariant
            i <= queue.len(),
            named_views(items@) == with_file_names(text_views(queue@).take(i as int)),
        decreases queue.len() - i,
    {
        let name: Option<String> = file_name(queue[i].as_str());
        let path: String = queue[i].clone();
        let ghost before = named_views(items@);
        items.push((name, path));
        assert(named_views(items@) == before.push(
            NamedPath { name: path_file_name(queue[i as int]@), path: queue[i as int]@ },
        ));
        assert(text_views(queue@).take(i + 1) == text_views(queue@).take(i as int).push(
            queue[i as int]@,
        ));
        i = i + 1;
    }
    assert(text_views(queue@).take(queue.len() as int) == text_views(queue@));
    order_by_name(&items)
}

} // verus!
