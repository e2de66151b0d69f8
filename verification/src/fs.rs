//! Paths and directory listings as the browser sees them.
//!
//! Paths are kept as text. Nothing here touches the file system: a listing is
//! handed in, and what has to be created or removed is handed out as a plan.

use vstd::prelude::*;

verus! {

/// The final component of `path` as `std::path::Path::file_name` reports it
/// on the platform that the library is built for.
pub uninterp spec fn path_file_name(path: Seq<char>) -> Option<Seq<char>>;

/// `path` without its final component as `std::path::Path::parent` reports
/// it on the platform that the library is built for.
pub uninterp spec fn path_parent(path: Seq<char>) -> Option<Seq<char>>;

/// The view of an optional text.
pub open spec fn text_view(text: Option<String>) -> Option<Seq<char>> {
    match text {
        Some(t) => Some(t@),
        None => None,
    }
}

/// `std::path::Path::file_name`: the last component of `path`, or nothing
/// where the path ends in `..` or has no component at all. The contract only
/// gives the result its name.
#[verifier::external_body]
pub(crate) fn file_name(path: &str) -> (name: Option<String>)
    ensures
        text_view(name) == path_file_name(path@),
{
    match std::path::Path::new(path).file_name() {
        Some(name) => Some(name.to_string_lossy().into_owned()),
        None => None,
    }
}

/// `std::path::Path::parent`: `path` without its last component, or nothing
/// where the path ends in a root or is empty. The contract only gives the
/// result its name.
#[verifier::external_body]
pub(crate) fn parent(path: &str) -> (parent: Option<String>)
    ensures
        text_view(parent) == path_parent(path@),
{
    match std::path::Path::new(path).parent() {
        Some(parent) => Some(parent.to_string_lossy().into_owned()),
        None => None,
    }
}

/// `std::path::MAIN_SEPARATOR`: the character that separates the components
/// of a path on the platform that the library is built for. Nothing is claimed
/// of it.
#[verifier::external_body]
pub(crate) fn get_delimiter() -> (separator: char) {
    std::path::MAIN_SEPARATOR
}

/// One entry of a directory listing: where it is and whether it is a
/// directory, as seen when the listing was made.
#[derive(Debug, PartialEq, Eq)]
pub struct DirectoryEntry {
    pub path: String,
    pub is_dir: bool,
}

/// A `DirectoryEntry` with its path as a sequence of scalar values.
pub struct EntryView {
    pub path: Seq<char>,
    pub is_dir: bool,
}

impl View for DirectoryEntry {
    type V = EntryView;

    open spec fn view(&self) -> EntryView {
        EntryView { path: self.path@, is_dir: self.is_dir }
    }
}

impl Clone for DirectoryEntry {
    fn clone(&self) -> (copy: DirectoryEntry)
        ensures
            copy == *self,
    {
        DirectoryEntry { path: self.path.clone(), is_dir: self.is_dir }
    }
}

/// The text under which a listing shows `de`: its path.
pub fn dir_entry_to_string(de: &DirectoryEntry) -> (text: String)
    ensures
        text@ == de.path@,
{
    de.path.clone()
}

/// Whether a component with this name is hidden: it has a name, and the name
/// starts with a dot.
pub open spec fn is_dot_name(name: Option<Seq<char>>) -> bool {
    match name {
        Some(n) => n.len() > 0 && n[0] == '.',
        None => false,
    }
}

/// Whether the entry at `path` is hidden by its name.
pub open spec fn is_hidden_path(path: Seq<char>) -> bool {
    is_dot_name(path_file_name(path))
}

/// Whether a component with this name is hidden: it has a name, and the name
/// starts with a dot.
pub fn name_is_hidden(name: &Option<String>) -> (hidden: bool)
    ensures
        hidden == is_dot_name(text_view(*name)),
{
    match name {
        Some(n) => {
            let n: &str = n.as_str();
            n.unicode_len() > 0 && n.get_char(0) == '.'
        },
        None => false,
    }
}

/// Whether the entry at `path` is hidden by its name.
pub fn is_hidden(path: &str) -> (hidden: bool)
    ensures
        hidden == is_hidden_path(path@),
{
    let name: Option<String> = file_name(path);
    name_is_hidden(&name)
}

/// Whether the entry at `path` is shown even while hidden entries are not.
pub fn is_not_hidden(path: &str) -> (shown: bool)
    ensures
        shown == !is_hidden_path(path@),
{
    !is_hidden(path)
}

/// Whether a listing shows `entry`.
pub open spec fn is_listed(entry: DirectoryEntry, show_hidden: bool) -> bool {
    show_hidden || !is_hidden_path(entry.path@)
}

/// The entries of `listing` that are shown, in listing order.
pub open spec fn content_of(listing: Seq<DirectoryEntry>, show_hidden: bool) -> Seq<
    DirectoryEntry,
> {
    listing.filter(|entry: DirectoryEntry| is_listed(entry, show_hidden))
}

/// The entries of `listing` that are shown, in listing order: all of them when
/// `show_hidden` is set, else those that are not hidden.
pub fn get_content(listing: Vec<DirectoryEntry>, show_hidden: bool) -> (content: Vec<
    DirectoryEntry,
>)
    ensures
        content@ == content_of(listing@, show_hidden),
{
    let mut content: Vec<DirectoryEntry> = Vec::new();
    let mut i: usize = 0;
    assert(listing@.take(0) == Seq::<DirectoryEntry>::empty());
    assert(content_of(Seq::<DirectoryEntry>::empty(), show_hidden) == Seq::<
        DirectoryEntry,
    >::empty()) by {
        reveal(Seq::filter);
    }
    while i < listing.len()
        invariant
            i <= listing.len(),
            content@ == content_of(listing@.take(i as int), show_hidden),
        decreases listing.len() - i,
    {
        proof {
            reveal(Seq::filter);
            assert(listing@.take(i + 1).drop_last() == listing@.take(i as int));
        }
        if show_hidden || is_not_hidden(listing[i].path.as_str()) {
            content.push(listing[i].clone());
        }
        i = i + 1;
    }
    assert(listing@.take(listing.len() as int) == listing@);
    content
}

/// What has to be done to create what the user typed.
#[derive(Debug, PartialEq, Eq)]
pub enum CreationPlan {
    /// Create the directory at `path` with every ancestor that is missing.
    Directory { path: String },
    /// Create the directory `parent`, if there is one, with every ancestor that
    /// is missing, and then an empty file at `path`.
    File { parent: Option<String>, path: String },
}

/// A `CreationPlan` with its paths as sequences of scalar values.
pub enum CreationPlanView {
    Directory { path: Seq<char> },
    File { parent: Option<Seq<char>>, path: Seq<char> },
}

impl View for CreationPlan {
    type V = CreationPlanView;

    open spec fn view(&self) -> CreationPlanView {
        match *self {
            CreationPlan::Directory { path } => CreationPlanView::Directory { path: path@ },
            CreationPlan::File { parent, path } => CreationPlanView::File {
                parent: text_view(parent),
                path: path@,
            },
        }
    }
}

/// What typed text asks for: a directory where it ends with the separator,
/// else a file under the parent that the path has.
pub open spec fn creation_plan(text: Seq<char>, separator: char) -> CreationPlanView {
    if text.len() > 0 && text.last() == separator {
        CreationPlanView::Directory { path: text }
    } else {
        CreationPlanView::File { parent: path_parent(text), path: text }
    }
}

/// Whether `text` ends with `separator`.
pub fn ends_with_separator(text: &str, separator: char) -> (ends: bool)
    ensures
        ends == (text@.len() > 0 && text@.last() == separator),
{
    let n: usize = text.unicode_len();
    n > 0 && text.get_char(n - 1) == separator
}

/// Plans the creation of what `path` names, given the parent that the path
/// has: a directory where `path` ends with `separator`, else a file.
pub fn plan_creation(path: &str, separator: char, parent: Option<String>) -> (plan:
    CreationPlan)
    ensures
        plan@ == (if path@.len() > 0 && path@.last() == separator {
            CreationPlanView::Directory { path: path@ }
        } else {
            CreationPlanView::File { parent: text_view(parent), path: path@ }
        }),
{
    if ends_with_separator(path, separator) {
        CreationPlan::Directory { path: path.to_owned() }
    } else {
        CreationPlan::File { parent, path: path.to_owned() }
    }
}

/// Plans the creation of what `path` names.
pub fn create_path(path: &str, separator: char) -> (plan: CreationPlan)
    ensures
        plan@ == creation_plan(path@, separator),
{
    let parent: Option<String> = parent(path);
    plan_creation(path, separator, parent)
}

} // verus!
