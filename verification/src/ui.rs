//! What the screen shows, worked out from the state: texts, labels and the
//! places of the pop-up boxes. Drawing them is left to the caller.

use crate::app::App;
use crate::event::{event_name, get_event_name, Event};
use crate::fs::{dir_entry_to_string, DirectoryEntry};
use crate::queue::text_views;
use crate::text::push_char;
use vstd::prelude::*;

verus! {

/// A rectangle of terminal cells.
#[derive(Debug, Clone, Copy, PartialEq, Eq, Structural)]
pub struct Area {
    pub x: u16,
    pub y: u16,
    pub width: u16,
    pub height: u16,
}

/// How many scalar values of each component of a path a title shows.
pub const TITLE_COMPONENT_LEN: usize = 3;

/// Number of scalar values that stand between index `i` of `path` and the
/// nearest separator in front of it, or the start of the path.
pub open spec fn run_before(path: Seq<char>, separator: char, i: int) -> nat
    decreases i,
{
    if i <= 0 || i > path.len() || path[i - 1] == separator {
        0
    } else {
        run_before(path, separator, i - 1) + 1
    }
}

/// Whether a title shows the scalar value at index `i` of `path`: separators
/// always, and of each component the first three scalar values.
pub open spec fn in_title(path: Seq<char>, separator: char, i: int) -> bool {
    path[i] == separator || run_before(path, separator, i) < TITLE_COMPONENT_LEN
}

/// What a title shows of the first `n` scalar values of `path`.
pub open spec fn title_prefix(path: Seq<char>, separator: char, n: int) -> Seq<char>
    decreases n,
{
    if n <= 0 {
        Seq::empty()
    } else if in_title(path, separator, n - 1) {
        title_prefix(path, separator, n - 1).push(path[n - 1])
    } else {
        title_prefix(path, separator, n - 1)
    }
}

/// The title for `path`: the path with every component cut down to its first
/// three scalar values.
pub open spec fn title_of(path: Seq<char>, separator: char) -> Seq<char> {
    title_prefix(path, separator, path.len() as int)
}

/// What a `MainList` holds.
pub struct MainListView {
    pub current_path: Seq<char>,
    pub current_path_content: Seq<Seq<char>>,
}

/// The list of the entries of the current directory, ready to be drawn.
pub struct MainList {
    current_path: String,
    current_path_content: Vec<String>,
}

impl View for MainList {
    type V = MainListView;

    closed spec fn view(&self) -> MainListView {
        MainListView {
            current_path: self.current_path@,
            current_path_content: text_views(self.current_path_content@),
        }
    }
}

impl MainList {
    /// A list for the directory `current_path` with one line for each text of
    /// `current_path_content`.
    pub fn new(current_path: String, current_path_content: Vec<String>) -> (list: MainList)
        ensures
            list@ == (MainListView {
                current_path: current_path@,
                current_path_content: text_views(current_path_content@),
            }),
    {
        MainList { current_path, current_path_content }
    }

    /// The path of the directory.
    pub fn current_path(&self) -> (path: &str)
        ensures
            path@ == self@.current_path,
    {
        self.current_path.as_str()
    }

    /// The lines of the list.
    pub fn content(&self) -> (lines: &Vec<String>)
        ensures
            text_views(lines@) == self@.current_path_content,
    {
        &self.current_path_content
    }

    /// The title for `current_path`: the path with every component cut down to
    /// its first three scalar values.
    pub fn title(current_path: &str, separator: char) -> (title: String)
        ensures
            title@ == title_of(current_path@, separator),
    {
        let mut title: String = String::new();
        let mut run: usize = 0;
        for c in it: current_path.chars()
            invariant
                it.seq() == current_path@,
                run <= TITLE_COMPONENT_LEN,
                run == run_before(current_path@, separator, it.index()) || (run
                    == TITLE_COMPONENT_LEN && run_before(current_path@, separator, it.index())
                    >= TITLE_COMPONENT_LEN),
                title@ == title_prefix(current_path@, separator, it.index()),
        {
            if c == separator {
                push_char(&mut title, c);
                run = 0;
            } else if run < TITLE_COMPONENT_LEN {
                push_char(&mut title, c);
                run = run + 1;
            }
        }
        title
    }
}

/// Where the list of commands is drawn inside `area`: the middle half of its
/// width and the middle third of its height.
pub open spec fn command_rect(area: Area) -> Area {
    Area {
        x: (area.width / 4) as u16,
        y: (area.height / 3) as u16,
        width: (area.width / 2) as u16,
        height: (area.height / 3) as u16,
    }
}

/// What a `CommandPicker` holds: the labels of the commands.
pub struct CommandPicker {
    commands: Vec<String>,
}

impl View for CommandPicker {
    type V = Seq<Seq<char>>;

    closed spec fn view(&self) -> Seq<Seq<char>> {
        text_views(self.commands@)
    }
}

impl CommandPicker {
    /// A list with one line for each text of `commands`.
    pub fn new(commands: Vec<String>) -> (picker: CommandPicker)
        ensures
            picker@ == text_views(commands@),
    {
        CommandPicker { commands }
    }

    /// The lines of the list.
    pub fn commands(&self) -> (lines: &Vec<String>)
        ensures
            text_views(lines@) == self@,
    {
        &self.commands
    }

    /// Where the list is drawn inside `area`.
    pub fn get_rect(area: &Area) -> (rect: Area)
        ensures
            rect == command_rect(*area),
    {
        Area { x: area.width / 4, y: area.height / 3, width: area.width / 2, height: area.height / 3 }
    }
}

/// The labels of `events`, one for each.
pub open spec fn event_labels(events: Seq<Event>) -> Seq<Seq<char>> {
    events.map_values(|e: Event| event_name(e@))
}

/// The paths of `entries`, one for each.
pub open spec fn entry_labels(entries: Seq<DirectoryEntry>) -> Seq<Seq<char>> {
    entries.map_values(|e: DirectoryEntry| e.path@)
}

/// The list of commands as `ShowingCommands` mode shows it: the label of every
/// command on offer, in order.
pub fn command_picker(app: &App) -> (picker: CommandPicker)
    ensures
        picker@ == event_labels(app@.command_list.items),
{
    let events: &Vec<Event> = app.command_list.items();
    let mut labels: Vec<String> = Vec::new();
    let mut i: usize = 0;
    while i < events.len()
        invariant
            i <= events.len(),
            text_views(labels@) == event_labels(events@.take(i as int)),
        decreases events.len() - i,
    {
        let label: String = get_event_name(&events[i]);
        let ghost before = text_views(labels@);
        labels.push(label);
        assert(text_views(labels@) == before.push(label@));
        assert(event_labels(events@.take(i + 1)) == event_labels(events@.take(i as int)).push(
            event_name(events[i as int]@),
        ));
        i = i + 1;
    }
    assert(events@.take(events.len() as int) == events@);
    CommandPicker::new(labels)
}

/// The list of entries as `Normal` mode shows it while the process stands in
/// `cwd`: the path of every entry, in listing order.
pub fn main_list(app: &App, cwd: &str) -> (list: MainList)
    ensures
        list@ == (MainListView {
            current_path: cwd@,
            current_path_content: entry_labels(app@.navigation.entries.items),
        }),
{
    let entries: &Vec<DirectoryEntry> = app.navigation.entries.items();
    let mut labels: Vec<String> = Vec::new();
    let mut i: usize = 0;
    while i < entries.len()
        invariant
            i <= entries.len(),
            text_views(labels@) == entry_labels(entries@.take(i as int)),
        decreases entries.len() - i,
    {
        let label: String = dir_entry_to_string(&entries[i]);
        let ghost before = text_views(labels@);
        labels.push(label);
        assert(text_views(labels@) == before.push(label@));
        assert(entry_labels(entries@.take(i + 1)) == entry_labels(entries@.take(i as int)).push(
            entries[i as int].path@,
        ));
        i = i + 1;
    }
    assert(entries@.take(entries.len() as int) == entries@);
    MainList::new(cwd.to_owned(), labels)
}

/// How many columns `tui_input::Input::visual_scroll` scrolls a field of
/// `width` columns that holds `text` with the cursor at its end.
pub uninterp spec fn visual_scroll_of(text: Seq<char>, width: nat) -> nat;

/// `tui_input::Input::new` and `Input::visual_scroll`: the number of display
/// columns by which a field that is `width` columns wide has to scroll so that
/// the cursor, which stands behind the last scalar value of `text`, is in
/// sight. The contract only gives the result its name.
#[verifier::external_body]
fn visual_scroll(text: &str, width: usize) -> (columns: usize)
    ensures
        columns == visual_scroll_of(text@, width as nat),
{
    tui_input::Input::new(text.to_owned()).visual_scroll(width)
}

/// Where the text prompt is drawn inside `area`: three rows high, at the
/// middle half of the width, a third of the height down.
pub open spec fn prompt_rect(area: Area) -> Area {
    Area { x: (area.width / 4) as u16, y: (area.height / 3) as u16, width: (area.width / 2) as u16, height: 3 }
}

/// How many columns of a box are left for text between its two borders.
pub open spec fn inner_width(rect: Area) -> nat {
    if rect.width >= 2 {
        (rect.width - 2) as nat
    } else {
        0
    }
}

/// The text prompt of `Creating` mode, ready to be drawn.
#[derive(Debug, Clone, Copy, PartialEq, Eq, Structural)]
pub struct Prompt {
    /// Where the box is drawn.
    pub rect: Area,
    /// By how many columns the text is scrolled to the left.
    pub scroll: u16,
}

/// The prompt in `area`, given the number of columns that the text has to
/// scroll. The scroll is cut down to sixteen bits.
pub fn prompt_with_scroll(area: &Area, columns: usize) -> (prompt: Prompt)
    ensures
        prompt.rect == prompt_rect(*area),
        prompt.scroll == columns % 0x1_0000,
{
    let rect: Area = Area { x: area.width / 4, y: area.height / 3, width: area.width / 2, height: 3 };
    let scroll: u16 = (columns % 0x1_0000) as u16;
    Prompt { rect, scroll }
}

/// The prompt for `text` in `area`: the box, and the scroll that keeps the end
/// of the text in sight between the borders of the box.
pub fn prompt(area: &Area, text: &str) -> (prompt: Prompt)
    ensures
        prompt.rect == prompt_rect(*area),
        prompt.scroll == visual_scroll_of(text@, inner_width(prompt_rect(*area))) % 0x1_0000,
{
    let width: u16 = area.width / 2;
    let inner: u16 = if width >= 2 {
        width - 2
    } else {
        0
    };
    let columns: usize = visual_scroll(text, inner as usize);
    prompt_with_scroll(area, columns)
}

} // verus!
