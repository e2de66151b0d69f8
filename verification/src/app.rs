//! The state of the browser and the rules by which it changes.
//!
//! The state never touches the file system. An event that needs the file
//! system to act yields an [`Effect`]; whoever drives the browser carries it
//! out and reports how it went, which may yield the next effect. Until the
//! answer to an effect is in, further events are dropped.

use crate::event::{
    command_catalog, event_views, get_command_picker_events, replayable, Event, EventView, Mode,
};
use crate::fs::{
    content_of, creation_plan, get_content, get_delimiter, path_parent, CreationPlanView,
    DirectoryEntry,
};
use crate::navigation::{DeletionPlanView, NavView, NavigationState};
use crate::queue::{text_views, without};
use crate::selection::{ListView, SelectionList};
use crate::text::{TextEditor, TextView};
use vstd::prelude::*;

verus! {

/// What is to be done on the file system.
#[derive(Debug, PartialEq, Eq)]
pub enum Effect {
    /// Nothing.
    Nothing,
    /// Make the path the working directory of the process.
    ChangeDirectory(String),
    /// Create the directory at the path, with every ancestor that is missing.
    CreateDirectories(String),
    /// Create an empty file at the path.
    CreateFile(String),
    /// Remove the file at the path, or the directory with all that it holds.
    Delete(String),
}

/// An `Effect` with its path as a sequence of scalar values.
pub enum EffectView {
    Nothing,
    ChangeDirectory(Seq<char>),
    CreateDirectories(Seq<char>),
    CreateFile(Seq<char>),
    Delete(Seq<char>),
}

impl View for Effect {
    type V = EffectView;

    open spec fn view(&self) -> EffectView {
        match *self {
            Effect::Nothing => EffectView::Nothing,
            Effect::ChangeDirectory(path) => EffectView::ChangeDirectory(path@),
            Effect::CreateDirectories(path) => EffectView::CreateDirectories(path@),
            Effect::CreateFile(path) => EffectView::CreateFile(path@),
            Effect::Delete(path) => EffectView::Delete(path@),
        }
    }
}

/// The effect whose outcome the browser is waiting for, with what is left to
/// do once it is known.
#[derive(Debug, PartialEq, Eq)]
pub enum Pending {
    /// No effect is under way.
    Idle,
    /// A move into a child or up to the parent.
    Navigation,
    /// The move out of the working directory before `items` are deleted.
    Departure { items: Vec<String> },
    /// The deletion of `items[next]`; the items in front of it are done.
    Deletion { items: Vec<String>, next: usize },
    /// The creation of the directories above the file `path`.
    ParentCreation { path: String },
    /// The creation of what the user typed: the last step of it.
    Creation,
}

/// A `Pending` with its paths as sequences of scalar values.
pub enum PendingView {
    Idle,
    Navigation,
    Departure { items: Seq<Seq<char>> },
    Deletion { items: Seq<Seq<char>>, next: nat },
    ParentCreation { path: Seq<char> },
    Creation,
}

impl View for Pending {
    type V = PendingView;

    open spec fn view(&self) -> PendingView {
        match *self {
            Pending::Idle => PendingView::Idle,
            Pending::Navigation => PendingView::Navigation,
            Pending::Departure { items } => PendingView::Departure { items: text_views(items@) },
            Pending::Deletion { items, next } => PendingView::Deletion {
                items: text_views(items@),
                next: next as nat,
            },
            Pending::ParentCreation { path } => PendingView::ParentCreation { path: path@ },
            Pending::Creation => PendingView::Creation,
        }
    }
}

/// What becomes of a queued path whose deletion failed.
#[derive(Debug, Clone, Copy, PartialEq, Eq, Structural)]
pub enum FailurePolicy {
    /// It stays queued, so that the deletion can be tried again.
    KeepQueued,
    /// It leaves the queue like a path that was deleted.
    Evict,
}

impl Default for FailurePolicy {
    fn default() -> (policy: FailurePolicy)
        ensures
            policy == FailurePolicy::KeepQueued,
    {
        FailurePolicy::KeepQueued
    }
}

/// What an `App` holds.
pub struct AppView {
    pub show_hidden: bool,
    pub should_quit: bool,
    pub mode: Mode,
    pub input: TextView,
    pub navigation: NavView,
    pub command_list: ListView<Event>,
    pub pending: PendingView,
    pub separator: char,
    pub on_failed_deletion: FailurePolicy,
}

impl AppView {
    /// Cursor and highlights are in range, and no path is queued twice.
    pub open spec fn wf(self) -> bool {
        self.input.wf() && self.navigation.wf() && self.command_list.wf()
    }

    /// The state in which a browser starts, but for the separator.
    pub open spec fn initial(self) -> bool {
        &&& !self.show_hidden
        &&& !self.should_quit
        &&& self.mode == Mode::Normal
        &&& self.input == TextView::cleared()
        &&& self.navigation == NavView::empty()
        &&& event_views(self.command_list.items) == command_catalog()
        &&& self.command_list.selected is None
        &&& self.pending is Idle
        &&& self.on_failed_deletion == FailurePolicy::KeepQueued
    }

    /// A fresh listing of the working directory comes in: what is shown of it
    /// replaces the entries, under the old highlight as far as it still fits.
    pub open spec fn update_content(self, listing: Seq<DirectoryEntry>) -> AppView {
        AppView {
            navigation: NavView {
                entries: self.navigation.entries.with_items(content_of(listing, self.show_hidden)),
                queued: self.navigation.queued,
            },
            ..self
        }
    }

    /// The browser is to end.
    pub open spec fn quit(self) -> AppView {
        AppView { should_quit: true, ..self }
    }

    /// The highlight of the list that the mode shows moves up.
    pub open spec fn move_up(self) -> AppView {
        match self.mode {
            Mode::Normal => AppView {
                navigation: NavView {
                    entries: self.navigation.entries.move_up(),
                    queued: self.navigation.queued,
                },
                ..self
            },
            Mode::ShowingCommands => AppView { command_list: self.command_list.move_up(), ..self },
            Mode::Creating => self,
        }
    }

    /// The highlight of the list that the mode shows moves down.
    pub open spec fn move_down(self) -> AppView {
        match self.mode {
            Mode::Normal => AppView {
                navigation: NavView {
                    entries: self.navigation.entries.move_down(),
                    queued: self.navigation.queued,
                },
                ..self
            },
            Mode::ShowingCommands => AppView {
                command_list: self.command_list.move_down(),
                ..self
            },
            Mode::Creating => self,
        }
    }

    /// Hidden entries are shown if they were not, and the other way round.
    pub open spec fn toggle_show_hidden(self) -> AppView {
        AppView { show_hidden: !self.show_hidden, ..self }
    }

    /// The command list opens, or closes if it was open.
    pub open spec fn toggle_show_commands(self) -> AppView {
        AppView {
            mode: if self.mode == Mode::ShowingCommands {
                Mode::Normal
            } else {
                Mode::ShowingCommands
            },
            ..self
        }
    }

    /// The text prompt opens on the path of the working directory.
    pub open spec fn change_to_creating_mode(self, cwd: Seq<char>) -> AppView {
        AppView { mode: Mode::Creating, input: TextView::seeded(cwd), ..self }
    }

    /// The text prompt closes and the text is dropped.
    pub open spec fn cancel_creation(self) -> AppView {
        AppView { mode: Mode::Normal, input: TextView::cleared(), ..self }
    }

    /// The first scalar value of `text` is typed; nothing where `text` is
    /// empty.
    pub open spec fn add_char(self, text: Seq<char>) -> AppView {
        if text.len() > 0 {
            AppView { input: self.input.insert(text[0]), ..self }
        } else {
            self
        }
    }

    /// The highlighted path enters or leaves the queue.
    pub open spec fn toggle_presence_on_queue(self) -> AppView {
        AppView { navigation: self.navigation.toggle_queue(), ..self }
    }

    /// A move to `target` is asked for; nothing happens where there is none.
    pub open spec fn change_directory(self, target: Option<Seq<char>>) -> (AppView, EffectView) {
        match target {
            Some(path) => (
                AppView { pending: PendingView::Navigation, ..self },
                EffectView::ChangeDirectory(path),
            ),
            None => (self, EffectView::Nothing),
        }
    }

    /// The deletion of `items` starts with the first of them; there is nothing
    /// to do where there is none.
    pub open spec fn delete_all(self, items: Seq<Seq<char>>) -> (AppView, EffectView) {
        if items.len() > 0 {
            (
                AppView { pending: PendingView::Deletion { items: items, next: 0 }, ..self },
                EffectView::Delete(items[0]),
            )
        } else {
            (AppView { pending: PendingView::Idle, ..self }, EffectView::Nothing)
        }
    }

    /// The deletion that `plan` describes begins: with the move out of the
    /// working directory where the plan asks for one, else with the first item.
    pub open spec fn begin_deletion(self, plan: DeletionPlanView) -> (AppView, EffectView) {
        match plan.leave_to {
            Some(parent) => (
                AppView { pending: PendingView::Departure { items: plan.items }, ..self },
                EffectView::ChangeDirectory(parent),
            ),
            None => self.delete_all(plan.items),
        }
    }

    /// The deletion of the queued paths is asked for while the process stands
    /// in `cwd`. Where `cwd` is queued and has a parent, the move to the parent
    /// comes first.
    pub open spec fn delete_queued_items(self, cwd: Seq<char>) -> (AppView, EffectView) {
        self.begin_deletion(self.navigation.deletion_plan(cwd))
    }

    /// The creation of what was typed is asked for. The mode and the text
    /// stay until the creation has succeeded.
    pub open spec fn create_items(self) -> (AppView, EffectView) {
        match creation_plan(self.input.text, self.separator) {
            CreationPlanView::Directory { path } => (
                AppView { pending: PendingView::Creation, ..self },
                EffectView::CreateDirectories(path),
            ),
            CreationPlanView::File { parent: Some(parent), path } => (
                AppView { pending: PendingView::ParentCreation { path: path }, ..self },
                EffectView::CreateDirectories(parent),
            ),
            CreationPlanView::File { parent: None, path } => (
                AppView { pending: PendingView::Creation, ..self },
                EffectView::CreateFile(path),
            ),
        }
    }

    /// What any event but `ExecuteCommand` does.
    pub open spec fn handle_plain(self, event: EventView, cwd: Seq<char>) -> (AppView, EffectView) {
        match event {
            EventView::DeleteChar => (
                AppView { input: self.input.delete_before_cursor(), ..self },
                EffectView::Nothing,
            ),
            EventView::MoveLeft => (
                AppView { input: self.input.move_left(), ..self },
                EffectView::Nothing,
            ),
            EventView::MoveRight => (
                AppView { input: self.input.move_right(), ..self },
                EffectView::Nothing,
            ),
            EventView::AddChar(text) => (self.add_char(text), EffectView::Nothing),
            EventView::Quit => (self.quit(), EffectView::Nothing),
            EventView::MoveUp => (self.move_up(), EffectView::Nothing),
            EventView::MoveDown => (self.move_down(), EffectView::Nothing),
            EventView::MoveToParent => self.change_directory(path_parent(cwd)),
            EventView::MoveToChild => self.change_directory(self.navigation.child_target()),
            EventView::ToggleHidden => (self.toggle_show_hidden(), EffectView::Nothing),
            EventView::ToggleQueue => (self.toggle_presence_on_queue(), EffectView::Nothing),
            EventView::DeleteQueue => self.delete_queued_items(cwd),
            EventView::ToggleCommands => (self.toggle_show_commands(), EffectView::Nothing),
            EventView::ChangeToCreating => (self.change_to_creating_mode(cwd), EffectView::Nothing),
            EventView::ConfirmCreation => self.create_items(),
            EventView::CancelCreation => (self.cancel_creation(), EffectView::Nothing),
            EventView::ExecuteCommand => (self, EffectView::Nothing),
            EventView::Noop => (self, EffectView::Nothing),
        }
    }

    /// The highlighted command is carried out if the command list may carry it
    /// out, and the browser returns to `Normal` mode. Nothing happens where no
    /// command is highlighted.
    pub open spec fn execute_command(self, cwd: Seq<char>) -> (AppView, EffectView) {
        match self.command_list.selected_item() {
            Some(command) => {
                let (next, effect) = if replayable(command@) {
                    self.handle_plain(command@, cwd)
                } else {
                    (self, EffectView::Nothing)
                };
                (AppView { mode: Mode::Normal, ..next }, effect)
            },
            None => (self, EffectView::Nothing),
        }
    }

    /// What `event` does while the process stands in `cwd`: the next state and
    /// what is to be done on the file system. While the outcome of an effect
    /// is awaited, events do nothing.
    pub open spec fn handle(self, event: EventView, cwd: Seq<char>) -> (AppView, EffectView) {
        if !(self.pending is Idle) {
            (self, EffectView::Nothing)
        } else if event is ExecuteCommand {
            self.execute_command(cwd)
        } else {
            self.handle_plain(event, cwd)
        }
    }

    /// What happens once the outcome of the pending effect is known: the next
    /// state and what is to be done next.
    pub open spec fn resume(self, succeeded: bool) -> (AppView, EffectView) {
        let idle = AppView { pending: PendingView::Idle, ..self };
        match self.pending {
            PendingView::Idle => (self, EffectView::Nothing),
            PendingView::Navigation => if succeeded {
                (AppView { navigation: self.navigation.entered(), ..idle }, EffectView::Nothing)
            } else {
                (idle, EffectView::Nothing)
            },
            PendingView::Departure { items } => if succeeded {
                AppView { navigation: self.navigation.entered(), ..idle }.delete_all(items)
            } else {
                (idle, EffectView::Nothing)
            },
            PendingView::Deletion { items, next } => if next < items.len() {
                let settled = if succeeded || self.on_failed_deletion == FailurePolicy::Evict {
                    AppView {
                        navigation: NavView {
                            entries: self.navigation.entries,
                            queued: without(self.navigation.queued, items[next as int]),
                        },
                        ..idle
                    }
                } else {
                    idle
                };
                if next + 1 < items.len() {
                    (
                        AppView {
                            pending: PendingView::Deletion { items: items, next: next + 1 },
                            ..settled
                        },
                        EffectView::Delete(items[next as int + 1]),
                    )
                } else {
                    (settled, EffectView::Nothing)
                }
            } else {
                (idle, EffectView::Nothing)
            },
            PendingView::ParentCreation { path } => if succeeded {
                (AppView { pending: PendingView::Creation, ..self }, EffectView::CreateFile(path))
            } else {
                (idle, EffectView::Nothing)
            },
            PendingView::Creation => if succeeded {
                (idle.cancel_creation(), EffectView::Nothing)
            } else {
                (idle, EffectView::Nothing)
            },
        }
    }
}

/// The state of the browser.
pub struct App {
    /// Whether listings show hidden entries.
    pub show_hidden: bool,
    /// Whether the browser is to end.
    pub should_quit: bool,
    pub mode: Mode,
    /// The text prompt of `Creating` mode.
    pub input: TextEditor,
    pub navigation: NavigationState,
    /// The commands that `ShowingCommands` mode offers.
    pub command_list: SelectionList<Event>,
    pub pending: Pending,
    /// The character that separates the components of a path.
    pub separator: char,
    pub on_failed_deletion: FailurePolicy,
}

impl View for App {
    type V = AppView;

    open spec fn view(&self) -> AppView {
        AppView {
            show_hidden: self.show_hidden,
            should_quit: self.should_quit,
            mode: self.mode,
            input: self.input@,
            navigation: self.navigation@,
            command_list: self.command_list@,
            pending: self.pending@,
            separator: self.separator,
            on_failed_deletion: self.on_failed_deletion,
        }
    }
}

impl App {
    /// The state in which a browser starts: `Normal` mode, nothing listed,
    /// queued or typed, the commands on offer, and failed deletions staying
    /// queued.
    pub fn with_args() -> (app: App)
        ensures
            app@.initial(),
            app@.wf(),
    {
        let mut command_list: SelectionList<Event> = SelectionList::new();
        command_list.set_items(get_command_picker_events());
        App {
            show_hidden: false,
            should_quit: false,
            mode: Mode::Normal,
            input: TextEditor::new(String::new()),
            navigation: NavigationState::new(),
            command_list,
            pending: Pending::Idle,
            separator: get_delimiter(),
            on_failed_deletion: FailurePolicy::KeepQueued,
        }
    }

    /// Whether no effect is under way, so that events are attended to.
    pub fn is_idle(&self) -> (idle: bool)
        ensures
            idle == (self@.pending is Idle),
    {
        match self.pending {
            Pending::Idle => true,
            _ => false,
        }
    }

    /// Takes in a fresh listing of the working directory: what is shown of it
    /// replaces the entries. The highlight stays where it was, or moves back
    /// onto the last entry if the listing has become shorter.
    pub fn update_content(&mut self, listing: Vec<DirectoryEntry>) -> (content: &Vec<
        DirectoryEntry,
    >)
        ensures
            final(self)@ == old(self)@.update_content(listing@),
            content@ == final(self)@.navigation.entries.items,
    {
        let content: Vec<DirectoryEntry> = get_content(listing, self.show_hidden);
        self.navigation.entries.set_items(content);
        self.navigation.entries.items()
    }
}

impl PendingView {
    /// An upper bound on the number of outcomes that are still awaited before
    /// the browser is idle again.
    pub open spec fn steps_left(self) -> nat {
        match self {
            PendingView::Idle => 0,
            PendingView::Navigation => 1,
            PendingView::Departure { items } => items.len() + 1,
            PendingView::Deletion { items, next } => if next < items.len() {
                (items.len() - next) as nat
            } else {
                1
            },
            PendingView::ParentCreation { path } => 2,
            PendingView::Creation => 1,
        }
    }
}

/// The mode that follows `mode` on `event`, where `has_command` says whether
/// the command list has a highlight.
pub open spec fn next_mode(mode: Mode, event: EventView, has_command: bool) -> Mode {
    match event {
        EventView::ChangeToCreating => Mode::Creating,
        EventView::CancelCreation => Mode::Normal,
        EventView::ToggleCommands => if mode == Mode::ShowingCommands {
            Mode::Normal
        } else {
            Mode::ShowingCommands
        },
        EventView::ExecuteCommand => if has_command {
            Mode::Normal
        } else {
            mode
        },
        _ => mode,
    }
}

/// An event that the command list may carry out changes neither the mode nor
/// the text that is being typed.
pub proof fn lemma_replay_keeps_mode_and_text(v: AppView, event: EventView, cwd: Seq<char>)
    requires
        replayable(event),
    ensures
        v.handle_plain(event, cwd).0.mode == v.mode,
        v.handle_plain(event, cwd).0.input == v.input,
{
}

/// The mode changes by these rules and no others: the prompt opens on
/// `ChangeToCreating` and closes on `CancelCreation`, the command list opens
/// and closes on `ToggleCommands`, and carrying out a highlighted command
/// always leads back to `Normal`. An event that is dropped changes nothing.
pub proof fn lemma_mode_after_event(v: AppView, event: EventView, cwd: Seq<char>)
    ensures
        v.pending is Idle ==> v.handle(event, cwd).0.mode == next_mode(
            v.mode,
            event,
            v.command_list.selected_item() is Some,
        ),
        !(v.pending is Idle) ==> v.handle(event, cwd) == (v, EffectView::Nothing),
{
    if v.pending is Idle && event is ExecuteCommand {
        match v.command_list.selected_item() {
            Some(command) => {
                if replayable(command@) {
                    lemma_replay_keeps_mode_and_text(v, command@, cwd);
                }
            },
            None => {},
        }
    }
}

/// An outcome changes mode and text only where it is the success of the last
/// step of a creation: that closes the prompt and drops the text.
pub proof fn lemma_mode_after_outcome(v: AppView, succeeded: bool)
    ensures
        v.pending is Creation && succeeded ==> v.resume(succeeded).0.mode == Mode::Normal
            && v.resume(succeeded).0.input == TextView::cleared(),
        !(v.pending is Creation && succeeded) ==> v.resume(succeeded).0.mode == v.mode
            && v.resume(succeeded).0.input == v.input,
{
}

/// Something is to be done on the file system exactly when the browser waits
/// for an outcome afterwards.
pub proof fn lemma_effect_iff_pending(v: AppView, event: EventView, cwd: Seq<char>)
    requires
        v.pending is Idle,
    ensures
        v.handle(event, cwd).1 is Nothing <==> v.handle(event, cwd).0.pending is Idle,
{
    if event is ExecuteCommand {
        match v.command_list.selected_item() {
            Some(command) => {
                lemma_plain_effect_iff_pending(v, command@, cwd);
            },
            None => {},
        }
    } else {
        lemma_plain_effect_iff_pending(v, event, cwd);
    }
}

/// The same for every event but `ExecuteCommand`.
pub proof fn lemma_plain_effect_iff_pending(v: AppView, event: EventView, cwd: Seq<char>)
    requires
        v.pending is Idle,
    ensures
        v.handle_plain(event, cwd).1 is Nothing <==> v.handle_plain(event, cwd).0.pending is Idle,
{
}

/// Every outcome brings the browser nearer to being idle, and what is to be
/// done next is nothing exactly when it is idle. So the chain of effects that
/// one event sets off comes to an end.
pub proof fn lemma_outcome_makes_progress(v: AppView, succeeded: bool)
    requires
        !(v.pending is Idle),
    ensures
        v.resume(succeeded).0.pending.steps_left() < v.pending.steps_left(),
        v.resume(succeeded).1 is Nothing <==> v.resume(succeeded).0.pending is Idle,
{
}

/// Whatever happens, the cursor stays inside the text, the highlights stay
/// inside their lists, and no path is queued twice.
pub proof fn lemma_state_stays_valid(
    v: AppView,
    event: EventView,
    cwd: Seq<char>,
    succeeded: bool,
    listing: Seq<DirectoryEntry>,
)
    requires
        v.wf(),
    ensures
        v.handle(event, cwd).0.wf(),
        v.resume(succeeded).0.wf(),
        v.update_content(listing).wf(),
{
    lemma_plain_stays_valid(v, event, cwd);
    match v.command_list.selected_item() {
        Some(command) => {
            lemma_plain_stays_valid(v, command@, cwd);
        },
        None => {},
    }
    match v.pending {
        PendingView::Deletion { items, next } => {
            if next < items.len() {
                crate::queue::lemma_without(v.navigation.queued, items[next as int]);
            }
        },
        _ => {},
    }
}

/// The same for every event but `ExecuteCommand`.
pub proof fn lemma_plain_stays_valid(v: AppView, event: EventView, cwd: Seq<char>)
    requires
        v.wf(),
    ensures
        v.handle_plain(event, cwd).0.wf(),
{
    match v.navigation.entries.selected_item() {
        Some(entry) => {
            crate::queue::lemma_toggled(v.navigation.queued, entry.path@);
        },
        None => {},
    }
}

/// Deleting while the working directory is itself queued: the move to its
/// parent comes first and nothing is touched yet. If the move fails, the
/// deletion is off and the queue is as it was. If it succeeds, the first entry
/// is highlighted and the deletion starts with the greatest file name.
pub proof fn lemma_queued_working_directory(v: AppView, cwd: Seq<char>, parent: Seq<char>)
    requires
        v.pending is Idle,
        v.navigation.queued.contains(cwd),
        path_parent(cwd) == Some(parent),
    ensures
        v.handle(EventView::DeleteQueue, cwd).1 == EffectView::ChangeDirectory(parent),
        v.handle(EventView::DeleteQueue, cwd).0.navigation == v.navigation,
        v.handle(EventView::DeleteQueue, cwd).0.resume(false) == (v, EffectView::Nothing),
        v.handle(EventView::DeleteQueue, cwd).0.resume(true).1 == EffectView::Delete(
            crate::order::deletion_order_of(v.navigation.queued)[0],
        ),
        v.handle(EventView::DeleteQueue, cwd).0.resume(true).0.navigation
            == v.navigation.entered(),
        crate::order::deletion_order_of(v.navigation.queued).contains(cwd),
{
    crate::order::lemma_deletion_order(v.navigation.queued);
    crate::order::lemma_deletion_order_contains(v.navigation.queued, cwd);
}

/// A deletion goes through its items one by one in their order: after the
/// outcome for one item the next one is asked for, and after the last one
/// nothing. A deleted path is no longer queued; one whose deletion failed is
/// still queued unless failed deletions are evicted.
pub proof fn lemma_deletion_step(v: AppView, items: Seq<Seq<char>>, next: nat, succeeded: bool)
    requires
        v.pending == (PendingView::Deletion { items: items, next: next }),
        next < items.len(),
        v.navigation.queued.no_duplicates(),
    ensures
        next + 1 < items.len() ==> v.resume(succeeded).1 == EffectView::Delete(
            items[next as int + 1],
        ) && v.resume(succeeded).0.pending == (PendingView::Deletion {
            items: items,
            next: next + 1,
        }),
        next + 1 == items.len() ==> v.resume(succeeded).1 is Nothing,
        succeeded || v.on_failed_deletion == FailurePolicy::Evict ==> !v.resume(
            succeeded,
        ).0.navigation.queued.contains(items[next as int]),
        !succeeded && v.on_failed_deletion == FailurePolicy::KeepQueued ==> v.resume(
            succeeded,
        ).0.navigation.queued == v.navigation.queued,
        forall|path: Seq<char>|
            path != items[next as int] ==> (#[trigger] v.resume(
                succeeded,
            ).0.navigation.queued.contains(path) <==> v.navigation.queued.contains(path)),
{
    crate::queue::lemma_without(v.navigation.queued, items[next as int]);
}

} // verus!
