//! Carrying out events on the state of the browser.

use crate::app::{App, Effect, FailurePolicy, Pending};
use crate::event::{in_reexecution_allow_list, Event, Mode};
use crate::fs::{create_path, CreationPlan};
use crate::navigation::{DeletionPlan, NavigationState};
use crate::text::TextEditor;
use vstd::prelude::*;

verus! {

/// Carries out `event` while the process stands in `cwd`, and says what is to
/// be done on the file system. How that went is reported with `resume`; until
/// then further events do nothing.
pub fn handle_event(event: &Event, app: &mut App, cwd: &str) -> (effect: Effect)
    ensures
        (final(app)@, effect@) == old(app)@.handle(event@, cwd@),
{
    if !app.is_idle() {
        return Effect::Nothing;
    }
    match event {
        Event::ExecuteCommand => execute_command(app, cwd),
        _ => handle_plain(event, app, cwd),
    }
}

/// Carries out any event but `ExecuteCommand`, which does nothing here.
fn handle_plain(event: &Event, app: &mut App, cwd: &str) -> (effect: Effect)
    ensures
        (final(app)@, effect@) == old(app)@.handle_plain(event@, cwd@),
{
    match event {
        Event::DeleteChar => {
            app.input.delete_before_cursor();
            Effect::Nothing
        },
        Event::MoveLeft => {
            app.input.move_left();
            Effect::Nothing
        },
        Event::MoveRight => {
            app.input.move_right();
            Effect::Nothing
        },
        Event::AddChar(c) => {
            add_char(&mut app.input, c.as_str());
            Effect::Nothing
        },
        Event::Quit => {
            quit(app);
            Effect::Nothing
        },
        Event::MoveUp => {
            move_up(app);
            Effect::Nothing
        },
        Event::MoveDown => {
            move_down(app);
            Effect::Nothing
        },
        Event::MoveToParent => move_to_parent(app, cwd),
        Event::MoveToChild => move_to_child(app),
        Event::ToggleHidden => {
            toggle_show_hidden(app);
            Effect::Nothing
        },
        Event::ToggleQueue => {
            toggle_presence_on_queue(app);
            Effect::Nothing
        },
        Event::DeleteQueue => delete_queued_items(app, cwd),
        Event::ToggleCommands => {
            toggle_show_commands(app);
            Effect::Nothing
        },
        Event::ChangeToCreating => {
            change_to_creating_mode(app, cwd);
            Effect::Nothing
        },
        Event::ConfirmCreation => create_items(app),
        Event::CancelCreation => {
            cancel_creation(app);
            Effect::Nothing
        },
        Event::ExecuteCommand => Effect::Nothing,
        Event::Noop => Effect::Nothing,
    }
}

/// Carries out the highlighted command, if the command list may carry it out,
/// and returns to `Normal` mode. Does nothing where no command is highlighted.
pub fn execute_command(app: &mut App, cwd: &str) -> (effect: Effect)
    ensures
        (final(app)@, effect@) == old(app)@.execute_command(cwd@),
{
    let command: Option<Event> = match app.command_list.selected_item() {
        Some(command) => Some(command.clone()),
        None => None,
    };
    match command {
        Some(command) => {
            let effect: Effect = if in_reexecution_allow_list(&command) {
                handle_plain(&command, app, cwd)
            } else {
                Effect::Nothing
            };
            app.mode = Mode::Normal;
            effect
        },
        None => Effect::Nothing,
    }
}

/// Asks for the creation of what was typed. Mode and text stay as they are
/// until the creation has succeeded.
pub fn create_items(app: &mut App) -> (effect: Effect)
    ensures
        (final(app)@, effect@) == old(app)@.create_items(),
{
    match create_path(app.input.text(), app.separator) {
        CreationPlan::Directory { path } => {
            app.pending = Pending::Creation;
            Effect::CreateDirectories(path)
        },
        CreationPlan::File { parent: Some(parent), path } => {
            app.pending = Pending::ParentCreation { path };
            Effect::CreateDirectories(parent)
        },
        CreationPlan::File { parent: None, path } => {
            app.pending = Pending::Creation;
            Effect::CreateFile(path)
        },
    }
}

/// Asks for a move to `target`, if there is one.
pub fn change_directory(app: &mut App, target: Option<String>) -> (effect: Effect)
    ensures
        (final(app)@, effect@) == old(app)@.change_directory(crate::fs::text_view(target)),
{
    match target {
        Some(path) => {
            app.pending = Pending::Navigation;
            Effect::ChangeDirectory(path)
        },
        None => Effect::Nothing,
    }
}

/// Asks for a move into the highlighted entry, if it is a directory.
pub fn move_to_child(app: &mut App) -> (effect: Effect)
    ensures
        (final(app)@, effect@) == old(app)@.change_directory(old(app)@.navigation.child_target()),
{
    let target: Option<String> = app.navigation.move_to_child();
    change_directory(app, target)
}

/// Asks for a move to the parent of `cwd`, if it has one.
pub fn move_to_parent(app: &mut App, cwd: &str) -> (effect: Effect)
    ensures
        (final(app)@, effect@) == old(app)@.change_directory(crate::fs::path_parent(cwd@)),
{
    let target: Option<String> = NavigationState::move_to_parent(cwd);
    change_directory(app, target)
}

/// Shows hidden entries if they were not shown, and the other way round.
pub fn toggle_show_hidden(app: &mut App)
    ensures
        final(app)@ == old(app)@.toggle_show_hidden(),
{
    app.show_hidden = !app.show_hidden;
}

/// Queues the highlighted path, or takes it out of the queue.
pub fn toggle_presence_on_queue(app: &mut App)
    ensures
        final(app)@ == old(app)@.toggle_presence_on_queue(),
{
    app.navigation.toggle_queue();
}

/// Begins the deletion that `plan` describes: with the move out of the working
/// directory where the plan asks for one, else with the first item.
pub fn begin_deletion(app: &mut App, plan: DeletionPlan) -> (effect: Effect)
    ensures
        (final(app)@, effect@) == old(app)@.begin_deletion(plan@),
{
    let DeletionPlan { leave_to, items } = plan;
    match leave_to {
        Some(parent) => {
            app.pending = Pending::Departure { items };
            Effect::ChangeDirectory(parent)
        },
        None => delete_all(app, items),
    }
}

/// Asks for the deletion of the queued paths while the process stands in
/// `cwd`. Where `cwd` is itself queued, the move to its parent is asked for
/// first, and nothing is deleted unless that move succeeds.
pub fn delete_queued_items(app: &mut App, cwd: &str) -> (effect: Effect)
    ensures
        (final(app)@, effect@) == old(app)@.delete_queued_items(cwd@),
{
    let plan: DeletionPlan = app.navigation.delete_queued(cwd);
    begin_deletion(app, plan)
}

/// Starts the deletion of `items_to_delete` with the first of them.
pub fn delete_all(app: &mut App, items_to_delete: Vec<String>) -> (effect: Effect)
    ensures
        (final(app)@, effect@) == old(app)@.delete_all(crate::queue::text_views(items_to_delete@)),
{
    if items_to_delete.len() > 0 {
        let first: String = items_to_delete[0].clone();
        assert(crate::queue::text_views(items_to_delete@)[0] == first@);
        app.pending = Pending::Deletion { items: items_to_delete, next: 0 };
        Effect::Delete(first)
    } else {
        app.pending = Pending::Idle;
        Effect::Nothing
    }
}

/// Opens the text prompt on `cwd`, with the cursor at its end.
pub fn change_to_creating_mode(app: &mut App, cwd: &str)
    ensures
        final(app)@ == old(app)@.change_to_creating_mode(cwd@),
{
    app.mode = Mode::Creating;
    app.input = TextEditor::new(cwd.to_owned());
}

/// Closes the text prompt and drops the text.
pub fn cancel_creation(app: &mut App)
    ensures
        final(app)@ == old(app)@.cancel_creation(),
{
    app.mode = Mode::Normal;
    app.input.clear();
}

/// Opens the command list, or closes it if it was open.
pub fn toggle_show_commands(app: &mut App)
    ensures
        final(app)@ == old(app)@.toggle_show_commands(),
{
    if app.mode != Mode::ShowingCommands {
        app.mode = Mode::ShowingCommands;
    } else {
        app.mode = Mode::Normal;
    }
}

/// Moves the highlight of the list that the mode shows one down.
pub fn move_down(app: &mut App)
    ensures
        final(app)@ == old(app)@.move_down(),
{
    if app.mode == Mode::Normal {
        app.navigation.entries.move_down();
    } else if app.mode == Mode::ShowingCommands {
        app.command_list.move_down();
    }
}

/// Moves the highlight of the list that the mode shows one up.
pub fn move_up(app: &mut App)
    ensures
        final(app)@ == old(app)@.move_up(),
{
    if app.mode == Mode::Normal {
        app.navigation.entries.move_up();
    } else if app.mode == Mode::ShowingCommands {
        app.command_list.move_up();
    }
}

/// Marks the browser as to end.
pub fn quit(app: &mut App)
    ensures
        final(app)@ == old(app)@.quit(),
{
    app.should_quit = true;
}

/// Types the first scalar value of `c` at the cursor; nothing where `c` is
/// empty.
pub fn add_char(input: &mut TextEditor, c: &str)
    ensures
        final(input)@ == (if c@.len() > 0 {
            old(input)@.insert(c@[0])
        } else {
            old(input)@
        }),
{
    if c.unicode_len() > 0 {
        input.insert(c.get_char(0));
    }
}

/// Takes in how the pending effect went, and says what is to be done next.
///
/// A move that succeeded highlights the first entry; one that failed changes
/// nothing. A move out of a queued working directory that failed calls the
/// deletion off. A deleted path leaves the queue, and so does one whose
/// deletion failed where failed deletions are evicted; either way the next
/// path follows. A creation that succeeded closes the text prompt; one that
/// failed leaves mode and text as they are.
pub fn resume(app: &mut App, succeeded: bool) -> (effect: Effect)
    ensures
        (final(app)@, effect@) == old(app)@.resume(succeeded),
{
    let mut pending: Pending = Pending::Idle;
    std::mem::swap(&mut app.pending, &mut pending);
    match pending {
        Pending::Idle => Effect::Nothing,
        Pending::Navigation => {
            if succeeded {
                app.navigation.entered();
            }
            Effect::Nothing
        },
        Pending::Departure { items } => {
            if succeeded {
                app.navigation.entered();
                delete_all(app, items)
            } else {
                Effect::Nothing
            }
        },
        Pending::Deletion { items, next } => {
            if next < items.len() {
                assert(crate::queue::text_views(items@)[next as int] == items[next as int]@);
                if succeeded || app.on_failed_deletion == FailurePolicy::Evict {
                    app.navigation.queued.remove(items[next].as_str());
                }
                if next + 1 < items.len() {
                    let path: String = items[next + 1].clone();
                    assert(crate::queue::text_views(items@)[next + 1] == path@);
                    app.pending = Pending::Deletion { items, next: next + 1 };
                    Effect::Delete(path)
                } else {
                    Effect::Nothing
                }
            } else {
                Effect::Nothing
            }
        },
        Pending::ParentCreation { path } => {
            if succeeded {
                app.pending = Pending::Creation;
                Effect::CreateFile(path)
            } else {
                Effect::Nothing
            }
        },
        Pending::Creation => {
            if succeeded {
                cancel_creation(app);
            }
            Effect::Nothing
        },
    }
}

} // verus!
