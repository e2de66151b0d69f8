//! What the user can ask for, and which key asks for it in which mode.

use vstd::prelude::*;

pub mod handler;

verus! {

/// The interaction context. Exactly one is active at any time.
#[derive(Debug, Clone, Copy, PartialEq, Eq, Structural)]
pub enum Mode {
    /// Browsing the directory listing.
    Normal,
    /// Typing the path of a file or directory to create.
    Creating,
    /// Choosing from the list of commands.
    ShowingCommands,
}

impl Default for Mode {
    fn default() -> (mode: Mode)
        ensures
            mode == Mode::Normal,
    {
        Mode::Normal
    }
}

/// A key as the input layer reports it.
#[derive(Debug, Clone, Copy, PartialEq, Eq, Structural)]
pub enum Key {
    /// A key that produces a character.
    Char(char),
    Up,
    Down,
    Left,
    Right,
    Enter,
    Esc,
    Backspace,
    /// Any key that no mode gives a meaning to.
    Other,
}

/// An action that the user intends, independent of the key that asked for it.
#[derive(Debug, PartialEq, Eq)]
pub enum Event {
    Noop,
    DeleteChar,
    MoveLeft,
    MoveRight,
    /// Carries the text to type; only its first scalar value is used.
    AddChar(String),
    Quit,
    MoveUp,
    MoveDown,
    MoveToParent,
    MoveToChild,
    ToggleHidden,
    ToggleQueue,
    DeleteQueue,
    ToggleCommands,
    ChangeToCreating,
    ConfirmCreation,
    ExecuteCommand,
    CancelCreation,
}

/// An `Event` with its text as a sequence of scalar values.
pub enum EventView {
    Noop,
    DeleteChar,
    MoveLeft,
    MoveRight,
    AddChar(Seq<char>),
    Quit,
    MoveUp,
    MoveDown,
    MoveToParent,
    MoveToChild,
    ToggleHidden,
    ToggleQueue,
    DeleteQueue,
    ToggleCommands,
    ChangeToCreating,
    ConfirmCreation,
    ExecuteCommand,
    CancelCreation,
}

impl View for Event {
    type V = EventView;

    open spec fn view(&self) -> EventView {
        match *self {
            Event::Noop => EventView::Noop,
            Event::DeleteChar => EventView::DeleteChar,
            Event::MoveLeft => EventView::MoveLeft,
            Event::MoveRight => EventView::MoveRight,
            Event::AddChar(s) => EventView::AddChar(s@),
            Event::Quit => EventView::Quit,
            Event::MoveUp => EventView::MoveUp,
            Event::MoveDown => EventView::MoveDown,
            Event::MoveToParent => EventView::MoveToParent,
            Event::MoveToChild => EventView::MoveToChild,
            Event::ToggleHidden => EventView::ToggleHidden,
            Event::ToggleQueue => EventView::ToggleQueue,
            Event::DeleteQueue => EventView::DeleteQueue,
            Event::ToggleCommands => EventView::ToggleCommands,
            Event::ChangeToCreating => EventView::ChangeToCreating,
            Event::ConfirmCreation => EventView::ConfirmCreation,
            Event::ExecuteCommand => EventView::ExecuteCommand,
            Event::CancelCreation => EventView::CancelCreation,
        }
    }
}

impl Clone for Event {
    fn clone(&self) -> (copy: Event)
        ensures
            copy@ == self@,
    {
        match self {
            Event::Noop => Event::Noop,
            Event::DeleteChar => Event::DeleteChar,
            Event::MoveLeft => Event::MoveLeft,
            Event::MoveRight => Event::MoveRight,
            Event::AddChar(s) => Event::AddChar(s.clone()),
            Event::Quit => Event::Quit,
            Event::MoveUp => Event::MoveUp,
            Event::MoveDown => Event::MoveDown,
            Event::MoveToParent => Event::MoveToParent,
            Event::MoveToChild => Event::MoveToChild,
            Event::ToggleHidden => Event::ToggleHidden,
            Event::ToggleQueue => Event::ToggleQueue,
            Event::DeleteQueue => Event::DeleteQueue,
            Event::ToggleCommands => Event::ToggleCommands,
            Event::ChangeToCreating => Event::ChangeToCreating,
            Event::ConfirmCreation => Event::ConfirmCreation,
            Event::ExecuteCommand => Event::ExecuteCommand,
            Event::CancelCreation => Event::CancelCreation,
        }
    }
}

/// The views of a sequence of events.
pub open spec fn event_views(events: Seq<Event>) -> Seq<EventView> {
    events.map_values(|e: Event| e@)
}

/// The event that `key` stands for while `mode` is active. Every key has
/// exactly one meaning in every mode; most have none, which is `Noop`.
pub open spec fn event_for(mode: Mode, key: Key) -> EventView {
    match mode {
        Mode::Normal => match key {
            Key::Char('q') => EventView::Quit,
            Key::Up | Key::Char('j') => EventView::MoveUp,
            Key::Down | Key::Char('k') => EventView::MoveDown,
            Key::Left | Key::Char('h') => EventView::MoveToParent,
            Key::Right | Key::Char('l') => EventView::MoveToChild,
            Key::Char('.') => EventView::ToggleHidden,
            Key::Char(' ') => EventView::ToggleQueue,
            Key::Char('d') => EventView::DeleteQueue,
            Key::Char('n') => EventView::ChangeToCreating,
            Key::Char('?') => EventView::ToggleCommands,
            _ => EventView::Noop,
        },
        Mode::ShowingCommands => match key {
            Key::Esc | Key::Char('q') => EventView::ToggleCommands,
            Key::Up | Key::Char('j') => EventView::MoveUp,
            Key::Down | Key::Char('k') => EventView::MoveDown,
            Key::Enter => EventView::ExecuteCommand,
            _ => EventView::Noop,
        },
        Mode::Creating => match key {
            Key::Esc => EventView::CancelCreation,
            Key::Enter => EventView::ConfirmCreation,
            Key::Char(c) => EventView::AddChar(seq![c]),
            Key::Backspace => EventView::DeleteChar,
            Key::Left => EventView::MoveLeft,
            Key::Right => EventView::MoveRight,
            _ => EventView::Noop,
        },
    }
}

/// Whether some key asks for `event` while `mode` is active: browsing,
/// queueing and the two doors out of it in `Normal`; moving and choosing in
/// `ShowingCommands`; editing, confirming and cancelling in `Creating`.
pub open spec fn accepted_in(mode: Mode, event: EventView) -> bool {
    match mode {
        Mode::Normal => match event {
            EventView::Quit
            | EventView::MoveUp
            | EventView::MoveDown
            | EventView::MoveToParent
            | EventView::MoveToChild
            | EventView::ToggleHidden
            | EventView::ToggleQueue
            | EventView::DeleteQueue
            | EventView::ChangeToCreating
            | EventView::ToggleCommands
            | EventView::Noop => true,
            _ => false,
        },
        Mode::ShowingCommands => match event {
            EventView::ToggleCommands
            | EventView::MoveUp
            | EventView::MoveDown
            | EventView::ExecuteCommand
            | EventView::Noop => true,
            _ => false,
        },
        Mode::Creating => match event {
            EventView::CancelCreation
            | EventView::ConfirmCreation
            | EventView::AddChar(_)
            | EventView::DeleteChar
            | EventView::MoveLeft
            | EventView::MoveRight
            | EventView::Noop => true,
            _ => false,
        },
    }
}

/// A key never asks for an event that its mode does not accept. In
/// particular only `Normal` mode can be asked to quit, and only `Creating`
/// mode types: there every character key types its own character.
pub proof fn lemma_keys_respect_mode(mode: Mode, key: Key)
    ensures
        accepted_in(mode, event_for(mode, key)),
        event_for(mode, key) is Quit ==> mode == Mode::Normal,
        event_for(mode, key) is AddChar ==> mode == Mode::Creating,
        mode == Mode::Creating ==> forall|c: char|
            key == Key::Char(c) ==> event_for(mode, key) == EventView::AddChar(seq![c]),
{
}

/// The event that `code` stands for while `mode` is active.
pub fn get_event(mode: &Mode, code: &Key) -> (event: Event)
    ensures
        event@ == event_for(*mode, *code),
{
    match *mode {
        Mode::Normal => match *code {
            Key::Char('q') => Event::Quit,
            Key::Up | Key::Char('j') => Event::MoveUp,
            Key::Down | Key::Char('k') => Event::MoveDown,
            Key::Left | Key::Char('h') => Event::MoveToParent,
            Key::Right | Key::Char('l') => Event::MoveToChild,
            Key::Char('.') => Event::ToggleHidden,
            Key::Char(' ') => Event::ToggleQueue,
            Key::Char('d') => Event::DeleteQueue,
            Key::Char('n') => Event::ChangeToCreating,
            Key::Char('?') => Event::ToggleCommands,
            _ => Event::Noop,
        },
        Mode::ShowingCommands => match *code {
            Key::Esc | Key::Char('q') => Event::ToggleCommands,
            Key::Up | Key::Char('j') => Event::MoveUp,
            Key::Down | Key::Char('k') => Event::MoveDown,
            Key::Enter => Event::ExecuteCommand,
            _ => Event::Noop,
        },
        Mode::Creating => match *code {
            Key::Esc => Event::CancelCreation,
            Key::Enter => Event::ConfirmCreation,
            Key::Char(c) => {
                let mut text: String = String::new();
                proof {
                    assert(text@.subrange(0, 0) == Seq::<char>::empty());
                    assert(vstd::utf8::encode_utf8(Seq::<char>::empty()) == Seq::<u8>::empty());
                }
                text.insert(0, c);
                assert(text@ == seq![c]);
                Event::AddChar(text)
            },
            Key::Backspace => Event::DeleteChar,
            Key::Left => Event::MoveLeft,
            Key::Right => Event::MoveRight,
            _ => Event::Noop,
        },
    }
}

/// Every event that a key can ask for, but for the cancelling of a creation.
pub open spec fn all_events() -> Seq<EventView> {
    seq![
        EventView::Noop,
        EventView::DeleteChar,
        EventView::MoveLeft,
        EventView::MoveRight,
        EventView::AddChar(Seq::empty()),
        EventView::Quit,
        EventView::MoveUp,
        EventView::MoveDown,
        EventView::MoveToParent,
        EventView::MoveToChild,
        EventView::ToggleHidden,
        EventView::ToggleQueue,
        EventView::DeleteQueue,
        EventView::ToggleCommands,
        EventView::ChangeToCreating,
        EventView::ConfirmCreation,
        EventView::ExecuteCommand,
    ]
}

/// Every event that a key can ask for, but for the cancelling of a creation.
pub fn get_events() -> (events: [Event; 17])
    ensures
        event_views(events@) == all_events(),
{
    let events: [Event; 17] = [
        Event::Noop,
        Event::DeleteChar,
        Event::MoveLeft,
        Event::MoveRight,
        Event::AddChar(String::new()),
        Event::Quit,
        Event::MoveUp,
        Event::MoveDown,
        Event::MoveToParent,
        Event::MoveToChild,
        Event::ToggleHidden,
        Event::ToggleQueue,
        Event::DeleteQueue,
        Event::ToggleCommands,
        Event::ChangeToCreating,
        Event::ConfirmCreation,
        Event::ExecuteCommand,
    ];
    assert(event_views(events@) =~= all_events());
    events
}

/// The label under which the command list shows an event.
pub open spec fn event_name(event: EventView) -> Seq<char> {
    match event {
        EventView::DeleteChar => "delete char"@,
        EventView::MoveLeft => "move left"@,
        EventView::MoveRight => "move right"@,
        EventView::AddChar(_) => "add char"@,
        EventView::Quit => "(q) quit"@,
        EventView::MoveUp => "(↑ | k) move up"@,
        EventView::MoveDown => "(↓ | j) move down"@,
        EventView::MoveToParent => "(← | h) move to parent"@,
        EventView::MoveToChild => "(→ | l) move to child"@,
        EventView::ToggleHidden => "(.) toggle hidden"@,
        EventView::ToggleQueue => "(<Space>) toggle queue"@,
        EventView::DeleteQueue => "(d) delete queue"@,
        EventView::ToggleCommands => "(?) toggle commands"@,
        EventView::ChangeToCreating => "(n) create folder/file"@,
        EventView::ConfirmCreation => "(<Enter>) confirm creation"@,
        EventView::ExecuteCommand => "(<Enter>) execute command"@,
        EventView::CancelCreation => "(<Esc>) cancel creation"@,
        EventView::Noop => "noop"@,
    }
}

/// The label under which the command list shows `event`.
pub fn get_event_name(event: &Event) -> (name: String)
    ensures
        name@ == event_name(event@),
{
    let name: &str = match event {
        Event::DeleteChar => "delete char",
        Event::MoveLeft => "move left",
        Event::MoveRight => "move right",
        Event::AddChar(_) => "add char",
        Event::Quit => "(q) quit",
        Event::MoveUp => "(↑ | k) move up",
        Event::MoveDown => "(↓ | j) move down",
        Event::MoveToParent => "(← | h) move to parent",
        Event::MoveToChild => "(→ | l) move to child",
        Event::ToggleHidden => "(.) toggle hidden",
        Event::ToggleQueue => "(<Space>) toggle queue",
        Event::DeleteQueue => "(d) delete queue",
        Event::ToggleCommands => "(?) toggle commands",
        Event::ChangeToCreating => "(n) create folder/file",
        Event::ConfirmCreation => "(<Enter>) confirm creation",
        Event::ExecuteCommand => "(<Enter>) execute command",
        Event::CancelCreation => "(<Esc>) cancel creation",
        Event::Noop => "noop",
    };
    name.to_owned()
}

/// Whether the command list may carry out `event` a second time. Events that
/// change the mode, that edit or commit the text being typed, and the one that
/// does nothing are kept out, so that carrying one out can never lead back into
/// the command list or into the text prompt.
pub open spec fn replayable(event: EventView) -> bool {
    match event {
        EventView::Quit
        | EventView::MoveUp
        | EventView::MoveDown
        | EventView::MoveToParent
        | EventView::MoveToChild
        | EventView::ToggleHidden
        | EventView::ToggleQueue
        | EventView::DeleteQueue => true,
        _ => false,
    }
}

/// Whether the command list may carry out `event` a second time.
pub fn in_reexecution_allow_list(event: &Event) -> (allowed: bool)
    ensures
        allowed == replayable(event@),
{
    match event {
        Event::Quit
        | Event::MoveUp
        | Event::MoveDown
        | Event::MoveToParent
        | Event::MoveToChild
        | Event::ToggleHidden
        | Event::ToggleQueue
        | Event::DeleteQueue => true,
        _ => false,
    }
}

/// The events that the command list offers, in the order in which it shows
/// them.
pub open spec fn command_catalog() -> Seq<EventView> {
    all_events().filter(|e: EventView| replayable(e))
}

/// The events that the command list offers, in the order in which it shows
/// them.
pub fn get_command_picker_events() -> (events: Vec<Event>)
    ensures
        event_views(events@) == command_catalog(),
{
    let all: [Event; 17] = get_events();
    let mut events: Vec<Event> = Vec::new();
    let mut i: usize = 0;
    assert(all_events().take(0) == Seq::<EventView>::empty());
    assert(event_views(events@) == Seq::<EventView>::empty());
    while i < 17
        invariant
            i <= 17,
            event_views(all@) == all_events(),
            event_views(events@) == all_events().take(i as int).filter(
                |e: EventView| replayable(e),
            ),
        decreases 17 - i,
    {
        let ghost before = all_events().take(i as int);
        let ghost pred = |e: EventView| replayable(e);
        assert(all_events()[i as int] == all@[i as int]@);
        assert(all_events().take(i + 1) == before.push(all_events()[i as int]));
        proof {
            reveal(Seq::filter);
            assert(before.push(all_events()[i as int]).drop_last() == before);
        }
        if in_reexecution_allow_list(&all[i]) {
            let copy: Event = all[i].clone();
            let ghost old_events = events@;
            events.push(copy);
            assert(event_views(events@) == event_views(old_events).push(copy@));
        }
        i = i + 1;
    }
    assert(all_events().take(17) == all_events());
    events
}

/// The command list offers these eight events and no others.
pub proof fn lemma_command_catalog()
    ensures
        command_catalog() == seq![
            EventView::Quit,
            EventView::MoveUp,
            EventView::MoveDown,
            EventView::MoveToParent,
            EventView::MoveToChild,
            EventView::ToggleHidden,
            EventView::ToggleQueue,
            EventView::DeleteQueue,
        ],
        forall|i: int| 0 <= i < command_catalog().len() ==> replayable(#[trigger] command_catalog()[i]),
{
    let pred = |e: EventView| replayable(e);
    let all = all_events();
    assert forall|i: int| 0 <= i < command_catalog().len() implies replayable(
        #[trigger] command_catalog()[i],
    ) by {
        all.lemma_filter_pred(pred, i);
    }
    reveal_with_fuel(Seq::filter, 18);
    assert(all.filter(pred) =~= seq![
        EventView::Quit,
        EventView::MoveUp,
        EventView::MoveDown,
        EventView::MoveToParent,
        EventView::MoveToChild,
        EventView::ToggleHidden,
        EventView::ToggleQueue,
        EventView::DeleteQueue,
    ]);
}

} // verus!
