use file_browser::event::{
    get_command_picker_events, get_event, get_event_name, get_events, in_reexecution_allow_list,
    Event, Key, Mode,
};

fn all_keys() -> Vec<Key> {
    let mut keys = vec![
        Key::Up,
        Key::Down,
        Key::Left,
        Key::Right,
        Key::Enter,
        Key::Esc,
        Key::Backspace,
        Key::Other,
    ];
    for c in ['q', 'j', 'k', 'h', 'l', '.', ' ', 'd', 'n', '?', 'x', 'Q', 'と', '/'] {
        keys.push(Key::Char(c));
    }
    keys
}

#[test]
fn default_mode_is_normal() {
    assert_eq!(Mode::default(), Mode::Normal);
}

#[test]
fn normal_mode_keys() {
    let mode = Mode::Normal;
    assert_eq!(get_event(&mode, &Key::Char('q')), Event::Quit);
    assert_eq!(get_event(&mode, &Key::Up), Event::MoveUp);
    assert_eq!(get_event(&mode, &Key::Char('j')), Event::MoveUp);
    assert_eq!(get_event(&mode, &Key::Down), Event::MoveDown);
    assert_eq!(get_event(&mode, &Key::Char('k')), Event::MoveDown);
    assert_eq!(get_event(&mode, &Key::Left), Event::MoveToParent);
    assert_eq!(get_event(&mode, &Key::Char('h')), Event::MoveToParent);
    assert_eq!(get_event(&mode, &Key::Right), Event::MoveToChild);
    assert_eq!(get_event(&mode, &Key::Char('l')), Event::MoveToChild);
    assert_eq!(get_event(&mode, &Key::Char('.')), Event::ToggleHidden);
    assert_eq!(get_event(&mode, &Key::Char(' ')), Event::ToggleQueue);
    assert_eq!(get_event(&mode, &Key::Char('d')), Event::DeleteQueue);
    assert_eq!(get_event(&mode, &Key::Char('n')), Event::ChangeToCreating);
    assert_eq!(get_event(&mode, &Key::Char('?')), Event::ToggleCommands);
}

#[test]
fn normal_mode_ignores_other_keys() {
    let mode = Mode::Normal;
    for key in [Key::Enter, Key::Esc, Key::Backspace, Key::Other, Key::Char('x'), Key::Char('Q')] {
        assert_eq!(get_event(&mode, &key), Event::Noop);
    }
}

#[test]
fn showing_commands_mode_keys() {
    let mode = Mode::ShowingCommands;
    assert_eq!(get_event(&mode, &Key::Esc), Event::ToggleCommands);
    assert_eq!(get_event(&mode, &Key::Char('q')), Event::ToggleCommands);
    assert_eq!(get_event(&mode, &Key::Up), Event::MoveUp);
    assert_eq!(get_event(&mode, &Key::Char('j')), Event::MoveUp);
    assert_eq!(get_event(&mode, &Key::Down), Event::MoveDown);
    assert_eq!(get_event(&mode, &Key::Char('k')), Event::MoveDown);
    assert_eq!(get_event(&mode, &Key::Enter), Event::ExecuteCommand);
    for key in [Key::Left, Key::Right, Key::Backspace, Key::Other, Key::Char('d'), Key::Char('?')] {
        assert_eq!(get_event(&mode, &key), Event::Noop);
    }
}

#[test]
fn creating_mode_keys() {
    let mode = Mode::Creating;
    assert_eq!(get_event(&mode, &Key::Esc), Event::CancelCreation);
    assert_eq!(get_event(&mode, &Key::Enter), Event::ConfirmCreation);
    assert_eq!(get_event(&mode, &Key::Backspace), Event::DeleteChar);
    assert_eq!(get_event(&mode, &Key::Left), Event::MoveLeft);
    assert_eq!(get_event(&mode, &Key::Right), Event::MoveRight);
    for key in [Key::Up, Key::Down, Key::Other] {
        assert_eq!(get_event(&mode, &key), Event::Noop);
    }
}

#[test]
fn creating_mode_types_every_character() {
    let mode = Mode::Creating;
    for c in ['q', 'j', ' ', '.', '?', '/', 'と', '😀'] {
        assert_eq!(get_event(&mode, &Key::Char(c)), Event::AddChar(c.to_string()));
    }
}

#[test]
fn quit_is_only_asked_for_in_normal_mode() {
    for key in all_keys() {
        assert_ne!(get_event(&Mode::Creating, &key), Event::Quit);
        assert_ne!(get_event(&Mode::ShowingCommands, &key), Event::Quit);
    }
}

#[test]
fn every_key_has_one_event_in_every_mode() {
    for mode in [Mode::Normal, Mode::Creating, Mode::ShowingCommands] {
        for key in all_keys() {
            assert_eq!(get_event(&mode, &key), get_event(&mode, &key));
        }
    }
}

#[test]
fn all_events_in_order() {
    let events = get_events();
    assert_eq!(events.len(), 17);
    assert_eq!(
        events.to_vec(),
        vec![
            Event::Noop,
            Event::DeleteChar,
            Event::MoveLeft,
            Event::MoveRight,
            Event::AddChar(String::new()),
            Event::Quit,
            Event::MoveUp,
            Event::MoveDown,
            Event::MoveToParent,
            Event::MoveToChild,
            Event::ToggleHidden,
            Event::ToggleQueue,
            Event::DeleteQueue,
            Event::ToggleCommands,
            Event::ChangeToCreating,
            Event::ConfirmCreation,
            Event::ExecuteCommand,
        ]
    );
}

#[test]
fn event_names() {
    assert_eq!(get_event_name(&Event::DeleteChar), "delete char");
    assert_eq!(get_event_name(&Event::MoveLeft), "move left");
    assert_eq!(get_event_name(&Event::MoveRight), "move right");
    assert_eq!(get_event_name(&Event::AddChar(String::from("a"))), "add char");
    assert_eq!(get_event_name(&Event::Quit), "(q) quit");
    assert_eq!(get_event_name(&Event::MoveUp), "(↑ | k) move up");
    assert_eq!(get_event_name(&Event::MoveDown), "(↓ | j) move down");
    assert_eq!(get_event_name(&Event::MoveToParent), "(← | h) move to parent");
    assert_eq!(get_event_name(&Event::MoveToChild), "(→ | l) move to child");
    assert_eq!(get_event_name(&Event::ToggleHidden), "(.) toggle hidden");
    assert_eq!(get_event_name(&Event::ToggleQueue), "(<Space>) toggle queue");
    assert_eq!(get_event_name(&Event::DeleteQueue), "(d) delete queue");
    assert_eq!(get_event_name(&Event::ToggleCommands), "(?) toggle commands");
    assert_eq!(get_event_name(&Event::ChangeToCreating), "(n) create folder/file");
    assert_eq!(get_event_name(&Event::ConfirmCreation), "(<Enter>) confirm creation");
    assert_eq!(get_event_name(&Event::ExecuteCommand), "(<Enter>) execute command");
    assert_eq!(get_event_name(&Event::CancelCreation), "(<Esc>) cancel creation");
    assert_eq!(get_event_name(&Event::Noop), "noop");
}

#[test]
fn allow_list_holds_navigation_toggles_deletion_and_quit() {
    for event in [
        Event::Quit,
        Event::MoveUp,
        Event::MoveDown,
        Event::MoveToParent,
        Event::MoveToChild,
        Event::ToggleHidden,
        Event::ToggleQueue,
        Event::DeleteQueue,
    ] {
        assert!(in_reexecution_allow_list(&event));
    }
}

#[test]
fn allow_list_keeps_out_text_and_mode_events() {
    for event in [
        Event::Noop,
        Event::ExecuteCommand,
        Event::AddChar(String::from("a")),
        Event::AddChar(String::new()),
        Event::DeleteChar,
        Event::ConfirmCreation,
        Event::ToggleCommands,
        Event::CancelCreation,
        Event::MoveLeft,
        Event::MoveRight,
        Event::ChangeToCreating,
    ] {
        assert!(!in_reexecution_allow_list(&event));
    }
}

#[test]
fn command_picker_events_are_the_allowed_ones_in_order() {
    assert_eq!(
        get_command_picker_events(),
        vec![
            Event::Quit,
            Event::MoveUp,
            Event::MoveDown,
            Event::MoveToParent,
            Event::MoveToChild,
            Event::ToggleHidden,
            Event::ToggleQueue,
            Event::DeleteQueue,
        ]
    );
    let expected: Vec<Event> =
        get_events().iter().filter(|e| in_reexecution_allow_list(e)).cloned().collect();
    assert_eq!(get_command_picker_events(), expected);
}

#[test]
fn event_clone_keeps_the_event() {
    for event in get_events().iter() {
        assert_eq!(&event.clone(), event);
    }
    let typed = Event::AddChar(String::from("と"));
    assert_eq!(typed.clone(), typed);
    assert_eq!(Event::CancelCreation.clone(), Event::CancelCreation);
}
