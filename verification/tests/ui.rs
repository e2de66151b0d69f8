use file_browser::app::App;
use file_browser::event::get_command_picker_events;
use file_browser::event::get_event_name;
use file_browser::fs::DirectoryEntry;
use file_browser::ui::{
    command_picker, main_list, prompt, prompt_with_scroll, Area, CommandPicker, MainList, Prompt,
};

fn texts(items: &[&str]) -> Vec<String> {
    items.iter().map(|s| String::from(*s)).collect()
}

fn area(width: u16, height: u16) -> Area {
    Area { x: 0, y: 0, width, height }
}

#[test]
fn main_list_holds_what_it_is_given() {
    let list = MainList::new(String::from("/home/u"), texts(&["/home/u/a", "/home/u/b"]));
    assert_eq!(list.current_path(), "/home/u");
    assert_eq!(list.content(), &texts(&["/home/u/a", "/home/u/b"]));
}

#[test]
fn title_cuts_every_component_to_three() {
    assert_eq!(MainList::title("/home/user/projects", '/'), "/hom/use/pro");
    assert_eq!(MainList::title("/a/bc/def/ghij", '/'), "/a/bc/def/ghi");
    assert_eq!(MainList::title("relative/path", '/'), "rel/pat");
}

#[test]
fn title_keeps_every_separator() {
    assert_eq!(MainList::title("/", '/'), "/");
    assert_eq!(MainList::title("//abcd//", '/'), "//abc//");
    assert_eq!(MainList::title("", '/'), "");
}

#[test]
fn title_counts_scalar_values() {
    assert_eq!(MainList::title("/とラストガエル/éèêë", '/'), "/とラス/éèê");
}

#[test]
fn title_goes_by_the_separator_it_is_given() {
    assert_eq!(MainList::title("C:\\Users\\someone", '\\'), "C:\\Use\\som");
    assert_eq!(MainList::title("/home/user", '\\'), "/ho");
}

#[test]
fn title_agrees_with_split_and_join() {
    for path in ["/home/user/projects", "a", "/x/yy/zzz/wwww/", "//", "とラスト/ガエル"] {
        let expected = path
            .split('/')
            .map(|part| part.chars().take(3).collect::<String>())
            .collect::<Vec<String>>()
            .join("/");
        assert_eq!(MainList::title(path, '/'), expected);
    }
}

#[test]
fn command_picker_holds_what_it_is_given() {
    let picker = CommandPicker::new(texts(&["one", "two"]));
    assert_eq!(picker.commands(), &texts(&["one", "two"]));
}

#[test]
fn command_rect_is_the_middle_of_the_area() {
    assert_eq!(
        CommandPicker::get_rect(&area(80, 24)),
        Area { x: 20, y: 8, width: 40, height: 8 }
    );
    assert_eq!(
        CommandPicker::get_rect(&Area { x: 5, y: 7, width: 81, height: 25 }),
        Area { x: 20, y: 8, width: 40, height: 8 }
    );
    assert_eq!(CommandPicker::get_rect(&area(0, 0)), Area { x: 0, y: 0, width: 0, height: 0 });
    assert_eq!(
        CommandPicker::get_rect(&area(u16::MAX, u16::MAX)),
        Area { x: 16383, y: 21845, width: 32767, height: 21845 }
    );
}

#[test]
fn command_picker_shows_the_names_of_the_commands() {
    let app = App::with_args();
    let expected: Vec<String> = get_command_picker_events().iter().map(get_event_name).collect();
    assert_eq!(command_picker(&app).commands(), &expected);
    assert_eq!(
        command_picker(&app).commands(),
        &texts(&[
            "(q) quit",
            "(↑ | k) move up",
            "(↓ | j) move down",
            "(← | h) move to parent",
            "(→ | l) move to child",
            "(.) toggle hidden",
            "(<Space>) toggle queue",
            "(d) delete queue",
        ])
    );
}

#[test]
fn main_list_shows_the_paths_of_the_entries() {
    let mut app = App::with_args();
    app.update_content(vec![
        DirectoryEntry { path: String::from("/d/a.txt"), is_dir: false },
        DirectoryEntry { path: String::from("/d/.h"), is_dir: false },
        DirectoryEntry { path: String::from("/d/b_dir"), is_dir: true },
    ]);
    let list = main_list(&app, "/d");
    assert_eq!(list.current_path(), "/d");
    assert_eq!(list.content(), &texts(&["/d/a.txt", "/d/b_dir"]));
    let empty = main_list(&App::with_args(), "/");
    assert_eq!(empty.current_path(), "/");
    assert!(empty.content().is_empty());
}

#[test]
fn prompt_rect_is_three_rows_high() {
    assert_eq!(
        prompt_with_scroll(&area(80, 24), 0),
        Prompt { rect: Area { x: 20, y: 8, width: 40, height: 3 }, scroll: 0 }
    );
    assert_eq!(
        prompt_with_scroll(&area(3, 2), 7),
        Prompt { rect: Area { x: 0, y: 0, width: 1, height: 3 }, scroll: 7 }
    );
}

#[test]
fn prompt_scroll_is_cut_to_sixteen_bits() {
    assert_eq!(prompt_with_scroll(&area(80, 24), 65535).scroll, 65535);
    assert_eq!(prompt_with_scroll(&area(80, 24), 65536).scroll, 0);
    assert_eq!(prompt_with_scroll(&area(80, 24), 65536 + 42).scroll, 42);
}

#[test]
fn prompt_does_not_scroll_short_text() {
    assert_eq!(
        prompt(&area(80, 24), "/home/u"),
        Prompt { rect: Area { x: 20, y: 8, width: 40, height: 3 }, scroll: 0 }
    );
    assert_eq!(prompt(&area(80, 24), "").scroll, 0);
}

#[test]
fn prompt_scrolls_long_text_into_sight() {
    let text = "a".repeat(50);
    assert_eq!(
        prompt(&area(40, 24), &text),
        Prompt { rect: Area { x: 10, y: 8, width: 20, height: 3 }, scroll: 32 }
    );
    assert_eq!(prompt(&area(80, 24), &text).scroll, 12);
}

#[test]
fn prompt_scrolls_by_display_columns() {
    let text = "と".repeat(20);
    assert_eq!(prompt(&area(40, 24), &text).scroll, 22);
}

#[test]
fn prompt_in_a_narrow_area_has_no_room_for_text() {
    let text = "abcdef";
    assert_eq!(prompt(&area(3, 24), text).scroll, 6);
    assert_eq!(prompt(&area(0, 0), text).scroll, 6);
    assert_eq!(prompt(&area(4, 24), text).rect, Area { x: 1, y: 8, width: 2, height: 3 });
    assert_eq!(prompt(&area(4, 24), text).scroll, 6);
    assert_eq!(prompt(&area(6, 24), text).scroll, 5);
}
