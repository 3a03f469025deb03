use refer::cursor::{Files, View};
use refer::input::{
    detrigger_view_update, file_opened, key_listener, normal_key_event, trigger_view_update,
    text_width, write_key_event, EntryBox, Event, FileListState, KeyCode, KeyEvent, KeyModifiers,
    Request, DELTA,
};
use refer::io::{Error, FileList, RefillAction};
use refer::resource::{get_lines_from_buffer, state_update, Resource};

fn key(code: KeyCode, modifiers: KeyModifiers) -> Event {
    Event::Key(KeyEvent { code, modifiers })
}

fn ctrl(c: char) -> Event {
    key(KeyCode::Char(c), KeyModifiers::Control)
}

fn plain(c: char) -> Event {
    key(KeyCode::Char(c), KeyModifiers::Bare)
}

fn three_files() -> Resource {
    let files = FileList::with_files(vec![
        ("a".to_string(), "/tmp/a".to_string()),
        ("b".to_string(), "/tmp/b".to_string()),
        ("c".to_string(), "/tmp/c".to_string()),
    ]);
    Resource::new(files)
}

fn fill(res: &mut Resource, index: usize, count: usize, height: u16) {
    let buf = res.files_mut().get_file_buff_mut(index).unwrap();
    buf.buffer(height);
    let mut read = 0;
    while read < count {
        let mut action = buf.update();
        while action == RefillAction::Read && read < count {
            read += 1;
            action = buf.push_line(&format!("line {read}\n"));
        }
    }
}

fn typed(text: &str) -> EntryBox {
    let mut entry = EntryBox::new();
    for c in text.chars() {
        entry.push(c);
    }
    entry
}

#[test]
fn polling_interval() {
    assert_eq!(DELTA, 16);
}

#[test]
fn entry_box_starts_closed_and_empty() {
    let entry = EntryBox::new();
    assert!(!entry.is_visible());
    assert!(!entry.is_err());
    assert!(entry.is_empty());
    assert_eq!(entry.len(), 0);
    assert_eq!(entry.get(), "");
    let entry = EntryBox::default();
    assert!(!entry.is_visible());
    assert!(entry.is_empty());
}

#[test]
fn entry_box_push_and_pop() {
    let mut entry = typed("ab");
    assert_eq!(entry.get(), "ab");
    assert_eq!(entry.input_buff(), "ab");
    entry.push('é');
    assert_eq!(entry.get(), "abé");
    assert_eq!(entry.len(), 4);
    assert!(!entry.is_empty());
    entry.pop();
    assert_eq!(entry.get(), "ab");
    entry.pop();
    entry.pop();
    assert_eq!(entry.get(), "");
    entry.pop();
    assert_eq!(entry.get(), "");
}

#[test]
fn entry_box_take_and_clear() {
    let mut entry = typed("name");
    assert_eq!(entry.take(), "name");
    assert!(entry.is_empty());
    let mut entry = typed("name");
    entry.toggle();
    entry.set_err();
    entry.clear();
    assert!(entry.is_empty());
    assert!(entry.is_visible());
    assert!(entry.is_err());
    entry.set_ok();
    assert!(!entry.is_err());
    entry.toggle();
    assert!(!entry.is_visible());
}

#[test]
fn entry_box_span_is_end_of_text() {
    let entry = typed("/var/log/syslog");
    assert_eq!(entry.get_span(6), "syslog");
    assert_eq!(entry.get_span(15), "/var/log/syslog");
    assert_eq!(entry.get_span(100), "/var/log/syslog");
    assert_eq!(entry.get_span(0), "");
}

#[test]
fn prompt_text_width_leaves_room_for_borders_and_cursor() {
    assert_eq!(text_width(40), 37);
    assert_eq!(text_width(3), 0);
    assert_eq!(text_width(2), 0);
    assert_eq!(text_width(0), 0);
    assert_eq!(text_width(u16::MAX), 65532);
}

#[test]
fn prompt_cursor_follows_text_up_to_the_width() {
    let entry = typed("abcdef");
    assert_eq!(entry.cursor_column(40), 7);
    assert_eq!(entry.cursor_column(9), 7);
    assert_eq!(entry.cursor_column(8), 6);
    assert_eq!(entry.cursor_column(3), 1);
    assert_eq!(entry.cursor_column(0), 1);
    assert_eq!(typed("").cursor_column(40), 1);
    assert_eq!(typed("é").cursor_column(40), 3);
}

#[test]
fn completion_directory_of_typed_text() {
    assert_eq!(typed("").completion_dir(), "./");
    assert_eq!(typed("ma").completion_dir(), "./");
    assert_eq!(typed("src/ma").completion_dir(), "./src/");
    assert_eq!(typed("src/").completion_dir(), "./src/");
    assert_eq!(typed("/etc/pas").completion_dir(), "/etc/");
    assert_eq!(typed("/").completion_dir(), "/");
    assert_eq!(typed("/e").completion_dir(), "/");
    assert_eq!(typed("./a/b/c").completion_dir(), "././a/b/");
}

#[test]
fn entry_box_completes_against_listing() {
    let listing = vec![
        "./src/input.rs".to_string(),
        "./src/io.rs".to_string(),
        "./src/main.rs".to_string(),
        "./src/map/".to_string(),
    ];
    let mut entry = typed("src/ma");
    entry.complete(listing.clone());
    assert_eq!(entry.get(), "src/ma");
    let mut entry = typed("src/mai");
    entry.complete(listing.clone());
    assert_eq!(entry.get(), "src/main.rs");
    let mut entry = typed("src/i");
    entry.complete(listing.clone());
    assert_eq!(entry.get(), "src/i");
    let mut entry = typed("src/in");
    entry.complete(listing.clone());
    assert_eq!(entry.get(), "src/input.rs");
    let mut entry = typed("src/x");
    entry.complete(listing);
    assert_eq!(entry.get(), "src/x");
}

#[test]
fn entry_box_completes_rooted_text() {
    let listing = vec!["/etc/passwd".to_string(), "/etc/pam.d/".to_string()];
    let mut entry = typed("/etc/p");
    entry.complete(listing.clone());
    assert_eq!(entry.get(), "/etc/pa");
    let mut entry = typed("/etc/pam");
    entry.complete(listing);
    assert_eq!(entry.get(), "/etc/pam.d/");
    let mut entry = typed("./x");
    entry.complete(vec!["././xyz".to_string()]);
    assert_eq!(entry.get(), "./xyz");
}

#[test]
fn list_state_starts_on_first_row() {
    let mut list = FileListState::new(3);
    assert_eq!(list.index(), 0);
    assert_eq!(list.size(), 3);
    assert_eq!(list.selected(), Some(0));
    assert_eq!(list.get_mut().selected(), Some(0));
}

#[test]
fn list_state_moves_within_list() {
    let mut list = FileListState::new(3);
    list.next();
    assert_eq!((list.index(), list.selected()), (1, Some(1)));
    list.next();
    list.next();
    assert_eq!((list.index(), list.selected()), (2, Some(2)));
    list.prev();
    assert_eq!((list.index(), list.selected()), (1, Some(1)));
    list.top();
    assert_eq!((list.index(), list.selected()), (0, Some(0)));
    list.prev();
    assert_eq!((list.index(), list.selected()), (0, Some(0)));
    list.bottom();
    assert_eq!((list.index(), list.selected()), (2, Some(2)));
    assert_eq!(list.get_mut().selected(), Some(2));
}

#[test]
fn list_state_of_empty_list_stays_at_zero() {
    let mut list = FileListState::new(0);
    list.next();
    assert_eq!(list.index(), 0);
    list.bottom();
    assert_eq!(list.index(), 0);
    match list.close() {
        Err(Error::EmptyList) => {}
        other => panic!("expected an empty list, got {other:?}"),
    }
    assert_eq!((list.index(), list.size()), (0, 0));
}

#[test]
fn list_state_close_keeps_place_or_moves_to_last() {
    let mut list = FileListState::new(3);
    list.next();
    assert_eq!(list.close().unwrap(), 1);
    assert_eq!((list.index(), list.size(), list.selected()), (1, 2, Some(1)));
    assert_eq!(list.close().unwrap(), 1);
    assert_eq!((list.index(), list.size(), list.selected()), (0, 1, Some(0)));
    assert_eq!(list.close().unwrap(), 0);
    assert_eq!((list.index(), list.size()), (0, 0));
    assert!(list.close().is_err());
    list.set_size(5);
    assert_eq!(list.size(), 5);
    list.bottom();
    assert_eq!(list.index(), 4);
}

#[test]
fn renderer_may_change_selection() {
    let mut list = FileListState::new(3);
    list.get_mut().select(None);
    assert_eq!(list.selected(), None);
    assert_eq!(list.index(), 0);
    list.top();
    assert_eq!(list.selected(), Some(0));
}

#[test]
fn resource_starts_with_focus_on_text_view() {
    let mut res = three_files();
    assert!(res.pointer().cursor_at::<View>());
    assert!(!res.entry_box().is_visible());
    assert_eq!(res.file_list_state().index(), 0);
    assert_eq!(res.file_list_state().size(), 3);
    assert_eq!(res.files().names(), vec!["a", "b", "c"]);
    res.pointer_mut().set_cursor::<Files>();
    assert!(res.pointer().cursor_at::<Files>());
    res.entry_box_mut().push('x');
    assert_eq!(res.entry_box().get(), "x");
    res.file_list_state_mut().next();
    assert_eq!(res.file_list_state().index(), 1);
    res.files_mut().close(0);
    assert_eq!(res.files().len(), 2);
}

#[test]
fn focus_keys_move_the_cursor() {
    let mut res = three_files();
    normal_key_event(ctrl('h'), &mut res);
    assert!(res.pointer().cursor_at::<Files>());
    normal_key_event(ctrl('l'), &mut res);
    assert!(res.pointer().cursor_at::<View>());
    normal_key_event(plain('h'), &mut res);
    assert!(res.pointer().cursor_at::<View>());
}

#[test]
fn step_keys_move_the_selection_in_the_file_list() {
    let mut res = three_files();
    normal_key_event(ctrl('h'), &mut res);
    normal_key_event(plain('j'), &mut res);
    assert_eq!(res.file_list_state().index(), 1);
    normal_key_event(plain('j'), &mut res);
    normal_key_event(plain('j'), &mut res);
    assert_eq!(res.file_list_state().index(), 2);
    normal_key_event(plain('k'), &mut res);
    assert_eq!(res.file_list_state().index(), 1);
    normal_key_event(ctrl('k'), &mut res);
    assert_eq!(res.file_list_state().index(), 0);
    normal_key_event(ctrl('j'), &mut res);
    assert_eq!(res.file_list_state().index(), 2);
    assert_eq!(res.file_list_state().selected(), Some(2));
    assert_eq!(res.files().get_file_buff(2).unwrap().view_window(), (0, 0));
}

#[test]
fn step_keys_scroll_the_selected_file_in_the_text_view() {
    let mut res = three_files();
    fill(&mut res, 1, 30, 12);
    normal_key_event(ctrl('h'), &mut res);
    normal_key_event(plain('j'), &mut res);
    normal_key_event(ctrl('l'), &mut res);
    normal_key_event(plain('j'), &mut res);
    normal_key_event(plain('j'), &mut res);
    assert_eq!(res.file_list_state().index(), 1);
    assert_eq!(res.files().get_file_buff(1).unwrap().view_window(), (2, 12));
    normal_key_event(plain('k'), &mut res);
    assert_eq!(res.files().get_file_buff(1).unwrap().view_window(), (1, 11));
    normal_key_event(ctrl('j'), &mut res);
    assert_eq!(res.files().get_file_buff(1).unwrap().view_window(), (20, 30));
    normal_key_event(ctrl('k'), &mut res);
    assert_eq!(res.files().get_file_buff(1).unwrap().view_window(), (0, 10));
    assert_eq!(res.files().get_file_buff(0).unwrap().view_window(), (0, 0));
}

#[test]
fn close_key_removes_the_selected_file() {
    let mut res = three_files();
    normal_key_event(ctrl('h'), &mut res);
    normal_key_event(plain('j'), &mut res);
    normal_key_event(ctrl('d'), &mut res);
    assert_eq!(res.files().names(), vec!["a", "c"]);
    assert_eq!(res.file_list_state().index(), 1);
    normal_key_event(ctrl('d'), &mut res);
    assert_eq!(res.files().names(), vec!["a"]);
    assert_eq!(res.file_list_state().index(), 0);
    normal_key_event(ctrl('d'), &mut res);
    assert_eq!(res.files().len(), 0);
    normal_key_event(ctrl('d'), &mut res);
    assert_eq!(res.files().len(), 0);
    assert_eq!(res.file_list_state().size(), 0);
}

#[test]
fn prompt_key_opens_prompt_and_suspends_focus() {
    let mut res = three_files();
    normal_key_event(ctrl('n'), &mut res);
    assert!(res.entry_box().is_visible());
    assert!(!res.pointer().cursor_at::<View>());
    assert!(!res.pointer().cursor_at::<Files>());
    normal_key_event(plain('j'), &mut res);
    assert_eq!(res.file_list_state().index(), 0);
}

#[test]
fn other_events_change_nothing() {
    let mut res = three_files();
    normal_key_event(Event::Other, &mut res);
    normal_key_event(key(KeyCode::Enter, KeyModifiers::Bare), &mut res);
    normal_key_event(key(KeyCode::Char('j'), KeyModifiers::Other), &mut res);
    normal_key_event(plain('x'), &mut res);
    assert!(res.pointer().cursor_at::<View>());
    assert!(!res.entry_box().is_visible());
    assert_eq!(res.file_list_state().index(), 0);
    assert_eq!(res.files().len(), 3);
}

#[test]
fn typing_in_the_prompt() {
    let mut res = three_files();
    normal_key_event(ctrl('n'), &mut res);
    for c in "src/q".chars() {
        assert!(matches!(write_key_event(plain(c), &mut res), Request::Nothing));
    }
    assert!(matches!(write_key_event(key(KeyCode::Char('X'), KeyModifiers::Other), &mut res),
        Request::Nothing));
    assert_eq!(res.entry_box().get(), "src/qX");
    res.entry_box_mut().set_err();
    write_key_event(key(KeyCode::Backspace, KeyModifiers::Bare), &mut res);
    assert_eq!(res.entry_box().get(), "src/q");
    assert!(!res.entry_box().is_err());
    write_key_event(Event::Other, &mut res);
    write_key_event(key(KeyCode::Esc, KeyModifiers::Control), &mut res);
    assert_eq!(res.entry_box().get(), "src/q");
    assert!(res.entry_box().is_visible());
}

#[test]
fn tab_asks_for_directory_listing() {
    let mut res = three_files();
    normal_key_event(ctrl('n'), &mut res);
    for c in "src/ma".chars() {
        write_key_event(plain(c), &mut res);
    }
    match write_key_event(key(KeyCode::Tab, KeyModifiers::Bare), &mut res) {
        Request::ListDirectory(dir) => assert_eq!(dir, "./src/"),
        other => panic!("expected a listing request, got {other:?}"),
    }
    assert_eq!(res.entry_box().get(), "src/ma");
    res.entry_box_mut().complete(vec!["./src/main.rs".to_string(), "./src/lib.rs".to_string()]);
    assert_eq!(res.entry_box().get(), "src/main.rs");
}

#[test]
fn cancel_closes_prompt_and_forgets_text() {
    for cancel in [ctrl('n'), key(KeyCode::Esc, KeyModifiers::Bare)] {
        let mut res = three_files();
        normal_key_event(ctrl('h'), &mut res);
        normal_key_event(ctrl('n'), &mut res);
        write_key_event(plain('x'), &mut res);
        assert!(matches!(write_key_event(cancel, &mut res), Request::Nothing));
        assert!(!res.entry_box().is_visible());
        assert!(res.entry_box().is_empty());
        assert!(res.pointer().cursor_at::<Files>());
    }
}

#[test]
fn enter_asks_to_open_and_success_adds_the_file() {
    let mut res = three_files();
    normal_key_event(ctrl('n'), &mut res);
    for c in "d.txt".chars() {
        write_key_event(plain(c), &mut res);
    }
    let name = match write_key_event(key(KeyCode::Enter, KeyModifiers::Bare), &mut res) {
        Request::OpenFile(name) => name,
        other => panic!("expected an open request, got {other:?}"),
    };
    assert_eq!(name, "d.txt");
    assert_eq!(res.entry_box().get(), "d.txt");
    assert!(file_opened(&mut res, &name, Ok("/tmp/d.txt")).is_ok());
    assert_eq!(res.files().names(), vec!["a", "b", "c", "d.txt"]);
    assert_eq!(res.files().get_file_buff(3).unwrap().path(), "/tmp/d.txt");
    assert_eq!(res.file_list_state().size(), 4);
    assert_eq!(res.file_list_state().index(), 0);
    assert!(res.entry_box().is_empty());
    assert!(!res.entry_box().is_err());
    assert!(!res.entry_box().is_visible());
    assert!(res.pointer().cursor_at::<View>());
}

#[test]
fn failed_open_marks_prompt_and_keeps_it_open() {
    let mut res = three_files();
    normal_key_event(ctrl('n'), &mut res);
    for c in "nope".chars() {
        write_key_event(plain(c), &mut res);
    }
    write_key_event(key(KeyCode::Enter, KeyModifiers::Bare), &mut res);
    let outcome =
        file_opened(&mut res, "nope", Err(Error::Io("No such file or directory".to_string())));
    match outcome {
        Err(Error::Io(reason)) => assert_eq!(reason, "No such file or directory"),
        other => panic!("expected an I/O error, got {other:?}"),
    }
    assert!(res.entry_box().is_err());
    assert!(res.entry_box().is_visible());
    assert_eq!(res.entry_box().get(), "nope");
    assert_eq!(res.files().len(), 3);
    assert!(!res.pointer().cursor_at::<View>());
}

#[test]
fn opening_the_same_path_twice_is_refused() {
    let mut res = Resource::new(FileList::new());
    normal_key_event(ctrl('n'), &mut res);
    assert!(file_opened(&mut res, "a", Ok("/tmp/a")).is_ok());
    fill(&mut res, 0, 4, 6);
    normal_key_event(ctrl('n'), &mut res);
    for c in "./a".chars() {
        write_key_event(plain(c), &mut res);
    }
    match file_opened(&mut res, "./a", Ok("/tmp/a")) {
        Err(Error::DuplicatePath(path)) => assert_eq!(path, "/tmp/a"),
        other => panic!("expected a duplicate path, got {other:?}"),
    }
    assert!(res.entry_box().is_err());
    assert!(res.entry_box().is_visible());
    assert_eq!(res.entry_box().get(), "./a");
    assert_eq!(res.files().names(), vec!["a"]);
    let first = res.files().get_file_buff(0).unwrap();
    assert_eq!(first.line_count(), 4);
    assert_eq!(first.view_window(), (0, 4));
    assert_eq!(first.next_line_number(), 5);
}

#[test]
fn listener_without_event_does_nothing() {
    let mut res = three_files();
    let (response, request) = key_listener(&mut res, None);
    assert!(!response.polled());
    assert!(!response.should_exit());
    assert!(matches!(request, Request::Nothing));
}

#[test]
fn listener_quits_on_control_q() {
    let mut res = three_files();
    let (response, _) = key_listener(&mut res, Some(ctrl('q')));
    assert!(response.polled());
    assert!(response.should_exit());
    normal_key_event(ctrl('n'), &mut res);
    let (response, _) = key_listener(&mut res, Some(ctrl('q')));
    assert!(response.should_exit());
    assert!(res.entry_box().is_empty());
    let (response, _) = key_listener(&mut res, Some(plain('q')));
    assert!(!response.should_exit());
    assert_eq!(res.entry_box().get(), "q");
}

#[test]
fn listener_sends_keys_to_prompt_or_panes() {
    let mut res = three_files();
    key_listener(&mut res, Some(ctrl('h')));
    let (response, request) = key_listener(&mut res, Some(plain('j')));
    assert!(response.polled());
    assert!(!response.should_exit());
    assert!(matches!(request, Request::Nothing));
    assert_eq!(res.file_list_state().index(), 1);
    key_listener(&mut res, Some(ctrl('n')));
    key_listener(&mut res, Some(plain('j')));
    assert_eq!(res.entry_box().get(), "j");
    assert_eq!(res.file_list_state().index(), 1);
    let (_, request) = key_listener(&mut res, Some(key(KeyCode::Enter, KeyModifiers::Bare)));
    match request {
        Request::OpenFile(name) => assert_eq!(name, "j"),
        other => panic!("expected an open request, got {other:?}"),
    }
}

#[test]
fn view_update_flag_is_raised_and_lowered_for_every_file() {
    let mut res = three_files();
    detrigger_view_update(&mut res);
    for i in 0..3 {
        let buf = res.files_mut().get_file_buff_mut(i).unwrap();
        buf.buffer(20);
        assert_eq!(buf.view_window(), (0, 0));
    }
    trigger_view_update(&mut res);
    for i in 0..3 {
        let buf = res.files_mut().get_file_buff_mut(i).unwrap();
        buf.buffer(20);
        assert_eq!(buf.view_window(), (0, 18));
    }
}

#[test]
fn failed_refill_turns_buffer_into_error_display() {
    let mut res = three_files();
    fill(&mut res, 0, 4, 6);
    fill(&mut res, 1, 4, 6);
    state_update(
        &mut res,
        vec![Ok(()), Err(Error::Io("Input/output error".to_string())), Ok(())],
    );
    let first = res.files().get_file_buff(0).unwrap();
    assert!(!first.is_nulled());
    assert_eq!(first.line_count(), 4);
    let second = res.files_mut().get_file_buff_mut(1).unwrap();
    assert!(second.is_nulled());
    assert!(!second.has_reader());
    assert_eq!(second.view_window(), (0, 1));
    second.detrigger_view_update();
    assert_eq!(second.buffer(6), (vec!["Input/output error"], true));
    assert!(!res.files().get_file_buff(2).unwrap().is_nulled());
    assert_eq!(res.files().len(), 3);
    assert_eq!(res.file_list_state().size(), 3);
}

#[test]
fn state_update_takes_outcomes_in_list_order() {
    let mut res = three_files();
    state_update(&mut res, vec![Err(Error::EmptyList)]);
    assert!(res.files().get_file_buff(0).unwrap().is_nulled());
    assert_eq!(res.files().get_file_buff(0).unwrap().visible().0, vec!["ListState empty"]);
    assert!(!res.files().get_file_buff(1).unwrap().is_nulled());
    state_update(&mut res, Vec::new());
    state_update(&mut res, vec![Ok(()), Ok(()), Ok(()), Err(Error::EmptyList)]);
    assert!(!res.files().get_file_buff(1).unwrap().is_nulled());
    assert!(!res.files().get_file_buff(2).unwrap().is_nulled());
}

#[test]
fn lines_of_the_selected_file() {
    let mut res = three_files();
    fill(&mut res, 1, 30, 12);
    let (lines, is_error) = get_lines_from_buffer(&mut res, 12);
    assert!(lines.is_empty());
    assert!(!is_error);
    assert_eq!(res.files().get_file_buff(0).unwrap().view_window(), (0, 10));

    normal_key_event(ctrl('h'), &mut res);
    normal_key_event(plain('j'), &mut res);
    let (lines, is_error) = get_lines_from_buffer(&mut res, 5);
    assert_eq!(lines, vec!["     1|  line 1\n", "     2|  line 2\n", "     3|  line 3\n"]);
    assert!(!is_error);
    assert_eq!(res.files().get_file_buff(1).unwrap().view_window(), (0, 3));

    state_update(&mut res, vec![Ok(()), Err(Error::Io("gone".to_string()))]);
    assert_eq!(get_lines_from_buffer(&mut res, 3), (vec!["gone"], true));
}

#[test]
fn no_lines_without_a_selected_file() {
    let mut res = Resource::new(FileList::new());
    assert_eq!(get_lines_from_buffer(&mut res, 20), (Vec::new(), false));
}
