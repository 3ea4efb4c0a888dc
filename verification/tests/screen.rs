use rtfm::tui::{
    handle_key_event, log_line, push_log, App, EventResult, Focus, Key, KeyPress,
};

fn press(app: &mut App, code: Key, ctrl: bool) -> EventResult {
    handle_key_event(app, KeyPress { code, ctrl })
}

#[test]
fn query_is_edited_at_the_cursor() {
    let mut ui = App::with_debug(false);
    ui.input_char('a');
    ui.input_char('中');
    ui.input_char('c');
    assert_eq!(ui.query, vec!['a', '中', 'c']);
    assert_eq!(ui.cursor, 3);
    ui.cursor_left();
    ui.delete_char();
    assert_eq!(ui.query, vec!['a', 'c']);
    assert_eq!(ui.cursor, 1);
    ui.delete_char_forward();
    assert_eq!(ui.query, vec!['a']);
    ui.delete_char_forward();
    assert_eq!(ui.query, vec!['a']);
    ui.cursor_home();
    ui.delete_char();
    assert_eq!(ui.query, vec!['a']);
    ui.cursor_left();
    assert_eq!(ui.cursor, 0);
    ui.cursor_end();
    ui.cursor_right();
    assert_eq!(ui.cursor, 1);
    ui.clear_search();
    assert!(ui.query.is_empty());
    assert_eq!(ui.cursor, 0);
}

#[test]
fn selection_stays_in_the_list() {
    let mut ui = App::with_debug(true);
    assert!(ui.show_logs);
    ui.toggle_logs();
    assert!(!ui.show_logs);
    assert_eq!(ui.selected_command(), None);
    ui.set_results(25);
    assert_eq!(ui.selected_command(), Some(0));
    ui.list_up();
    assert_eq!(ui.selected, 0);
    ui.list_down();
    assert_eq!(ui.selected, 1);
    ui.list_page_down();
    ui.list_page_down();
    assert_eq!(ui.selected, 21);
    ui.list_page_down();
    assert_eq!(ui.selected, 24);
    ui.list_down();
    assert_eq!(ui.selected, 24);
    ui.list_page_up();
    assert_eq!(ui.selected, 14);
    ui.list_page_up();
    ui.list_page_up();
    assert_eq!(ui.selected, 0);
    ui.detail_scroll_up();
    assert_eq!(ui.detail_scroll, 0);
    ui.detail_scroll_down();
    assert_eq!(ui.detail_scroll, 1);
    assert_eq!(ui.focus, Focus::Search);
    ui.next_focus();
    assert_eq!(ui.focus, Focus::List);
    ui.next_focus();
    assert_eq!(ui.focus, Focus::Detail);
    ui.next_focus();
    assert_eq!(ui.focus, Focus::Search);
    assert_ne!(EventResult::Quit, EventResult::Continue);
}

#[test]
fn keys_in_the_search_field() {
    let mut ui = App::with_debug(false);
    assert_eq!(press(&mut ui, Key::Char('l'), false), EventResult::Search);
    assert_eq!(press(&mut ui, Key::Char('s'), false), EventResult::Search);
    assert_eq!(press(&mut ui, Key::Char('?'), false), EventResult::Search);
    assert_eq!(ui.query, vec!['l', 's', '?']);
    assert_eq!(press(&mut ui, Key::Left, false), EventResult::Continue);
    assert_eq!(press(&mut ui, Key::Backspace, false), EventResult::Search);
    assert_eq!(ui.query, vec!['l', '?']);
    assert_eq!(press(&mut ui, Key::Delete, false), EventResult::Search);
    assert_eq!(ui.query, vec!['l']);
    assert_eq!(press(&mut ui, Key::Tab, false), EventResult::Continue);
    assert_eq!(ui.focus, Focus::Search);
    ui.set_results(3);
    assert_eq!(press(&mut ui, Key::Enter, false), EventResult::Continue);
    assert_eq!(ui.focus, Focus::List);
    ui.focus = Focus::Search;
    assert_eq!(press(&mut ui, Key::Esc, false), EventResult::Search);
    assert!(ui.query.is_empty());
    assert_eq!(ui.results, 0);
    assert_eq!(press(&mut ui, Key::Esc, false), EventResult::Quit);
    ui.input_char('x');
    assert_eq!(press(&mut ui, Key::Char('u'), true), EventResult::Search);
    assert!(ui.query.is_empty());
    assert_eq!(press(&mut ui, Key::Char('c'), true), EventResult::Quit);
    assert_eq!(press(&mut ui, Key::Char('q'), true), EventResult::Quit);
    assert_eq!(press(&mut ui, Key::Other, false), EventResult::Continue);
}

#[test]
fn keys_in_the_list_and_the_details() {
    let mut ui = App::with_debug(true);
    ui.set_results(30);
    ui.focus = Focus::List;
    ui.detail_max_scroll = 15;
    assert_eq!(press(&mut ui, Key::Char('j'), false), EventResult::Continue);
    assert_eq!(press(&mut ui, Key::Down, false), EventResult::Continue);
    assert_eq!(ui.selected, 2);
    press(&mut ui, Key::Char('k'), false);
    assert_eq!(ui.selected, 1);
    press(&mut ui, Key::Char('G'), false);
    assert_eq!(ui.selected, 29);
    press(&mut ui, Key::Char('g'), false);
    assert_eq!(ui.selected, 0);
    press(&mut ui, Key::End, false);
    assert_eq!(ui.selected, 29);
    press(&mut ui, Key::Home, false);
    assert_eq!(ui.selected, 0);
    assert_eq!(press(&mut ui, Key::Char('#'), false), EventResult::Continue);
    assert!(ui.query.is_empty());
    assert_eq!(ui.focus, Focus::List);
    assert_eq!(press(&mut ui, Key::Char('é'), false), EventResult::Search);
    assert_eq!(ui.query, vec!['é']);
    assert_eq!(ui.focus, Focus::Search);
    ui.focus = Focus::List;
    assert_eq!(press(&mut ui, Key::Char('7'), false), EventResult::Search);
    assert_eq!(ui.query, vec!['é', '7']);
    ui.focus = Focus::List;
    assert_eq!(press(&mut ui, Key::Char(' '), false), EventResult::Search);
    ui.focus = Focus::List;
    assert_eq!(press(&mut ui, Key::Char('?'), false), EventResult::Continue);
    assert!(ui.show_help);
    assert_eq!(press(&mut ui, Key::Char('j'), false), EventResult::Continue);
    assert_eq!(ui.selected, 0);
    assert_eq!(press(&mut ui, Key::Enter, false), EventResult::Continue);
    assert!(!ui.show_help);
    press(&mut ui, Key::Char('h'), true);
    assert!(ui.show_help);
    press(&mut ui, Key::Esc, false);
    assert!(!ui.show_help);
    press(&mut ui, Key::Char('l'), true);
    assert!(!ui.show_logs);
    press(&mut ui, Key::Char('l'), false);
    assert_eq!(ui.focus, Focus::Detail);
    press(&mut ui, Key::PageDown, false);
    assert_eq!(ui.detail_scroll, 10);
    press(&mut ui, Key::Char('G'), false);
    assert_eq!(ui.detail_scroll, 15);
    press(&mut ui, Key::Up, false);
    assert_eq!(ui.detail_scroll, 14);
    press(&mut ui, Key::Char('g'), false);
    assert_eq!(ui.detail_scroll, 4);
    press(&mut ui, Key::PageUp, false);
    assert_eq!(ui.detail_scroll, 0);
    press(&mut ui, Key::End, false);
    assert_eq!(ui.detail_scroll, 15);
    press(&mut ui, Key::Home, false);
    assert_eq!(ui.detail_scroll, 0);
    press(&mut ui, Key::Char('h'), false);
    assert_eq!(ui.focus, Focus::List);
    press(&mut ui, Key::Tab, false);
    assert_eq!(ui.focus, Focus::Detail);
    press(&mut ui, Key::Tab, false);
    assert_eq!(ui.focus, Focus::Search);
    ui.focus = Focus::Detail;
    press(&mut ui, Key::Char('/'), false);
    assert_eq!(ui.focus, Focus::Search);
}

#[test]
fn log_lines_are_kept_up_to_a_number() {
    assert_eq!(log_line("INFO", "rtfm::search::index", "built"), "[INFO] index - built");
    assert_eq!(log_line("WARN", "rtfm", "x"), "[WARN] rtfm - x");
    assert_eq!(log_line("WARN", "a::", ""), "[WARN]  - ");
    assert_eq!(log_line("DEBUG", "a:b", "m"), "[DEBUG] a:b - m");
    let mut lines = Vec::new();
    for i in 0..5 {
        push_log(&mut lines, 3, format!("line {}", i));
    }
    assert_eq!(lines, vec!["line 2", "line 3", "line 4"]);
    let mut none = Vec::new();
    push_log(&mut none, 0, "only".to_string());
    push_log(&mut none, 0, "last".to_string());
    assert_eq!(none, vec!["last"]);
}
