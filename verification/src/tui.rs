use crate::text::{append, chars_of, framed, slice, string_of, strings};
use vstd::prelude::*;

verus! {

/// The part of the screen that takes the keys.
#[derive(Debug, Clone, Copy, PartialEq, Eq, Structural)]
pub enum Focus {
    Search,
    List,
    Detail,
}

/// What the event loop does after a key.
#[derive(Debug, Clone, Copy, PartialEq, Eq, Structural)]
pub enum EventResult {
    /// Go on.
    Continue,
    /// Search for the query as it now stands.
    Search,
    /// Leave the program.
    Quit,
}

/// A key as the interface reads it.
#[derive(Debug, Clone, Copy, PartialEq, Eq, Structural)]
pub enum Key {
    Char(char),
    Esc,
    Enter,
    Tab,
    Backspace,
    Delete,
    Left,
    Right,
    Up,
    Down,
    Home,
    End,
    PageUp,
    PageDown,
    Other,
}

/// A key that was pressed, with the control key or without it.
#[derive(Debug, Clone, Copy, PartialEq, Eq, Structural)]
pub struct KeyPress {
    pub code: Key,
    pub ctrl: bool,
}

/// The state of the interface that the keys change: the query with the
/// cursor in it, the selection in the list of results, the scroll
/// position of the detail view, and what is shown.
#[derive(Debug, Clone)]
pub struct App {
    /// The characters of the query.
    pub query: Vec<char>,
    /// The cursor: the number of characters of the query before it.
    pub cursor: usize,
    /// The number of results in the list.
    pub results: usize,
    /// The index of the selected result.
    pub selected: usize,
    /// The first line that the detail view shows.
    pub detail_scroll: u16,
    /// The last line to which the detail view scrolls.
    pub detail_max_scroll: u16,
    /// The part of the screen that takes the keys.
    pub focus: Focus,
    /// Whether the help is shown.
    pub show_help: bool,
    /// Whether logs can be shown at all.
    pub debug_mode: bool,
    /// Whether the log panel is shown.
    pub show_logs: bool,
}

/// What an `App` holds.
pub struct AppView {
    pub query: Seq<char>,
    pub cursor: nat,
    pub results: nat,
    pub selected: nat,
    pub detail_scroll: nat,
    pub detail_max_scroll: nat,
    pub focus: Focus,
    pub show_help: bool,
    pub debug_mode: bool,
    pub show_logs: bool,
}

impl View for App {
    type V = AppView;

    open spec fn view(&self) -> AppView {
        AppView {
            query: self.query@,
            cursor: self.cursor as nat,
            results: self.results as nat,
            selected: self.selected as nat,
            detail_scroll: self.detail_scroll as nat,
            detail_max_scroll: self.detail_max_scroll as nat,
            focus: self.focus,
            show_help: self.show_help,
            debug_mode: self.debug_mode,
            show_logs: self.show_logs,
        }
    }
}

/// Tells whether a character is a letter or a digit, as
/// `char::is_alphanumeric` tells it.
pub uninterp spec fn alphanumeric(c: char) -> bool;

/// Calls `char::is_alphanumeric`, which goes by the Unicode properties
/// of the character.
#[verifier::external_body]
fn is_alphanumeric(c: char) -> (b: bool)
    ensures
        b == alphanumeric(c),
{
    c.is_alphanumeric()
}

/// Tells whether the cursor is in the query.
pub open spec fn cursor_in_query(u: AppView) -> bool {
    u.cursor <= u.query.len()
}

/// The state with an empty query and no results.
pub open spec fn cleared(u: AppView) -> AppView {
    AppView { query: seq![], cursor: 0, results: 0, selected: 0, detail_scroll: 0, ..u }
}

/// The state with a character put in at the cursor.
pub open spec fn typed(u: AppView, c: char) -> AppView {
    AppView { query: u.query.insert(u.cursor as int, c), cursor: u.cursor + 1, ..u }
}

/// The state without the character before the cursor.
pub open spec fn backspaced(u: AppView) -> AppView {
    if u.cursor > 0 {
        AppView { query: u.query.remove(u.cursor - 1), cursor: (u.cursor - 1) as nat, ..u }
    } else {
        u
    }
}

/// The state without the character at the cursor.
pub open spec fn deleted(u: AppView) -> AppView {
    if u.cursor < u.query.len() {
        AppView { query: u.query.remove(u.cursor as int), ..u }
    } else {
        u
    }
}

/// The state with the result above selected.
pub open spec fn moved_up(u: AppView) -> AppView {
    if u.selected > 0 {
        AppView { selected: (u.selected - 1) as nat, detail_scroll: 0, ..u }
    } else {
        u
    }
}

/// The state with the result below selected.
pub open spec fn moved_down(u: AppView) -> AppView {
    if u.selected + 1 < u.results {
        AppView { selected: u.selected + 1, detail_scroll: 0, ..u }
    } else {
        u
    }
}

/// The state with the result ten above selected, or the first.
pub open spec fn paged_up(u: AppView) -> AppView {
    AppView {
        selected: if u.selected >= 10 {
            (u.selected - 10) as nat
        } else {
            0
        },
        detail_scroll: 0,
        ..u
    }
}

/// The index of the last result, or 0 where there is none.
pub open spec fn last_result(u: AppView) -> nat {
    if u.results == 0 {
        0
    } else {
        (u.results - 1) as nat
    }
}

/// The state with the result ten below selected, or the last.
pub open spec fn paged_down(u: AppView) -> AppView {
    AppView {
        selected: if u.selected + 10 < last_result(u) {
            u.selected + 10
        } else {
            last_result(u)
        },
        detail_scroll: 0,
        ..u
    }
}

/// The part of the screen that takes the keys after this one.
pub open spec fn focus_after(focus: Focus) -> Focus {
    match focus {
        Focus::Search => Focus::List,
        Focus::List => Focus::Detail,
        Focus::Detail => Focus::Search,
    }
}

/// The state with the log panel shown or hidden, in debug mode.
pub open spec fn logs_toggled(u: AppView) -> AppView {
    if u.debug_mode {
        AppView { show_logs: !u.show_logs, ..u }
    } else {
        u
    }
}

/// What a key does while the search field takes the keys.
pub open spec fn search_key(u: AppView, key: Key, ctrl: bool) -> (AppView, EventResult) {
    match key {
        Key::Char(c) => if c == 'u' && ctrl {
            (cleared(u), EventResult::Search)
        } else {
            (typed(u, c), EventResult::Search)
        },
        Key::Esc => if u.query.len() == 0 {
            (u, EventResult::Quit)
        } else {
            (cleared(u), EventResult::Search)
        },
        Key::Backspace => (backspaced(u), EventResult::Search),
        Key::Delete => (deleted(u), EventResult::Search),
        Key::Left => (
            AppView {
                cursor: if u.cursor > 0 {
                    (u.cursor - 1) as nat
                } else {
                    0
                },
                ..u
            },
            EventResult::Continue,
        ),
        Key::Right => (
            AppView {
                cursor: if u.cursor < u.query.len() {
                    u.cursor + 1
                } else {
                    u.cursor
                },
                ..u
            },
            EventResult::Continue,
        ),
        Key::Home => (AppView { cursor: 0, ..u }, EventResult::Continue),
        Key::End => (AppView { cursor: u.query.len(), ..u }, EventResult::Continue),
        Key::Tab | Key::Down | Key::Enter => (
            if u.results > 0 {
                AppView { focus: Focus::List, ..u }
            } else {
                u
            },
            EventResult::Continue,
        ),
        _ => (u, EventResult::Continue),
    }
}

/// What a key does while the list takes the keys.
pub open spec fn list_key(u: AppView, key: Key) -> (AppView, EventResult) {
    match key {
        Key::Up => (moved_up(u), EventResult::Continue),
        Key::Down => (moved_down(u), EventResult::Continue),
        Key::PageUp => (paged_up(u), EventResult::Continue),
        Key::PageDown => (paged_down(u), EventResult::Continue),
        Key::Home => (AppView { selected: 0, detail_scroll: 0, ..u }, EventResult::Continue),
        Key::End => (
            AppView { selected: last_result(u), detail_scroll: 0, ..u },
            EventResult::Continue,
        ),
        Key::Tab => (AppView { focus: focus_after(u.focus), ..u }, EventResult::Continue),
        Key::Enter | Key::Right => (AppView { focus: Focus::Detail, ..u }, EventResult::Continue),
        Key::Esc => (AppView { focus: Focus::Search, ..u }, EventResult::Continue),
        Key::Char(c) => list_char(u, c, alphanumeric(c)),
        _ => (u, EventResult::Continue),
    }
}

/// What a character does while the list takes the keys, where `word`
/// tells whether it is a letter or a digit: `k` and `j` move the
/// selection, `g` and `G` take it to the first and the last result, `l`
/// opens the details, `/` goes to the search field; any other letter or
/// digit, and a space, is typed into the query.
pub open spec fn list_char(u: AppView, c: char, word: bool) -> (AppView, EventResult) {
    if c == 'k' {
        (moved_up(u), EventResult::Continue)
    } else if c == 'j' {
        (moved_down(u), EventResult::Continue)
    } else if c == 'g' {
        (AppView { selected: 0, detail_scroll: 0, ..u }, EventResult::Continue)
    } else if c == 'G' {
        (AppView { selected: last_result(u), detail_scroll: 0, ..u }, EventResult::Continue)
    } else if c == 'l' {
        (AppView { focus: Focus::Detail, ..u }, EventResult::Continue)
    } else if c == '/' {
        (AppView { focus: Focus::Search, ..u }, EventResult::Continue)
    } else if word || c == ' ' {
        (typed(AppView { focus: Focus::Search, ..u }, c), EventResult::Search)
    } else {
        (u, EventResult::Continue)
    }
}

/// The scroll position ten lines up.
pub open spec fn scrolled_up(u: AppView, lines: nat) -> nat {
    if u.detail_scroll >= lines {
        (u.detail_scroll - lines) as nat
    } else {
        0
    }
}

/// The scroll position ten lines down: never past the last line, nor past
/// the largest position that there is.
pub open spec fn scrolled_page_down(u: AppView) -> nat {
    let target = if u.detail_scroll + 10 <= u16::MAX {
        u.detail_scroll + 10
    } else {
        u16::MAX as nat
    };
    if target <= u.detail_max_scroll {
        target
    } else {
        u.detail_max_scroll
    }
}

/// What a key does while the detail view takes the keys.
pub open spec fn detail_key(u: AppView, key: Key) -> (AppView, EventResult) {
    let next = match key {
        Key::Up => AppView { detail_scroll: scrolled_up(u, 1), ..u },
        Key::Down => AppView {
            detail_scroll: if u.detail_scroll < u16::MAX {
                u.detail_scroll + 1
            } else {
                u.detail_scroll
            },
            ..u
        },
        Key::PageUp => AppView { detail_scroll: scrolled_up(u, 10), ..u },
        Key::PageDown => AppView { detail_scroll: scrolled_page_down(u), ..u },
        Key::Home => AppView { detail_scroll: 0, ..u },
        Key::End => AppView { detail_scroll: u.detail_max_scroll, ..u },
        Key::Tab => AppView { focus: focus_after(u.focus), ..u },
        Key::Left | Key::Esc => AppView { focus: Focus::List, ..u },
        Key::Char(c) => if c == 'k' {
            AppView { detail_scroll: scrolled_up(u, 1), ..u }
        } else if c == 'j' {
            AppView {
                detail_scroll: if u.detail_scroll < u16::MAX {
                    u.detail_scroll + 1
                } else {
                    u.detail_scroll
                },
                ..u
            }
        } else if c == 'g' {
            AppView { detail_scroll: scrolled_up(u, 10), ..u }
        } else if c == 'G' {
            AppView { detail_scroll: scrolled_page_down(u), ..u }
        } else if c == 'h' {
            AppView { focus: Focus::List, ..u }
        } else if c == '/' {
            AppView { focus: Focus::Search, ..u }
        } else {
            u
        },
        _ => u,
    };
    (next, EventResult::Continue)
}

/// What a key does, with or without the control key. With the control
/// key, `c` and `q` leave the program, `h` shows or hides the help and `l`
/// the logs; `?` shows or hides the help where the search field does not
/// take the keys. While the help is shown, the escape key, the enter key, a
/// space and `?` hide it and every other key does nothing. Else the part
/// of the screen that has the focus takes the key.
pub open spec fn key_step(u: AppView, key: Key, ctrl: bool) -> (AppView, EventResult) {
    if ctrl && (key == Key::Char('c') || key == Key::Char('q')) {
        (u, EventResult::Quit)
    } else if ctrl && key == Key::Char('h') {
        (AppView { show_help: !u.show_help, ..u }, EventResult::Continue)
    } else if key == Key::Char('?') && u.focus != Focus::Search {
        (AppView { show_help: !u.show_help, ..u }, EventResult::Continue)
    } else if ctrl && key == Key::Char('l') {
        (logs_toggled(u), EventResult::Continue)
    } else if u.show_help {
        if key == Key::Esc || key == Key::Enter || key == Key::Char(' ') || key == Key::Char('?') {
            (AppView { show_help: false, ..u }, EventResult::Continue)
        } else {
            (u, EventResult::Continue)
        }
    } else {
        match u.focus {
            Focus::Search => search_key(u, key, ctrl),
            Focus::List => list_key(u, key),
            Focus::Detail => detail_key(u, key),
        }
    }
}

/// A key leaves the cursor in the query.
pub proof fn lemma_key_keeps_cursor(u: AppView, key: Key, ctrl: bool)
    requires
        cursor_in_query(u),
    ensures
        cursor_in_query(key_step(u, key, ctrl).0),
{
}

impl App {
    /// Tells whether the cursor is in the query.
    pub open spec fn wf(&self) -> bool {
        cursor_in_query(self@)
    }

    /// The state at the start: an empty query, nothing selected, the
    /// keys with the search field.
    pub fn with_debug(debug_mode: bool) -> (app: App)
        ensures
            app.wf(),
            app@ == (AppView {
                query: seq![],
                cursor: 0,
                results: 0,
                selected: 0,
                detail_scroll: 0,
                detail_max_scroll: 0,
                focus: Focus::Search,
                show_help: false,
                debug_mode: debug_mode,
                show_logs: debug_mode,
            }),
    {
        App {
            query: Vec::new(),
            cursor: 0,
            results: 0,
            selected: 0,
            detail_scroll: 0,
            detail_max_scroll: 0,
            focus: Focus::Search,
            show_help: false,
            debug_mode,
            show_logs: debug_mode,
        }
    }

    /// Shows or hides the log panel, in debug mode.
    pub fn toggle_logs(&mut self)
        ensures
            final(self)@ == logs_toggled(old(self)@),
    {
        if self.debug_mode {
            self.show_logs = !self.show_logs;
        }
    }

    /// Takes the number of results of a search: the first is selected.
    pub fn set_results(&mut self, count: usize)
        ensures
            final(self)@ == (AppView {
                results: count as nat,
                selected: 0,
                detail_scroll: 0,
                ..old(self)@
            }),
    {
        self.results = count;
        self.selected = 0;
        self.detail_scroll = 0;
    }

    /// Puts a character into the query at the cursor. Where the cursor
    /// is not in the query, nothing changes.
    pub fn input_char(&mut self, c: char)
        ensures
            old(self).wf() ==> final(self)@ == typed(old(self)@, c),
            !old(self).wf() ==> final(self)@ == old(self)@,
    {
        if self.cursor <= self.query.len() {
            self.query.insert(self.cursor, c);
            let length: usize = self.query.len();
            assert(self.cursor < length);
            self.cursor += 1;
        }
    }

    /// Removes the character before the cursor. Where the cursor is not
    /// in the query, nothing changes.
    pub fn delete_char(&mut self)
        ensures
            old(self).wf() ==> final(self)@ == backspaced(old(self)@),
            !old(self).wf() ==> final(self)@ == old(self)@,
    {
        if self.cursor > 0 && self.cursor <= self.query.len() {
            self.cursor -= 1;
            self.query.remove(self.cursor);
        }
    }

    /// Removes the character at the cursor.
    pub fn delete_char_forward(&mut self)
        ensures
            final(self)@ == deleted(old(self)@),
    {
        if self.cursor < self.query.len() {
            self.query.remove(self.cursor);
        }
    }

    /// Moves the cursor one character to the left.
    pub fn cursor_left(&mut self)
        ensures
            final(self)@ == (AppView {
                cursor: if old(self)@.cursor > 0 {
                    (old(self)@.cursor - 1) as nat
                } else {
                    0
                },
                ..old(self)@
            }),
    {
        if self.cursor > 0 {
            self.cursor -= 1;
        }
    }

    /// Moves the cursor one character to the right.
    pub fn cursor_right(&mut self)
        ensures
            final(self)@ == (AppView {
                cursor: if old(self)@.cursor < old(self)@.query.len() {
                    old(self)@.cursor + 1
                } else {
                    old(self)@.cursor
                },
                ..old(self)@
            }),
    {
        if self.cursor < self.query.len() {
            self.cursor += 1;
        }
    }

    /// Moves the cursor to the start of the query.
    pub fn cursor_home(&mut self)
        ensures
            final(self)@ == (AppView { cursor: 0, ..old(self)@ }),
    {
        self.cursor = 0;
    }

    /// Moves the cursor to the end of the query.
    pub fn cursor_end(&mut self)
        ensures
            final(self)@ == (AppView { cursor: old(self)@.query.len(), ..old(self)@ }),
    {
        self.cursor = self.query.len();
    }

    /// Empties the query and the list of results.
    pub fn clear_search(&mut self)
        ensures
            final(self)@ == cleared(old(self)@),
    {
        self.query = Vec::new();
        self.cursor = 0;
        self.results = 0;
        self.selected = 0;
        self.detail_scroll = 0;
    }

    /// Selects the result above.
    pub fn list_up(&mut self)
        ensures
            final(self)@ == moved_up(old(self)@),
    {
        if self.selected > 0 {
            self.selected -= 1;
            self.detail_scroll = 0;
        }
    }

    /// Selects the result below.
    pub fn list_down(&mut self)
        ensures
            final(self)@ == moved_down(old(self)@),
    {
        if self.selected < self.results && self.results - self.selected > 1 {
            self.selected += 1;
            self.detail_scroll = 0;
        }
    }

    /// Selects the result ten above, or the first.
    pub fn list_page_up(&mut self)
        ensures
            final(self)@ == paged_up(old(self)@),
    {
        self.selected = if self.selected >= 10 {
            self.selected - 10
        } else {
            0
        };
        self.detail_scroll = 0;
    }

    /// Selects the result ten below, or the last.
    pub fn list_page_down(&mut self)
        ensures
            final(self)@ == paged_down(old(self)@),
    {
        let last: usize = if self.results == 0 {
            0
        } else {
            self.results - 1
        };
        self.selected = if self.selected < last && last - self.selected > 10 {
            self.selected + 10
        } else {
            last
        };
        self.detail_scroll = 0;
    }

    /// Scrolls the detail view one line up.
    pub fn detail_scroll_up(&mut self)
        ensures
            final(self)@ == (AppView { detail_scroll: scrolled_up(old(self)@, 1), ..old(self)@ }),
    {
        if self.detail_scroll > 0 {
            self.detail_scroll -= 1;
        }
    }

    /// Scrolls the detail view one line down.
    pub fn detail_scroll_down(&mut self)
        ensures
            final(self)@ == (AppView {
                detail_scroll: if old(self)@.detail_scroll < u16::MAX {
                    old(self)@.detail_scroll + 1
                } else {
                    old(self)@.detail_scroll
                },
                ..old(self)@
            }),
    {
        if self.detail_scroll < u16::MAX {
            self.detail_scroll += 1;
        }
    }

    /// Hands the keys to the next part of the screen: from the search to
    /// the list, from the list to the details, from there to the search.
    pub fn next_focus(&mut self)
        ensures
            final(self)@ == (AppView { focus: focus_after(old(self)@.focus), ..old(self)@ }),
    {
        self.focus = match self.focus {
            Focus::Search => Focus::List,
            Focus::List => Focus::Detail,
            Focus::Detail => Focus::Search,
        };
    }

    /// The index of the selected result, where there is one.
    pub fn selected_command(&self) -> (r: Option<usize>)
        ensures
            r == if self.selected < self.results {
                Some(self.selected)
            } else {
                None
            },
    {
        if self.selected < self.results {
            Some(self.selected)
        } else {
            None
        }
    }

    fn last_index(&self) -> (last: usize)
        ensures
            last == last_result(self@),
    {
        if self.results == 0 {
            0
        } else {
            self.results - 1
        }
    }

    fn scroll_up_by(&mut self, lines: u16)
        ensures
            final(self)@ == (AppView {
                detail_scroll: scrolled_up(old(self)@, lines as nat),
                ..old(self)@
            }),
    {
        self.detail_scroll = if self.detail_scroll >= lines {
            self.detail_scroll - lines
        } else {
            0
        };
    }

    fn scroll_page_down(&mut self)
        ensures
            final(self)@ == (AppView {
                detail_scroll: scrolled_page_down(old(self)@),
                ..old(self)@
            }),
    {
        let target: u16 = if self.detail_scroll <= u16::MAX - 10 {
            self.detail_scroll + 10
        } else {
            u16::MAX
        };
        self.detail_scroll = if target <= self.detail_max_scroll {
            target
        } else {
            self.detail_max_scroll
        };
    }
}

/// Takes a key while the search field has the focus.
pub fn handle_search_input(app: &mut App, key: KeyPress) -> (r: EventResult)
    requires
        old(app).wf(),
    ensures
        (final(app)@, r) == search_key(old(app)@, key.code, key.ctrl),
        final(app).wf(),
{
    match key.code {
        Key::Char(c) => {
            if c == 'u' && key.ctrl {
                app.clear_search();
            } else {
                app.input_char(c);
            }
            EventResult::Search
        },
        Key::Esc => {
            if app.query.len() == 0 {
                EventResult::Quit
            } else {
                app.clear_search();
                EventResult::Search
            }
        },
        Key::Backspace => {
            app.delete_char();
            EventResult::Search
        },
        Key::Delete => {
            app.delete_char_forward();
            EventResult::Search
        },
        Key::Left => {
            app.cursor_left();
            EventResult::Continue
        },
        Key::Right => {
            app.cursor_right();
            EventResult::Continue
        },
        Key::Home => {
            app.cursor_home();
            EventResult::Continue
        },
        Key::End => {
            app.cursor_end();
            EventResult::Continue
        },
        Key::Tab | Key::Down | Key::Enter => {
            if app.results > 0 {
                app.focus = Focus::List;
            }
            EventResult::Continue
        },
        _ => EventResult::Continue,
    }
}

/// Takes a key while the list has the focus.
pub fn handle_list_input(app: &mut App, key: KeyPress) -> (r: EventResult)
    requires
        old(app).wf(),
    ensures
        (final(app)@, r) == list_key(old(app)@, key.code),
        final(app).wf(),
{
    match key.code {
        Key::Up => {
            app.list_up();
            EventResult::Continue
        },
        Key::Down => {
            app.list_down();
            EventResult::Continue
        },
        Key::PageUp => {
            app.list_page_up();
            EventResult::Continue
        },
        Key::PageDown => {
            app.list_page_down();
            EventResult::Continue
        },
        Key::Home => {
            app.selected = 0;
            app.detail_scroll = 0;
            EventResult::Continue
        },
        Key::End => {
            app.selected = app.last_index();
            app.detail_scroll = 0;
            EventResult::Continue
        },
        Key::Tab => {
            app.next_focus();
            EventResult::Continue
        },
        Key::Enter | Key::Right => {
            app.focus = Focus::Detail;
            EventResult::Continue
        },
        Key::Esc => {
            app.focus = Focus::Search;
            EventResult::Continue
        },
        Key::Char(c) => handle_list_char(app, c, is_alphanumeric(c)),
        _ => EventResult::Continue,
    }
}

/// Takes a character while the list has the focus; `word` tells
/// whether the character is a letter or a digit.
pub fn handle_list_char(app: &mut App, c: char, word: bool) -> (r: EventResult)
    requires
        old(app).wf(),
    ensures
        (final(app)@, r) == list_char(old(app)@, c, word),
        final(app).wf(),
{
    if c == 'k' {
        app.list_up();
        EventResult::Continue
    } else if c == 'j' {
        app.list_down();
        EventResult::Continue
    } else if c == 'g' {
        app.selected = 0;
        app.detail_scroll = 0;
        EventResult::Continue
    } else if c == 'G' {
        app.selected = app.last_index();
        app.detail_scroll = 0;
        EventResult::Continue
    } else if c == 'l' {
        app.focus = Focus::Detail;
        EventResult::Continue
    } else if c == '/' {
        app.focus = Focus::Search;
        EventResult::Continue
    } else if word || c == ' ' {
        app.focus = Focus::Search;
        app.input_char(c);
        EventResult::Search
    } else {
        EventResult::Continue
    }
}

/// Takes a key while the detail view has the focus.
pub fn handle_detail_input(app: &mut App, key: KeyPress) -> (r: EventResult)
    ensures
        (final(app)@, r) == detail_key(old(app)@, key.code),
{
    match key.code {
        Key::Up => {
            app.detail_scroll_up();
        },
        Key::Down => {
            app.detail_scroll_down();
        },
        Key::PageUp => {
            app.scroll_up_by(10);
        },
        Key::PageDown => {
            app.scroll_page_down();
        },
        Key::Home => {
            app.detail_scroll = 0;
        },
        Key::End => {
            app.detail_scroll = app.detail_max_scroll;
        },
        Key::Tab => {
            app.next_focus();
        },
        Key::Left | Key::Esc => {
            app.focus = Focus::List;
        },
        Key::Char(c) => {
            if c == 'k' {
                app.detail_scroll_up();
            } else if c == 'j' {
                app.detail_scroll_down();
            } else if c == 'g' {
                app.scroll_up_by(10);
            } else if c == 'G' {
                app.scroll_page_down();
            } else if c == 'h' {
                app.focus = Focus::List;
            } else if c == '/' {
                app.focus = Focus::Search;
            }
        },
        _ => {},
    }
    EventResult::Continue
}

/// Takes a key, pressed with the control key or without it, and says
/// what the event loop is to do.
pub fn handle_key_event(app: &mut App, key: KeyPress) -> (r: EventResult)
    requires
        old(app).wf(),
    ensures
        (final(app)@, r) == key_step(old(app)@, key.code, key.ctrl),
        final(app).wf(),
{
    let ctrl = key.ctrl;
    let is_c_or_q = match key.code {
        Key::Char(c) => c == 'c' || c == 'q',
        _ => false,
    };
    let letter = match key.code {
        Key::Char(c) => Some(c),
        _ => None,
    };
    if ctrl && is_c_or_q {
        return EventResult::Quit;
    }
    if ctrl && letter == Some('h') {
        app.show_help = !app.show_help;
        return EventResult::Continue;
    }
    if letter == Some('?') && app.focus != Focus::Search {
        app.show_help = !app.show_help;
        return EventResult::Continue;
    }
    if ctrl && letter == Some('l') {
        app.toggle_logs();
        return EventResult::Continue;
    }
    if app.show_help {
        let closes = match key.code {
            Key::Esc | Key::Enter => true,
            Key::Char(c) => c == ' ' || c == '?',
            _ => false,
        };
        if closes {
            app.show_help = false;
        }
        return EventResult::Continue;
    }
    match app.focus {
        Focus::Search => handle_search_input(app, key),
        Focus::List => handle_list_input(app, key),
        Focus::Detail => handle_detail_input(app, key),
    }
}

/// The name of a log target as the log panel shows it: what follows its
/// last `::`.
pub open spec fn short_target(target: Seq<char>, to: int) -> Seq<char>
    decreases to,
{
    if to < 2 || to > target.len() {
        target
    } else if target[to - 2] == ':' && target[to - 1] == ':' {
        target.skip(to)
    } else {
        short_target(target, to - 1)
    }
}

/// A log line as the log panel shows it: the level in brackets, the
/// short target, a dash and the message.
pub open spec fn log_line_text(level: Seq<char>, target: Seq<char>, message: Seq<char>) -> Seq<char> {
    "["@ + level + "] "@ + short_target(target, target.len() as int) + " - "@ + message
}

/// The log line for an event.
pub fn log_line(level: &str, target: &str, message: &str) -> (r: String)
    ensures
        r@ == log_line_text(level@, target@, message@),
{
    let t = chars_of(target);
    let mut to: usize = t.len();
    while to >= 2 && !(t[to - 2] == ':' && t[to - 1] == ':')
        invariant
            to <= t.len(),
            short_target(t@, t.len() as int) == short_target(t@, to as int),
        decreases to,
    {
        to -= 1;
    }
    let short = if to >= 2 {
        let tail = slice(&t, to, t.len());
        assert(tail@ =~= t@.skip(to as int));
        tail
    } else {
        t
    };
    let mut out = framed("[", &chars_of(level), "] ");
    append(&mut out, &short);
    append(&mut out, &chars_of(" - "));
    append(&mut out, &chars_of(message));
    string_of(&out)
}

/// The log lines after one more: the oldest leaves where `max_size` lines
/// are kept already.
pub open spec fn logged(lines: Seq<Seq<char>>, max_size: nat, line: Seq<char>) -> Seq<Seq<char>> {
    if lines.len() > 0 && lines.len() >= max_size {
        lines.skip(1).push(line)
    } else {
        lines.push(line)
    }
}

/// Keeps one more log line, and drops the oldest where `max_size` lines
/// are kept already.
pub fn push_log(lines: &mut Vec<String>, max_size: usize, line: String)
    ensures
        strings(final(lines)@) == logged(
            strings(old(lines)@),
            max_size as nat,
            line@,
        ),
{
    if lines.len() > 0 && lines.len() >= max_size {
        lines.remove(0);
    }
    lines.push(line);
    assert(strings(lines@) =~= logged(
        strings(old(lines)@),
        max_size as nat,
        line@,
    ));
}

} // verus!
