//! What the keys do and what the screen shows.
//!
//! `handle_events` turns one event of the terminal into a step of the
//! browser. `project` turns the browser's state into a `RenderModel`, the
//! only thing that drawing code reads: plain texts and positions, nothing of
//! the terminal.

use crate::devoxx::model::TalkView;
use crate::text::{opt_text, texts};
use crate::ui::app::{Action, App, AppState, Command, Mode};
use vstd::prelude::*;
use vstd::string::{StrSliceExecFns, StringExecFns};

verus! {

/// A key of the keyboard, as far as the browser tells keys apart.
#[derive(Clone, Copy, Debug, PartialEq, Eq, Structural)]
pub enum Key {
    Backspace,
    Left,
    Right,
    Up,
    Down,
    /// A character; Enter is `'\n'`, Tab is `'\t'`.
    Char(char),
    /// A character typed with Ctrl held down.
    Ctrl(char),
    Esc,
    /// Any other key.
    Other,
}

/// What the terminal reports.
#[derive(Clone, Copy, Debug, PartialEq, Eq, Structural)]
pub enum Event {
    /// A key was pressed.
    Input(Key),
    /// Time has passed.
    Tick,
}

/// The step that a key stands for in a mode; `None` for a key without
/// meaning there.
///
/// Ctrl-C and Ctrl-D quit. Tab and the right arrow go to the next day, the
/// left arrow to the previous one. The down and up arrows move the
/// selection. Enter opens the selected talk in `Normal` and confirms the
/// search in `Search`. A slash starts a search, Esc drops it. While
/// searching, Backspace and all other characters edit the search text.
pub open spec fn command_for(event: Event, mode: Mode) -> Option<Command> {
    match event {
        Event::Tick => Some(Command::Tick),
        Event::Input(key) => match key {
            Key::Ctrl(c) => if c == 'c' || c == 'd' {
                Some(Command::Quit)
            } else {
                None
            },
            Key::Left => Some(Command::PreviousTab),
            Key::Right => Some(Command::NextTab),
            Key::Down => Some(Command::NextItem),
            Key::Up => Some(Command::PreviousItem),
            Key::Esc => Some(Command::Cancel),
            Key::Backspace => if mode == Mode::Search {
                Some(Command::Backspace)
            } else {
                None
            },
            Key::Char(c) => if c == '\t' {
                Some(Command::NextTab)
            } else if c == '\n' {
                match mode {
                    Mode::Normal => Some(Command::Select),
                    Mode::Search => Some(Command::Confirm),
                    Mode::Filtered => None,
                }
            } else if c == '/' {
                Some(Command::EnterSearch)
            } else if mode == Mode::Search {
                Some(Command::TextInput(c))
            } else {
                None
            },
            Key::Other => None,
        },
    }
}

/// The state after an event.
pub open spec fn state_after(state: AppState, event: Event) -> AppState {
    match command_for(event, state.mode) {
        Some(command) => state.apply(command),
        None => state,
    }
}

/// What is left for the caller to do after an event.
pub open spec fn action_after(state: AppState, event: Event) -> Action {
    match command_for(event, state.mode) {
        Some(command) => state.action(command),
        None => Action::Idle,
    }
}

/// The step that an event stands for in a mode.
pub fn interpret(event: Event, mode: Mode) -> (command: Option<Command>)
    ensures
        command == command_for(event, mode),
{
    match event {
        Event::Tick => Some(Command::Tick),
        Event::Input(key) => match key {
            Key::Ctrl(c) => if c == 'c' || c == 'd' {
                Some(Command::Quit)
            } else {
                None
            },
            Key::Left => Some(Command::PreviousTab),
            Key::Right => Some(Command::NextTab),
            Key::Down => Some(Command::NextItem),
            Key::Up => Some(Command::PreviousItem),
            Key::Esc => Some(Command::Cancel),
            Key::Backspace => if mode == Mode::Search {
                Some(Command::Backspace)
            } else {
                None
            },
            Key::Char(c) => if c == '\t' {
                Some(Command::NextTab)
            } else if c == '\n' {
                match mode {
                    Mode::Normal => Some(Command::Select),
                    Mode::Search => Some(Command::Confirm),
                    Mode::Filtered => None,
                }
            } else if c == '/' {
                Some(Command::EnterSearch)
            } else if mode == Mode::Search {
                Some(Command::TextInput(c))
            } else {
                None
            },
            Key::Other => None,
        },
    }
}

/// Takes the step that the event stands for and says what is left for the
/// caller to do: load a day's talks and hand them to `App::next_tab` or
/// `App::previous_tab`, or show the selected talk.
pub fn handle_events(app: &mut App, event: Event) -> (action: Action)
    ensures
        final(app)@ == state_after(old(app)@, event),
        action == action_after(old(app)@, event),
        old(app)@.wf() ==> final(app)@.wf(),
{
    match interpret(event, app.mode()) {
        Some(command) => app.apply(command),
        None => Action::Idle,
    }
}

/// The row of the terminal that the cursor stands on. Text is typed into the
/// search bar alone, which is the bottom row.
#[derive(Clone, Copy, Debug, PartialEq, Eq, Structural)]
pub enum CursorRow {
    Bottom,
}

/// Where the cursor stands and whether it shows.
#[derive(Clone, Copy, Debug, PartialEq, Eq, Structural)]
pub struct Cursor {
    pub visible: bool,
    /// The column, counted from 1.
    pub column: u16,
    pub row: CursorRow,
}

/// What the screen shows.
#[derive(Debug)]
pub struct RenderModel {
    /// The names of the five conference days.
    pub tab_labels: Vec<String>,
    /// The position of the day on show among the tabs.
    pub selected_tab: usize,
    /// The titles of the talks on the list.
    pub list_items: Vec<String>,
    /// The position of the selected talk on the list.
    pub selected_item: Option<usize>,
    /// The description of the selected talk.
    pub detail_text: String,
    /// The search bar, where there is one.
    pub search_bar: Option<String>,
    pub cursor: Cursor,
}

/// The model of a `RenderModel`.
pub struct RenderView {
    pub tab_labels: Seq<Seq<char>>,
    pub selected_tab: usize,
    pub list_items: Seq<Seq<char>>,
    pub selected_item: Option<usize>,
    pub detail_text: Seq<char>,
    pub search_bar: Option<Seq<char>>,
    pub cursor: Cursor,
}

impl View for RenderModel {
    type V = RenderView;

    open spec fn view(&self) -> RenderView {
        RenderView {
            tab_labels: texts(self.tab_labels@),
            selected_tab: self.selected_tab,
            list_items: texts(self.list_items@),
            selected_item: self.selected_item,
            detail_text: self.detail_text@,
            search_bar: opt_text(self.search_bar),
            cursor: self.cursor,
        }
    }
}

/// The names of the five conference days, Monday first.
pub open spec fn tab_labels() -> Seq<Seq<char>> {
    seq!["Monday"@, "Tuesday"@, "Wednesday"@, "Thursday"@, "Friday"@]
}

/// What the detail pane says while no talk is selected.
pub open spec fn detail_placeholder() -> Seq<char> {
    "No talk selected"@
}

/// The description of the selected talk, or the placeholder where none is
/// selected.
pub open spec fn detail_text(state: AppState) -> Seq<char> {
    match state.selected {
        Some(index) => if index < state.filtered().len() {
            state.filtered()[index as int].display_description()
        } else {
            detail_placeholder()
        },
        None => detail_placeholder(),
    }
}

/// The search bar: a slash and the search text, while there is a search.
pub open spec fn search_bar(state: AppState) -> Option<Seq<char>> {
    if state.mode == Mode::Search || state.mode == Mode::Filtered {
        Some(seq!['/'] + state.search_text)
    } else {
        None
    }
}

/// The column behind the last character of the search text, which follows
/// the slash in the first column; the last column that a terminal can have
/// where the text is longer than that.
pub open spec fn cursor_column(search_text: Seq<char>) -> u16 {
    if search_text.len() + 2 <= u16::MAX {
        (search_text.len() + 2) as u16
    } else {
        u16::MAX
    }
}

/// What the screen shows of a state.
pub open spec fn render(state: AppState) -> RenderView {
    RenderView {
        tab_labels: tab_labels(),
        selected_tab: state.day.days_from_monday() as usize,
        list_items: state.filtered().map_values(|talk: TalkView| talk.display_title()),
        selected_item: state.selected,
        detail_text: detail_text(state),
        search_bar: search_bar(state),
        cursor: Cursor {
            visible: state.mode == Mode::Search,
            column: cursor_column(state.search_text),
            row: CursorRow::Bottom,
        },
    }
}

/// The names of the five conference days, Monday first.
fn day_labels() -> (labels: Vec<String>)
    ensures
        texts(labels@) == tab_labels(),
{
    let mut labels: Vec<String> = Vec::new();
    labels.push(String::from_str("Monday"));
    labels.push(String::from_str("Tuesday"));
    labels.push(String::from_str("Wednesday"));
    labels.push(String::from_str("Thursday"));
    labels.push(String::from_str("Friday"));
    labels
}

/// What the screen shows of the browser's state.
pub fn project(app: &App) -> (model: RenderModel)
    ensures
        model@ == render(app@),
{
    let titles = app.talk_titles();
    let mut list_items: Vec<String> = Vec::new();
    let mut i: usize = 0;
    while i < titles.len()
        invariant
            i <= titles.len(),
            list_items@.len() == i,
            forall|k: int| 0 <= k < i ==> (#[trigger] list_items@[k])@ == titles@[k]@,
        decreases titles.len() - i,
    {
        list_items.push(String::from_str(titles[i]));
        i += 1;
    }
    let detail_text = match app.selected() {
        Some(_) => match app.get_selected() {
            Some(talk) => String::from_str(talk.get_description()),
            None => String::from_str("No talk selected"),
        },
        None => String::from_str("No talk selected"),
    };
    let mode = app.mode();
    let search_bar = if mode == Mode::Search || mode == Mode::Filtered {
        let mut bar = String::new();
        bar.push('/');
        bar.append(app.search_text());
        Some(bar)
    } else {
        None
    };
    let len = app.search_text().unicode_len();
    let column: u16 = if len <= 65533 {
        (len + 2) as u16
    } else {
        u16::MAX
    };
    let model = RenderModel {
        tab_labels: day_labels(),
        selected_tab: app.day().num_days_from_monday() as usize,
        list_items,
        selected_item: app.selected(),
        detail_text,
        search_bar,
        cursor: Cursor { visible: mode == Mode::Search, column, row: CursorRow::Bottom },
    };
    assert(model@.list_items =~= render(app@).list_items);
    model
}

} // verus!
