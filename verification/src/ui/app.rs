//! The state of the browser and the steps that change it.
//!
//! `AppState` is the model: the day, the day's talks, the search text, the
//! mode and the selection. Every step is a function on it. `App` is the state
//! that runs, with the same steps as methods; each method's contract says
//! which function of the model it computes.
//!
//! The talks of a day come from outside. A change of day therefore takes two
//! steps: `Command::NextTab` or `Command::PreviousTab` asks for it and leaves
//! the state as it is, and `App::next_tab` or `App::previous_tab` completes
//! it with what the loader returned, or leaves the state as it is where the
//! loader failed.

use crate::devoxx::model::{Talk, TalkView};
use crate::devoxx::weekday::Weekday;
use crate::devoxx::LoadError;
use crate::text::{chars_of, contains, is_substring, occurs_at};
use vstd::prelude::*;

verus! {

/// What the keys mean at the moment.
#[derive(Clone, Copy, Debug, PartialEq, Eq, Structural)]
pub enum Mode {
    /// All talks of the day are listed.
    Normal,
    /// The talks that match the search text are listed; the text is fixed.
    Filtered,
    /// The talks that match the search text are listed; keys edit the text.
    Search,
}

/// One step of the browser.
#[derive(Clone, Copy, Debug, PartialEq, Eq, Structural)]
pub enum Command {
    /// Go to the next conference day.
    NextTab,
    /// Go to the previous conference day.
    PreviousTab,
    /// Select the next talk of the list.
    NextItem,
    /// Select the previous talk of the list.
    PreviousItem,
    /// Start to edit the search text.
    EnterSearch,
    /// Add a character to the search text.
    TextInput(char),
    /// Take the last character off the search text.
    Backspace,
    /// Stop editing and keep the list as the search text left it.
    Confirm,
    /// Drop the search text and list all talks again.
    Cancel,
    /// Open the selected talk.
    Select,
    /// Leave the browser.
    Quit,
    /// Time has passed.
    Tick,
}

/// What the caller has to do after a step.
#[derive(Clone, Copy, Debug, PartialEq, Eq, Structural)]
pub enum Action {
    /// Nothing.
    Idle,
    /// Load the talks of the next conference day and hand them to
    /// `App::next_tab`.
    NextTab,
    /// Load the talks of the previous conference day and hand them to
    /// `App::previous_tab`.
    PreviousTab,
    /// Show the talk at this position of the list in full.
    Select(usize),
}

/// The models of the talks of a list, in order.
pub open spec fn talk_views(talks: Seq<Talk>) -> Seq<TalkView> {
    talks.map_values(|talk: Talk| talk@)
}

/// The models of the talks that a list refers to, in order.
pub open spec fn shown_views(talks: Seq<&Talk>) -> Seq<TalkView> {
    talks.map_values(|talk: &Talk| talk@)
}

/// The talks whose title to show holds the search text, in their order. Upper
/// and lower case differ.
pub open spec fn filter_talks(talks: Seq<TalkView>, search_text: Seq<char>) -> Seq<TalkView> {
    talks.filter(|talk: TalkView| is_substring(talk.display_title(), search_text))
}

/// The selection for a list that has just changed: its first entry, or none
/// where it is empty.
pub open spec fn first_selection(len: nat) -> Option<usize> {
    if len == 0 {
        None
    } else {
        Some(0)
    }
}

/// The selection points into a list of this length, or the list is empty and
/// nothing is selected.
pub open spec fn selection_fits(selected: Option<usize>, len: nat) -> bool {
    match selected {
        Some(index) => index < len,
        None => len == 0,
    }
}

/// The selection one further down a list of this length, the first entry
/// following the last.
pub open spec fn selection_after(selected: Option<usize>, len: nat) -> Option<usize> {
    match selected {
        Some(index) => if len == 0 {
            selected
        } else if index >= len - 1 {
            Some(0)
        } else {
            Some((index + 1) as usize)
        },
        None => first_selection(len),
    }
}

/// The selection one further up a list of this length, the last entry
/// preceding the first.
pub open spec fn selection_before(selected: Option<usize>, len: nat) -> Option<usize> {
    match selected {
        Some(index) => if len == 0 {
            selected
        } else if index > 0 {
            Some((index - 1) as usize)
        } else {
            Some((len - 1) as usize)
        },
        None => first_selection(len),
    }
}

/// The model of the browser's state.
pub struct AppState {
    /// The day whose talks are listed.
    pub day: Weekday,
    /// The talks of that day.
    pub talks: Seq<TalkView>,
    /// The position of the selected talk in the filtered list.
    pub selected: Option<usize>,
    /// What the user searches for.
    pub search_text: Seq<char>,
    pub mode: Mode,
    pub should_quit: bool,
    /// Whether the talks are read from local files.
    pub offline: bool,
}

impl AppState {
    /// The list on the screen: the talks of the day that match the search
    /// text.
    pub open spec fn filtered(self) -> Seq<TalkView> {
        filter_talks(self.talks, self.search_text)
    }

    /// The day is a conference day, the selection fits the list on the
    /// screen, and there is a search text only while searching.
    pub open spec fn wf(self) -> bool {
        &&& self.day.is_conference_day()
        &&& selection_fits(self.selected, self.filtered().len())
        &&& self.mode == Mode::Normal ==> self.search_text.len() == 0
    }

    /// The state at the start: Monday with its talks, nothing searched.
    pub open spec fn initial(offline: bool, talks: Seq<TalkView>) -> AppState {
        AppState {
            day: Weekday::Mon,
            talks,
            selected: first_selection(talks.len()),
            search_text: Seq::empty(),
            mode: Mode::Normal,
            should_quit: false,
            offline,
        }
    }

    /// The state with another day and its talks; the search text stays and
    /// the selection starts anew.
    pub open spec fn with_day(self, day: Weekday, talks: Seq<TalkView>) -> AppState {
        AppState {
            day,
            talks,
            selected: first_selection(filter_talks(talks, self.search_text).len()),
            ..self
        }
    }

    /// The state with another search text; the selection starts anew.
    pub open spec fn with_search_text(self, search_text: Seq<char>) -> AppState {
        AppState {
            search_text,
            selected: first_selection(filter_talks(self.talks, search_text).len()),
            ..self
        }
    }

    /// The next conference day with its talks.
    pub open spec fn next_tab(self, talks: Seq<TalkView>) -> AppState {
        self.with_day(self.day.next_conference_day(), talks)
    }

    /// The previous conference day with its talks.
    pub open spec fn previous_tab(self, talks: Seq<TalkView>) -> AppState {
        self.with_day(self.day.previous_conference_day(), talks)
    }

    /// The selection moves one down the list, from the last entry to the
    /// first.
    pub open spec fn next_item(self) -> AppState {
        AppState { selected: selection_after(self.selected, self.filtered().len()), ..self }
    }

    /// The selection moves one up the list, from the first entry to the last.
    pub open spec fn previous_item(self) -> AppState {
        AppState { selected: selection_before(self.selected, self.filtered().len()), ..self }
    }

    /// From `Normal`, a search starts with an empty text; from `Filtered`,
    /// the search goes on with the text as it is.
    pub open spec fn enter_search(self) -> AppState {
        match self.mode {
            Mode::Normal => AppState { mode: Mode::Search, search_text: Seq::empty(), ..self },
            Mode::Filtered => AppState { mode: Mode::Search, ..self },
            Mode::Search => self,
        }
    }

    /// While searching, the character joins the search text.
    pub open spec fn text_input(self, c: char) -> AppState {
        if self.mode == Mode::Search {
            self.with_search_text(self.search_text.push(c))
        } else {
            self
        }
    }

    /// While searching, the search text loses its last character, if it has
    /// one.
    pub open spec fn backspace(self) -> AppState {
        if self.mode == Mode::Search {
            self.with_search_text(
                if self.search_text.len() > 0 {
                    self.search_text.drop_last()
                } else {
                    self.search_text
                },
            )
        } else {
            self
        }
    }

    /// While searching, the list stays as the search text left it and the
    /// text is fixed.
    pub open spec fn confirm(self) -> AppState {
        if self.mode == Mode::Search {
            AppState { mode: Mode::Filtered, ..self }
        } else {
            self
        }
    }

    /// The search text goes, and all talks of the day are listed again.
    pub open spec fn cancel(self) -> AppState {
        AppState { mode: Mode::Normal, ..self.with_search_text(Seq::empty()) }
    }

    pub open spec fn quit(self) -> AppState {
        AppState { should_quit: true, ..self }
    }

    /// The state after a command. After `Quit` no command changes it any
    /// more. A change of day only asks for the talks: see `action`.
    pub open spec fn apply(self, command: Command) -> AppState {
        if self.should_quit {
            self
        } else {
            match command {
                Command::NextTab => self,
                Command::PreviousTab => self,
                Command::NextItem => self.next_item(),
                Command::PreviousItem => self.previous_item(),
                Command::EnterSearch => self.enter_search(),
                Command::TextInput(c) => self.text_input(c),
                Command::Backspace => self.backspace(),
                Command::Confirm => self.confirm(),
                Command::Cancel => self.cancel(),
                Command::Select => self,
                Command::Quit => self.quit(),
                Command::Tick => self,
            }
        }
    }

    /// What the caller has to do after a command: load a day's talks for a
    /// change of day, show the selected talk for `Select` in `Normal`.
    pub open spec fn action(self, command: Command) -> Action {
        if self.should_quit {
            Action::Idle
        } else {
            match command {
                Command::NextTab => Action::NextTab,
                Command::PreviousTab => Action::PreviousTab,
                Command::Select => match self.selected {
                    Some(index) => if self.mode == Mode::Normal && index < self.filtered().len() {
                        Action::Select(index)
                    } else {
                        Action::Idle
                    },
                    None => Action::Idle,
                },
                _ => Action::Idle,
            }
        }
    }

    /// The state after a run of commands.
    pub open spec fn apply_all(self, commands: Seq<Command>) -> AppState
        decreases commands.len(),
    {
        if commands.len() == 0 {
            self
        } else {
            self.apply_all(commands.drop_last()).apply(commands.last())
        }
    }
}

/// An empty search text lists every talk.
pub proof fn lemma_empty_search_lists_all(talks: Seq<TalkView>)
    ensures
        filter_talks(talks, Seq::empty()) == talks,
    decreases talks.len(),
{
    reveal(Seq::filter);
    if talks.len() > 0 {
        lemma_empty_search_lists_all(talks.drop_last());
        let title = talks.last().display_title();
        assert(occurs_at(title, Seq::empty(), 0)) by {
            assert(title.subrange(0, 0) =~= Seq::<char>::empty());
        }
    }
}

/// Every step keeps a well-formed state well-formed.
pub proof fn lemma_steps_keep_wf(state: AppState)
    requires
        state.wf(),
    ensures
        state.next_item().wf(),
        state.previous_item().wf(),
        state.enter_search().wf(),
        forall|c: char| (#[trigger] state.text_input(c)).wf(),
        state.backspace().wf(),
        state.confirm().wf(),
        state.cancel().wf(),
        state.quit().wf(),
{
    lemma_empty_search_lists_all(state.talks);
    if state.mode == Mode::Normal {
        assert(state.search_text =~= Seq::<char>::empty());
    }
}

/// Every command keeps a well-formed state well-formed.
pub proof fn lemma_apply_keeps_wf(state: AppState, command: Command)
    requires
        state.wf(),
    ensures
        state.apply(command).wf(),
{
    lemma_steps_keep_wf(state);
}

/// A change of day keeps a well-formed state well-formed, whatever the talks
/// of the new day are.
pub proof fn lemma_tabs_keep_wf(state: AppState, talks: Seq<TalkView>)
    requires
        state.wf(),
    ensures
        state.next_tab(talks).wf(),
        state.previous_tab(talks).wf(),
{
}

/// Every run of commands keeps a well-formed state well-formed.
pub proof fn lemma_apply_all_keeps_wf(state: AppState, commands: Seq<Command>)
    requires
        state.wf(),
    ensures
        state.apply_all(commands).wf(),
    decreases commands.len(),
{
    if commands.len() > 0 {
        lemma_apply_all_keeps_wf(state, commands.drop_last());
        lemma_apply_keeps_wf(state.apply_all(commands.drop_last()), commands.last());
    }
}

/// No run of commands changes the day, the talks of the day or where they
/// are read from: the day and its talks change only when a change of day is
/// completed with the talks that were loaded, and the source never changes.
pub proof fn lemma_commands_keep_day_and_talks(
    state: AppState,
    commands: Seq<Command>,
    talks: Seq<TalkView>,
)
    ensures
        state.apply_all(commands).day == state.day,
        state.apply_all(commands).talks == state.talks,
        state.apply_all(commands).offline == state.offline,
        state.next_tab(talks).offline == state.offline,
        state.previous_tab(talks).offline == state.offline,
    decreases commands.len(),
{
    if commands.len() > 0 {
        lemma_commands_keep_day_and_talks(state, commands.drop_last(), talks);
    }
}

/// Moving up and down the list, however often and in whatever order, leaves
/// the list as it is and the selection inside it: one of its entries where
/// it has any, none where it is empty.
pub proof fn lemma_selection_stays_in_list(state: AppState, moves: Seq<Command>)
    requires
        state.wf(),
        forall|i: int|
            0 <= i < moves.len() ==> moves[i] == Command::NextItem || moves[i]
                == Command::PreviousItem,
    ensures
        state.apply_all(moves).filtered() == state.filtered(),
        state.filtered().len() > 0 ==> state.apply_all(moves).selected is Some
            && state.apply_all(moves).selected->0 < state.filtered().len(),
        state.filtered().len() == 0 ==> state.apply_all(moves).selected is None,
    decreases moves.len(),
{
    if moves.len() > 0 {
        lemma_selection_stays_in_list(state, moves.drop_last());
    }
}

/// Five steps to the next conference day come back to the day they started
/// from, whatever talks each day has, and so do five steps to the previous
/// one.
pub proof fn lemma_five_tabs_make_a_round(
    state: AppState,
    t1: Seq<TalkView>,
    t2: Seq<TalkView>,
    t3: Seq<TalkView>,
    t4: Seq<TalkView>,
    t5: Seq<TalkView>,
)
    requires
        state.wf(),
    ensures
        state.next_tab(t1).next_tab(t2).next_tab(t3).next_tab(t4).next_tab(t5).day == state.day,
        state.previous_tab(t1).previous_tab(t2).previous_tab(t3).previous_tab(t4).previous_tab(
            t5,
        ).day == state.day,
{
}

/// A step to the previous conference day undoes a step to the next one, and
/// the other way round: with the same talks handed back, the state is the
/// one before the two steps but for the selection, which starts anew.
pub proof fn lemma_previous_tab_undoes_next_tab(
    state: AppState,
    there: Seq<TalkView>,
)
    requires
        state.wf(),
    ensures
        state.next_tab(there).previous_tab(state.talks) == state.with_day(state.day, state.talks),
        state.previous_tab(there).next_tab(state.talks) == state.with_day(state.day, state.talks),
        state.next_tab(there).previous_tab(state.talks).day == state.day,
        state.previous_tab(there).next_tab(state.talks).day == state.day,
{
}

/// After `Cancel` the mode is `Normal` and the search text is empty,
/// whatever the mode was before.
pub proof fn lemma_cancel_clears_search(state: AppState)
    ensures
        state.cancel().mode == Mode::Normal,
        state.cancel().search_text == Seq::<char>::empty(),
        state.cancel().filtered() == state.talks,
        !state.should_quit ==> state.apply(Command::Cancel) == state.cancel(),
{
    lemma_empty_search_lists_all(state.talks);
}

/// The browser's state.
pub struct App {
    day: Weekday,
    talks: Vec<Talk>,
    selected: Option<usize>,
    search_text: String,
    mode: Mode,
    should_quit: bool,
    offline: bool,
}

impl View for App {
    type V = AppState;

    closed spec fn view(&self) -> AppState {
        AppState {
            day: self.day,
            talks: talk_views(self.talks@),
            selected: self.selected,
            search_text: self.search_text@,
            mode: self.mode,
            should_quit: self.should_quit,
            offline: self.offline,
        }
    }
}

impl App {
    /// The browser at its start: on Monday, with Monday's talks, its first
    /// talk selected, nothing searched.
    pub fn new(offline: bool, talks: Vec<Talk>) -> (app: App)
        ensures
            app@ == AppState::initial(offline, talk_views(talks@)),
            app@.wf(),
    {
        let selected = if talks.len() == 0 {
            None
        } else {
            Some(0)
        };
        proof {
            lemma_empty_search_lists_all(talk_views(talks@));
        }
        App {
            day: Weekday::Mon,
            talks,
            selected,
            search_text: String::new(),
            mode: Mode::Normal,
            should_quit: false,
            offline,
        }
    }

    /// The day whose talks are listed.
    pub fn day(&self) -> (day: Weekday)
        ensures
            day == self@.day,
    {
        self.day
    }

    /// The position of the selected talk in the list on the screen.
    pub fn selected(&self) -> (selected: Option<usize>)
        ensures
            selected == self@.selected,
    {
        self.selected
    }

    /// What the user searches for.
    pub fn search_text(&self) -> (search_text: &str)
        ensures
            search_text@ == self@.search_text,
    {
        self.search_text.as_str()
    }

    pub fn mode(&self) -> (mode: Mode)
        ensures
            mode == self@.mode,
    {
        self.mode
    }

    pub fn should_quit(&self) -> (should_quit: bool)
        ensures
            should_quit == self@.should_quit,
    {
        self.should_quit
    }

    /// Whether the talks are read from local files.
    pub fn offline(&self) -> (offline: bool)
        ensures
            offline == self@.offline,
    {
        self.offline
    }

    /// The day to load the talks of for `next_tab`.
    pub fn next_day(&self) -> (day: Weekday)
        ensures
            day == self@.day.next_conference_day(),
    {
        if self.day == Weekday::Fri {
            Weekday::Mon
        } else {
            self.day.succ()
        }
    }

    /// The day to load the talks of for `previous_tab`.
    pub fn previous_day(&self) -> (day: Weekday)
        ensures
            day == self@.day.previous_conference_day(),
    {
        if self.day == Weekday::Mon {
            Weekday::Fri
        } else {
            self.day.pred()
        }
    }

    /// A pulse of the clock: nothing changes.
    pub fn advance(&mut self)
        ensures
            final(self)@ == old(self)@,
    {
    }

    /// The list on the screen: the talks of the day whose title to show
    /// holds the search text, in the order of the day.
    pub fn talks(&self) -> (shown: Vec<&Talk>)
        ensures
            shown_views(shown@) == self@.filtered(),
    {
        let query = chars_of(self.search_text.as_str());
        let mut shown: Vec<&Talk> = Vec::new();
        let mut i: usize = 0;
        assert(filter_talks(Seq::<TalkView>::empty(), self.search_text@) =~= Seq::<
            TalkView,
        >::empty()) by {
            reveal(Seq::filter);
        }
        while i < self.talks.len()
            invariant
                i <= self.talks.len(),
                query@ == self.search_text@,
                shown_views(shown@) == filter_talks(
                    talk_views(self.talks@).take(i as int),
                    self.search_text@,
                ),
            decreases self.talks.len() - i,
        {
            let talk = &self.talks[i];
            let title = chars_of(talk.get_title());
            proof {
                let all = talk_views(self.talks@);
                assert(all.take(i + 1) =~= all.take(i as int).push(talk@));
                all.take(i as int).lemma_filter_push(
                    talk@,
                    |talk: TalkView| is_substring(talk.display_title(), self.search_text@),
                );
            }
            if contains(&title, &query) {
                shown.push(talk);
            }
            i += 1;
        }
        assert(talk_views(self.talks@).take(self.talks.len() as int) =~= talk_views(self.talks@));
        shown
    }

    /// The titles of the list on the screen, in order.
    pub fn talk_titles(&self) -> (titles: Vec<&str>)
        ensures
            titles@.len() == self@.filtered().len(),
            forall|i: int|
                0 <= i < titles@.len() ==> (#[trigger] titles@[i])@
                    == self@.filtered()[i].display_title(),
    {
        let shown = self.talks();
        let mut titles: Vec<&str> = Vec::new();
        let mut i: usize = 0;
        while i < shown.len()
            invariant
                i <= shown.len(),
                titles@.len() == i,
                shown_views(shown@) == self@.filtered(),
                forall|k: int|
                    0 <= k < i ==> (#[trigger] titles@[k])@ == self@.filtered()[k].display_title(),
            decreases shown.len() - i,
        {
            titles.push(shown[i].get_title());
            i += 1;
        }
        titles
    }

    /// The selected talk: the entry of the list on the screen at the
    /// selected position, or at the first position where nothing is
    /// selected; `None` where the list has no such entry.
    pub fn get_selected(&self) -> (talk: Option<&Talk>)
        ensures
            match talk {
                Some(talk) => {
                    let index = self@.selected.unwrap_or(0);
                    index < self@.filtered().len() && talk@ == self@.filtered()[index as int]
                },
                None => self@.selected.unwrap_or(0) >= self@.filtered().len(),
            },
    {
        let shown = self.talks();
        let index = match self.selected {
            Some(index) => index,
            None => 0,
        };
        if index < shown.len() {
            Some(shown[index])
        } else {
            None
        }
    }

    /// How many talks the list on the screen has.
    fn shown_len(&self) -> (len: usize)
        ensures
            len == self@.filtered().len(),
    {
        let shown = self.talks();
        shown.len()
    }

    /// Selects the first talk of the list on the screen, or none where it is
    /// empty.
    fn select_first(&mut self)
        ensures
            final(self)@ == (AppState {
                selected: first_selection(old(self)@.filtered().len()),
                ..old(self)@
            }),
    {
        let len = self.shown_len();
        self.selected = if len == 0 {
            None
        } else {
            Some(0)
        };
    }

    /// Lists the talks of `day` in place of those of the day before, with
    /// the first of those that match the search text selected.
    fn set_current_day(&mut self, day: Weekday, talks: Vec<Talk>)
        ensures
            final(self)@ == old(self)@.with_day(day, talk_views(talks@)),
    {
        self.day = day;
        self.talks = talks;
        self.select_first();
    }

    /// Completes the step to the next conference day with what the loader
    /// returned for it: its talks take the place of the day's, and the
    /// first of those that match the search text is selected. Where the
    /// loader failed, day and talks stay as they are and the failure is
    /// handed back.
    pub fn next_tab(&mut self, loaded: Result<Vec<Talk>, LoadError>) -> (done: Result<(), LoadError>)
        ensures
            match loaded {
                Ok(talks) => done is Ok && final(self)@ == old(self)@.next_tab(talk_views(talks@)),
                Err(error) => done == Err::<(), LoadError>(error) && final(self)@ == old(self)@,
            },
            old(self)@.wf() ==> final(self)@.wf(),
    {
        match loaded {
            Ok(talks) => {
                let day = self.next_day();
                self.set_current_day(day, talks);
                Ok(())
            },
            Err(error) => Err(error),
        }
    }

    /// Completes the step to the previous conference day with what the
    /// loader returned for it, as `next_tab` does for the next.
    pub fn previous_tab(&mut self, loaded: Result<Vec<Talk>, LoadError>) -> (done: Result<
        (),
        LoadError,
    >)
        ensures
            match loaded {
                Ok(talks) => done is Ok && final(self)@ == old(self)@.previous_tab(
                    talk_views(talks@),
                ),
                Err(error) => done == Err::<(), LoadError>(error) && final(self)@ == old(self)@,
            },
            old(self)@.wf() ==> final(self)@.wf(),
    {
        match loaded {
            Ok(talks) => {
                let day = self.previous_day();
                self.set_current_day(day, talks);
                Ok(())
            },
            Err(error) => Err(error),
        }
    }

    /// Moves the selection one down the list on the screen, from the last
    /// entry to the first. An empty list stays without selection.
    pub fn next_talk(&mut self)
        ensures
            final(self)@ == old(self)@.next_item(),
            old(self)@.wf() ==> final(self)@.wf(),
    {
        let len = self.shown_len();
        self.selected = match self.selected {
            Some(index) => if len == 0 {
                Some(index)
            } else if index >= len - 1 {
                Some(0)
            } else {
                Some(index + 1)
            },
            None => if len == 0 {
                None
            } else {
                Some(0)
            },
        };
    }

    /// Moves the selection one up the list on the screen, from the first
    /// entry to the last. An empty list stays without selection.
    pub fn previous_talk(&mut self)
        ensures
            final(self)@ == old(self)@.previous_item(),
            old(self)@.wf() ==> final(self)@.wf(),
    {
        let len = self.shown_len();
        self.selected = match self.selected {
            Some(index) => if len == 0 {
                Some(index)
            } else if index > 0 {
                Some(index - 1)
            } else {
                Some(len - 1)
            },
            None => if len == 0 {
                None
            } else {
                Some(0)
            },
        };
    }

    /// Starts a search, or takes one up again: see `AppState::enter_search`.
    pub fn enter_search(&mut self)
        ensures
            final(self)@ == old(self)@.enter_search(),
            old(self)@.wf() ==> final(self)@.wf(),
    {
        proof {
            if self@.wf() {
                lemma_steps_keep_wf(self@);
            }
        }
        match self.mode {
            Mode::Normal => {
                self.search_text = String::new();
                self.mode = Mode::Search;
            },
            Mode::Filtered => {
                self.mode = Mode::Search;
            },
            Mode::Search => {},
        }
    }

    /// While searching, adds the character to the search text and selects
    /// the first talk that matches.
    pub fn text_input(&mut self, c: char)
        ensures
            final(self)@ == old(self)@.text_input(c),
            old(self)@.wf() ==> final(self)@.wf(),
    {
        if self.mode == Mode::Search {
            self.search_text.push(c);
            self.select_first();
        }
    }

    /// While searching, takes the last character off the search text and
    /// selects the first talk that matches.
    pub fn backspace(&mut self)
        ensures
            final(self)@ == old(self)@.backspace(),
            old(self)@.wf() ==> final(self)@.wf(),
    {
        if self.mode == Mode::Search {
            self.search_text.pop();
            self.select_first();
        }
    }

    /// While searching, fixes the search text and keeps the list as it is.
    pub fn confirm(&mut self)
        ensures
            final(self)@ == old(self)@.confirm(),
            old(self)@.wf() ==> final(self)@.wf(),
    {
        if self.mode == Mode::Search {
            self.mode = Mode::Filtered;
        }
    }

    /// Drops the search text, lists all talks of the day and selects the
    /// first.
    pub fn cancel(&mut self)
        ensures
            final(self)@ == old(self)@.cancel(),
            final(self)@.mode == Mode::Normal,
            final(self)@.search_text == Seq::<char>::empty(),
            old(self)@.wf() ==> final(self)@.wf(),
    {
        self.search_text = String::new();
        self.mode = Mode::Normal;
        self.select_first();
        proof {
            lemma_empty_search_lists_all(self@.talks);
        }
    }

    /// Marks the browser as done.
    pub fn quit(&mut self)
        ensures
            final(self)@ == old(self)@.quit(),
            old(self)@.wf() ==> final(self)@.wf(),
    {
        self.should_quit = true;
    }

    /// Takes one step: the state changes as `AppState::apply` says, and the
    /// result is what is left for the caller to do.
    pub fn apply(&mut self, command: Command) -> (action: Action)
        ensures
            final(self)@ == old(self)@.apply(command),
            action == old(self)@.action(command),
            old(self)@.wf() ==> final(self)@.wf(),
    {
        proof {
            if self@.wf() {
                lemma_apply_keeps_wf(self@, command);
            }
        }
        if self.should_quit {
            return Action::Idle;
        }
        match command {
            Command::NextTab => Action::NextTab,
            Command::PreviousTab => Action::PreviousTab,
            Command::NextItem => {
                self.next_talk();
                Action::Idle
            },
            Command::PreviousItem => {
                self.previous_talk();
                Action::Idle
            },
            Command::EnterSearch => {
                self.enter_search();
                Action::Idle
            },
            Command::TextInput(c) => {
                self.text_input(c);
                Action::Idle
            },
            Command::Backspace => {
                self.backspace();
                Action::Idle
            },
            Command::Confirm => {
                self.confirm();
                Action::Idle
            },
            Command::Cancel => {
                self.cancel();
                Action::Idle
            },
            Command::Select => match self.selected {
                Some(index) => if self.mode == Mode::Normal && index < self.shown_len() {
                    Action::Select(index)
                } else {
                    Action::Idle
                },
                None => Action::Idle,
            },
            Command::Quit => {
                self.quit();
                Action::Idle
            },
            Command::Tick => {
                self.advance();
                Action::Idle
            },
        }
    }
}

} // verus!
