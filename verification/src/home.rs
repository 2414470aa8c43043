//! The application state and its folds: the mode-gated interpretation of
//! raw key events and the dispatch of actions into state mutation. All
//! fields are plain values; the event loop outside this crate owns the
//! single mutable instance and is the only writer.

use vstd::prelude::*;

use crate::action::Action;
use crate::keys::{KeyCode, KeyEvent};
use crate::scheduler::ScheduleRequest;

verus! {

/// Relies on String::push: appends the character to the end of the string.
pub assume_specification[ String::push ](s: &mut String, ch: char)
    ensures
        final(s)@ == old(s)@.push(ch),
;

/// Relies on String::pop: removes and returns the last character of the
/// string, or returns None when the string is empty.
pub assume_specification[ String::pop ](s: &mut String) -> (r: Option<char>)
    ensures
        old(s)@.len() == 0 ==> r is None && final(s)@ == old(s)@,
        old(s)@.len() > 0 ==> r == Some(old(s)@.last()) && final(s)@ == old(s)@.drop_last(),
;

/// The three-state gate controlling how raw keyboard input is interpreted.
#[derive(Debug, Clone, Copy, PartialEq, Eq, Structural)]
pub enum Mode {
    Normal,
    Insert,
    Processing,
}

/// The tabs of the menu bar. Navigation clamps at both ends.
#[derive(Debug, Clone, Copy, PartialEq, Eq, Structural)]
pub enum MenuItem {
    Zones,
    Sensors,
    Motors,
    IO,
    Misc,
}

impl MenuItem {
    /// The tab one step to the right, staying put on the last one.
    pub open spec fn next_spec(self) -> MenuItem {
        match self {
            MenuItem::Zones => MenuItem::Sensors,
            MenuItem::Sensors => MenuItem::Motors,
            MenuItem::Motors => MenuItem::IO,
            MenuItem::IO => MenuItem::Misc,
            MenuItem::Misc => MenuItem::Misc,
        }
    }

    /// The tab one step to the left, staying put on the first one.
    pub open spec fn previous_spec(self) -> MenuItem {
        match self {
            MenuItem::Zones => MenuItem::Zones,
            MenuItem::Sensors => MenuItem::Zones,
            MenuItem::Motors => MenuItem::Sensors,
            MenuItem::IO => MenuItem::Motors,
            MenuItem::Misc => MenuItem::IO,
        }
    }

    pub fn next(self) -> (r: MenuItem)
        ensures
            r == self.next_spec(),
    {
        match self {
            MenuItem::Zones => MenuItem::Sensors,
            MenuItem::Sensors => MenuItem::Motors,
            MenuItem::Motors => MenuItem::IO,
            MenuItem::IO => MenuItem::Misc,
            MenuItem::Misc => MenuItem::Misc,
        }
    }

    pub fn previous(self) -> (r: MenuItem)
        ensures
            r == self.previous_spec(),
    {
        match self {
            MenuItem::Zones => MenuItem::Zones,
            MenuItem::Sensors => MenuItem::Zones,
            MenuItem::Motors => MenuItem::Sensors,
            MenuItem::IO => MenuItem::Motors,
            MenuItem::Misc => MenuItem::IO,
        }
    }
}

/// The selection cursor of the displayed history list. Moving next from no
/// selection picks the first index; moving previous from no selection picks
/// the largest index; the renderer clamps the index to the list when it
/// draws. Both moves saturate instead of wrapping.
#[derive(Debug, Clone, Copy, PartialEq, Eq)]
pub struct ListCursor {
    pub selected: Option<usize>,
}

impl ListCursor {
    pub open spec fn next_spec(self) -> ListCursor {
        match self.selected {
            None => ListCursor { selected: Some(0) },
            Some(i) => ListCursor { selected: Some(i.saturating_add(1)) },
        }
    }

    pub open spec fn previous_spec(self) -> ListCursor {
        match self.selected {
            None => ListCursor { selected: Some(usize::MAX) },
            Some(i) => ListCursor { selected: Some(i.saturating_sub(1)) },
        }
    }

    pub fn select_next(&mut self)
        ensures
            *final(self) == old(self).next_spec(),
    {
        let next: usize = match self.selected {
            None => 0,
            Some(i) => i.saturating_add(1),
        };
        self.selected = Some(next);
    }

    pub fn select_previous(&mut self)
        ensures
            *final(self) == old(self).previous_spec(),
    {
        let previous: usize = match self.selected {
            None => usize::MAX,
            Some(i) => i.saturating_sub(1),
        };
        self.selected = Some(previous);
    }
}

/// The mathematical model of the application state.
#[verifier::ext_equal]
pub ghost struct HomeView {
    pub show_help: bool,
    pub counter: usize,
    pub app_ticker: usize,
    pub render_ticker: usize,
    pub mode: Mode,
    pub input: Seq<char>,
    pub keymap: Seq<(KeyEvent, Action)>,
    pub text: Seq<String>,
    pub last_events: Seq<KeyEvent>,
    pub text_list: Seq<String>,
    pub cursor: ListCursor,
    pub selected_tab: MenuItem,
}

impl HomeView {
    /// The state at startup: zero counters, Normal mode, empty buffers.
    pub open spec fn init() -> HomeView {
        HomeView {
            show_help: false,
            counter: 0,
            app_ticker: 0,
            render_ticker: 0,
            mode: Mode::Normal,
            input: Seq::empty(),
            keymap: Seq::empty(),
            text: Seq::empty(),
            last_events: Seq::empty(),
            text_list: Seq::empty(),
            cursor: ListCursor { selected: None },
            selected_tab: MenuItem::Zones,
        }
    }
}

/// The application state, owned and mutated only by the consumer loop.
pub struct Home {
    /// Whether the help overlay is visible.
    pub show_help: bool,
    /// The counter; all arithmetic on it saturates.
    pub counter: usize,
    /// How many Tick actions have been folded.
    pub app_ticker: usize,
    /// How many Render actions have been folded.
    pub render_ticker: usize,
    /// The input-mode gate.
    pub mode: Mode,
    /// The line of text being composed; meaningful in Insert mode.
    pub input: String,
    /// The key-chord-to-action bindings, read-only after construction.
    pub keymap: Vec<(KeyEvent, Action)>,
    /// The history of submitted lines, append-only.
    pub text: Vec<String>,
    /// The key events seen since the last Tick.
    pub last_events: Vec<KeyEvent>,
    /// The history as shown in the list panel, append-only.
    pub text_list: Vec<String>,
    /// The selection cursor of the list panel.
    pub text_list_state: ListCursor,
    /// The active tab of the menu bar.
    pub selected_tab: MenuItem,
}

impl View for Home {
    type V = HomeView;

    open spec fn view(&self) -> HomeView {
        HomeView {
            show_help: self.show_help,
            counter: self.counter,
            app_ticker: self.app_ticker,
            render_ticker: self.render_ticker,
            mode: self.mode,
            input: self.input@,
            keymap: self.keymap@,
            text: self.text@,
            last_events: self.last_events@,
            text_list: self.text_list@,
            cursor: self.text_list_state,
            selected_tab: self.selected_tab,
        }
    }
}

/// What folding one action does to the state. Counter moves saturate; the
/// four counter-affecting requests are ignored while the mode is Insert;
/// mode transitions that ask for the current mode change nothing; actions
/// the data model does not consume leave the state as it is.
pub open spec fn step(pre: HomeView, action: Action) -> HomeView {
    match action {
        Action::Tick => HomeView {
            app_ticker: pre.app_ticker.saturating_add(1),
            last_events: Seq::empty(),
            ..pre
        },
        Action::Render => HomeView { render_ticker: pre.render_ticker.saturating_add(1), ..pre },
        Action::ToggleShowHelp => HomeView { show_help: !pre.show_help, ..pre },
        Action::IncrementSingle => if pre.mode != Mode::Insert {
            counter_up(pre, 1)
        } else {
            pre
        },
        Action::DecrementSingle => if pre.mode != Mode::Insert {
            counter_down(pre, 1)
        } else {
            pre
        },
        Action::Increment(n) => counter_up(pre, n),
        Action::Decrement(n) => counter_down(pre, n),
        Action::CompleteInput(s) => HomeView {
            text: pre.text.push(s),
            text_list: pre.text_list.push(s),
            ..pre
        },
        Action::EnterNormal => HomeView { mode: Mode::Normal, ..pre },
        Action::EnterInsert => HomeView { mode: Mode::Insert, ..pre },
        Action::EnterProcessing => HomeView { mode: Mode::Processing, ..pre },
        Action::ExitProcessing => HomeView { mode: Mode::Normal, ..pre },
        _ => pre,
    }
}

/// The counter moved up by `n`, saturating at the numeric maximum; the list
/// cursor moves along.
pub open spec fn counter_up(pre: HomeView, n: usize) -> HomeView {
    HomeView { counter: pre.counter.saturating_add(n), cursor: pre.cursor.next_spec(), ..pre }
}

/// The counter moved down by `n`, clamping at zero; the list cursor moves
/// along.
pub open spec fn counter_down(pre: HomeView, n: usize) -> HomeView {
    HomeView { counter: pre.counter.saturating_sub(n), cursor: pre.cursor.previous_spec(), ..pre }
}

/// Which delayed task folding one action requests: only the two schedule
/// actions do, and only while the mode is not Insert.
pub open spec fn schedule_of(pre: HomeView, action: Action) -> Option<ScheduleRequest> {
    match action {
        Action::ScheduleIncrement => if pre.mode != Mode::Insert {
            Some(ScheduleRequest { amount: 1, increase: true })
        } else {
            None
        },
        Action::ScheduleDecrement => if pre.mode != Mode::Insert {
            Some(ScheduleRequest { amount: 1, increase: false })
        } else {
            None
        },
        _ => None,
    }
}

/// What handling one raw key event does to the state: the event is logged,
/// and in Insert mode the composed line is edited — a character appended,
/// the last one deleted, or the whole line taken on submit.
pub open spec fn key_step(pre: HomeView, key: KeyEvent) -> HomeView {
    let logged = HomeView { last_events: pre.last_events.push(key), ..pre };
    if pre.mode == Mode::Insert {
        match key.code {
            KeyCode::Esc => logged,
            KeyCode::Enter => HomeView { input: Seq::empty(), ..logged },
            KeyCode::Char(c) => HomeView { input: pre.input.push(c), ..logged },
            KeyCode::Backspace => HomeView {
                input: if pre.input.len() > 0 {
                    pre.input.drop_last()
                } else {
                    pre.input
                },
                ..logged
            },
            KeyCode::Other => logged,
        }
    } else {
        logged
    }
}

/// What one fold of an action hands back to the driver: at most one
/// follow-up action to re-enqueue, and at most one delayed task to spawn.
pub struct UpdateOutcome {
    pub follow_up: Option<Action>,
    pub schedule: Option<ScheduleRequest>,
}

/// What handling one raw key event hands back to the driver: at most one
/// action to push onto the bus at once, and at most one action returned for
/// the next dispatch pass.
pub struct KeyOutcome {
    pub to_bus: Option<Action>,
    pub returned: Option<Action>,
}

impl Home {
    /// The state at startup.
    pub fn new() -> (r: Home)
        ensures
            r@ == HomeView::init(),
    {
        let r = Home {
            show_help: false,
            counter: 0,
            app_ticker: 0,
            render_ticker: 0,
            mode: Mode::Normal,
            input: String::new(),
            keymap: Vec::new(),
            text: Vec::new(),
            last_events: Vec::new(),
            text_list: Vec::new(),
            text_list_state: ListCursor { selected: None },
            selected_tab: MenuItem::Zones,
        };
        proof {
            assert(r@ =~= HomeView::init());
        }
        r
    }

    /// Installs the key bindings; the core never mutates them afterwards.
    pub fn keymap(self, keymap: Vec<(KeyEvent, Action)>) -> (r: Home)
        ensures
            r@ == (HomeView { keymap: keymap@, ..self@ }),
    {
        let mut with_map = self;
        with_map.keymap = keymap;
        with_map
    }

    /// Folds a Tick: the tick counter grows by exactly one (saturating at
    /// the numeric maximum) and the recent key events are cleared, whatever
    /// they held.
    pub fn tick(&mut self)
        ensures
            final(self)@ == (HomeView {
                app_ticker: old(self)@.app_ticker.saturating_add(1),
                last_events: Seq::empty(),
                ..old(self)@
            }),
            old(self).app_ticker < usize::MAX ==> final(self).app_ticker == old(
                self,
            ).app_ticker + 1,
    {
        self.app_ticker = self.app_ticker.saturating_add(1);
        self.last_events.clear();
    }

    /// Folds a Render: the render counter grows by one, saturating.
    pub fn render_tick(&mut self)
        ensures
            final(self)@ == (HomeView {
                render_ticker: old(self)@.render_ticker.saturating_add(1),
                ..old(self)@
            }),
    {
        self.render_ticker = self.render_ticker.saturating_add(1);
    }

    /// Appends one submitted line to the history; nothing else changes.
    pub fn add(&mut self, s: String)
        ensures
            final(self)@ == (HomeView {
                text: old(self)@.text.push(s),
                text_list: old(self)@.text_list.push(s),
                ..old(self)@
            }),
    {
        self.text.push(s.clone());
        self.text_list.push(s);
    }

    /// Moves the counter up by `i`, saturating at the numeric maximum, and
    /// moves the list cursor forward.
    pub fn increment(&mut self, i: usize)
        ensures
            final(self)@ == counter_up(old(self)@, i),
            old(self).counter + i <= usize::MAX ==> final(self).counter == old(self).counter + i,
    {
        self.counter = self.counter.saturating_add(i);
        self.text_list_state.select_next();
    }

    /// Moves the counter down by `i`, clamping at zero, and moves the list
    /// cursor back. A move past zero lands exactly on zero: the counter
    /// never wraps.
    pub fn decrement(&mut self, i: usize)
        ensures
            final(self)@ == counter_down(old(self)@, i),
            old(self).counter < i ==> final(self).counter == 0,
            old(self).counter >= i ==> final(self).counter == old(self).counter - i,
    {
        self.counter = self.counter.saturating_sub(i);
        self.text_list_state.select_previous();
    }

    /// Requests a delayed increment of the counter by `i`. The state does
    /// not change here: the driver spawns the task, and the counter moves
    /// only when the task's bracket is folded.
    pub fn schedule_increment(&mut self, i: usize) -> (r: ScheduleRequest)
        ensures
            r == (ScheduleRequest { amount: i, increase: true }),
            *final(self) == *old(self),
    {
        ScheduleRequest { amount: i, increase: true }
    }

    /// Requests a delayed decrement of the counter by `i`; the counterpart
    /// of `schedule_increment`.
    pub fn schedule_decrement(&mut self, i: usize) -> (r: ScheduleRequest)
        ensures
            r == (ScheduleRequest { amount: i, increase: false }),
            *final(self) == *old(self),
    {
        ScheduleRequest { amount: i, increase: false }
    }

    /// Moves to the tab one step to the right, staying on the last one.
    pub fn next_tab(&mut self)
        ensures
            final(self)@ == (HomeView {
                selected_tab: old(self)@.selected_tab.next_spec(),
                ..old(self)@
            }),
    {
        self.selected_tab = self.selected_tab.next();
    }

    /// Moves to the tab one step to the left, staying on the first one.
    pub fn previous_tab(&mut self)
        ensures
            final(self)@ == (HomeView {
                selected_tab: old(self)@.selected_tab.previous_spec(),
                ..old(self)@
            }),
    {
        self.selected_tab = self.selected_tab.previous();
    }

    /// Interprets one raw key event under the current mode. The event is
    /// always logged. Outside Insert mode nothing else happens. In Insert
    /// mode: Esc cancels back to Normal; Enter submits the composed line —
    /// it goes onto the bus as a completion carrying exactly the buffer,
    /// the buffer empties, and Normal mode is returned; any other key edits
    /// the buffer and asks for a refresh.
    pub fn handle_key_events(&mut self, key: KeyEvent) -> (r: KeyOutcome)
        ensures
            final(self)@ == key_step(old(self)@, key),
            old(self)@.mode != Mode::Insert ==> r.to_bus is None && r.returned is None,
            old(self)@.mode == Mode::Insert ==> match key.code {
                KeyCode::Esc => r.to_bus is None && r.returned == Some(Action::EnterNormal),
                KeyCode::Enter => r.returned == Some(Action::EnterNormal) && (r.to_bus matches Some(
                    a,
                ) && (a matches Action::CompleteInput(t) && t@ == old(self)@.input)),
                _ => r.to_bus is None && r.returned == Some(Action::Update),
            },
    {
        self.last_events.push(key);
        match self.mode {
            Mode::Normal | Mode::Processing => KeyOutcome { to_bus: None, returned: None },
            Mode::Insert => match key.code {
                KeyCode::Esc => KeyOutcome { to_bus: None, returned: Some(Action::EnterNormal) },
                KeyCode::Enter => {
                    let line = self.input.clone();
                    self.input = String::new();
                    KeyOutcome {
                        to_bus: Some(Action::CompleteInput(line)),
                        returned: Some(Action::EnterNormal),
                    }
                },
                KeyCode::Char(c) => {
                    self.input.push(c);
                    KeyOutcome { to_bus: None, returned: Some(Action::Update) }
                },
                KeyCode::Backspace => {
                    let _popped = self.input.pop();
                    KeyOutcome { to_bus: None, returned: Some(Action::Update) }
                },
                KeyCode::Other => KeyOutcome { to_bus: None, returned: Some(Action::Update) },
            },
        }
    }

    /// Folds one action into the state, exactly as `step` says, and hands
    /// back what the driver must do next. The fold itself never produces a
    /// follow-up action; the schedule request is present exactly when
    /// `schedule_of` says so.
    pub fn update(&mut self, action: Action) -> (r: UpdateOutcome)
        ensures
            final(self)@ == step(old(self)@, action),
            r.schedule == schedule_of(old(self)@, action),
            r.follow_up is None,
    {
        let mut schedule: Option<ScheduleRequest> = None;
        match action {
            Action::Tick => {
                self.tick();
            },
            Action::Render => {
                self.render_tick();
            },
            Action::ToggleShowHelp => {
                self.show_help = !self.show_help;
            },
            Action::IncrementSingle => {
                if self.mode != Mode::Insert {
                    self.increment(1);
                }
            },
            Action::DecrementSingle => {
                if self.mode != Mode::Insert {
                    self.decrement(1);
                }
            },
            Action::ScheduleIncrement => {
                if self.mode != Mode::Insert {
                    schedule = Some(self.schedule_increment(1));
                }
            },
            Action::ScheduleDecrement => {
                if self.mode != Mode::Insert {
                    schedule = Some(self.schedule_decrement(1));
                }
            },
            Action::Increment(i) => {
                self.increment(i);
            },
            Action::Decrement(i) => {
                self.decrement(i);
            },
            Action::CompleteInput(s) => {
                self.add(s);
            },
            Action::EnterNormal => {
                self.mode = Mode::Normal;
            },
            Action::EnterInsert => {
                self.mode = Mode::Insert;
            },
            Action::EnterProcessing => {
                self.mode = Mode::Processing;
            },
            Action::ExitProcessing => {
                self.mode = Mode::Normal;
            },
            _ => {},
        }
        UpdateOutcome { follow_up: None, schedule }
    }
}

} // verus!
