//! The physical inputs: which commands the buttons on the pins and the
//! events of the input daemon stand for.

use crate::clock::{Clock, NANOS_PER_MILLI};
use crate::input::{Button, ButtonView, Level};
use crate::state::InputEvent;
use vstd::prelude::*;

verus! {

/// The pin of the buzzer button.
pub const BUZZER_PIN: u8 = 17;

/// The pin of the button that toggles the debug overlay.
pub const DEBUG_PIN: u8 = 27;

/// The pin of the button that shows and hides the displays.
pub const DISPLAY_PIN: u8 = 22;

/// The pin that powers the buttons.
pub const POWER_PIN: u8 = 23;

/// The debounce window of the debug and display buttons, in nanoseconds.
pub const DEBOUNCE_DURATION: u128 = 50 * NANOS_PER_MILLI;

/// The button identity under which the buzzer reports its state.
pub const BUZZER_BUTTON: u8 = 1;

/// The three buttons of the appliance.
#[derive(Clone, Copy, Debug)]
pub struct ButtonBoard {
    buzzer: Button,
    debug: Button,
    display: Button,
}

/// The mathematical content of a [`ButtonBoard`].
pub struct BoardView {
    /// The buzzer: every change of its level is reported at once.
    pub buzzer: ButtonView,
    /// The debug button, debounced.
    pub debug: ButtonView,
    /// The display button, debounced.
    pub display: ButtonView,
}

/// What an edge of the buzzer stands for: the state of its button, pressed
/// when the level is low.
pub open spec fn buzzer_events(edge: Option<Level>) -> Seq<InputEvent> {
    match edge {
        Some(level) => seq![InputEvent::SetButtonState(BUZZER_BUTTON, level == Level::Low)],
        None => Seq::empty(),
    }
}

/// What an edge of a toggle button stands for: `command` when the level
/// rose, nothing when it fell.
pub open spec fn toggle_events(edge: Option<Level>, command: InputEvent) -> Seq<InputEvent> {
    if edge == Some(Level::High) {
        seq![command]
    } else {
        Seq::empty()
    }
}

impl BoardView {
    /// A board on which nothing has been observed.
    pub open spec fn fresh(clock: Clock) -> BoardView {
        BoardView {
            buzzer: ButtonView::fresh(clock, None),
            debug: ButtonView::fresh(clock, Some(DEBOUNCE_DURATION)),
            display: ButtonView::fresh(clock, Some(DEBOUNCE_DURATION)),
        }
    }

    /// Every button of the board is well formed.
    pub open spec fn wf(self) -> bool {
        self.buzzer.wf() && self.debug.wf() && self.display.wf()
    }

    /// The board after `level` was observed on `pin` at `now`. A pin without
    /// a button changes nothing.
    pub open spec fn observed(self, pin: u8, level: Level, now: u128) -> BoardView {
        if pin == BUZZER_PIN {
            BoardView { buzzer: self.buzzer.observed(level, now), ..self }
        } else if pin == DEBUG_PIN {
            BoardView { debug: self.debug.observed(level, now), ..self }
        } else if pin == DISPLAY_PIN {
            BoardView { display: self.display.observed(level, now), ..self }
        } else {
            self
        }
    }

    /// The commands that a poll at `now` gives: those of the buzzer, of the
    /// debug button and of the display button, in this order.
    pub open spec fn commands_at(self, now: u128) -> Seq<InputEvent> {
        buzzer_events(self.buzzer.changed_at(now)) + toggle_events(
            self.debug.changed_at(now),
            InputEvent::ToggleDebug,
        ) + toggle_events(self.display.changed_at(now), InputEvent::ToggleDisplay)
    }

    /// The board after a poll at `now`.
    pub open spec fn polled(self, now: u128) -> BoardView {
        BoardView {
            buzzer: self.buzzer.polled(now),
            debug: self.debug.polled(now),
            display: self.display.polled(now),
        }
    }
}

impl View for ButtonBoard {
    type V = BoardView;

    closed spec fn view(&self) -> BoardView {
        BoardView { buzzer: self.buzzer@, debug: self.debug@, display: self.display@ }
    }
}

impl ButtonBoard {
    /// A board on a clock of its own.
    pub fn new() -> (board: ButtonBoard)
        ensures
            exists|clock: Clock| board@ == #[trigger] BoardView::fresh(clock),
    {
        let clock = Clock::new();
        let board = ButtonBoard::with_clock(clock);
        assert(board@ == BoardView::fresh(clock));
        board
    }

    /// A board whose buttons read `clock`.
    pub fn with_clock(clock: Clock) -> (board: ButtonBoard)
        ensures
            board@ == BoardView::fresh(clock),
    {
        ButtonBoard {
            buzzer: Button::with_clock(None, clock),
            debug: Button::with_clock(Some(DEBOUNCE_DURATION), clock),
            display: Button::with_clock(Some(DEBOUNCE_DURATION), clock),
        }
    }

    /// Records `level` as observed on `pin` at `now`.
    pub fn observe_at(&mut self, pin: u8, level: Level, now: u128)
        ensures
            final(self)@ == old(self)@.observed(pin, level, now),
    {
        if pin == BUZZER_PIN {
            self.buzzer.update_at(level, now);
        } else if pin == DEBUG_PIN {
            self.debug.update_at(level, now);
        } else if pin == DISPLAY_PIN {
            self.display.update_at(level, now);
        }
    }

    /// Polls every button at `now` and returns the commands that the edges
    /// stand for.
    pub fn poll_at(&mut self, now: u128) -> (commands: Vec<InputEvent>)
        ensures
            commands@ == old(self)@.commands_at(now),
            final(self)@ == old(self)@.polled(now),
    {
        let mut commands: Vec<InputEvent> = Vec::new();
        if let Some(level) = self.buzzer.get_changed_level_at(now) {
            commands.push(InputEvent::SetButtonState(BUZZER_BUTTON, level == Level::Low));
        }
        if let Some(level) = self.debug.get_changed_level_at(now) {
            if level == Level::High {
                commands.push(InputEvent::ToggleDebug);
            }
        }
        if let Some(level) = self.display.get_changed_level_at(now) {
            if level == Level::High {
                commands.push(InputEvent::ToggleDisplay);
            }
        }
        assert(commands@ =~= old(self)@.commands_at(now));
        commands
    }

    /// Records `level` as observed on `pin` at the reading of the board's clock.
    pub fn observe(&mut self, pin: u8, level: Level)
        ensures
            exists|now: u128| final(self)@ == #[trigger] old(self)@.observed(pin, level, now),
    {
        let now = self.buzzer.clock().now();
        self.observe_at(pin, level, now);
    }

    /// Polls every button at the reading of the board's clock.
    pub fn poll(&mut self) -> (commands: Vec<InputEvent>)
        ensures
            exists|now: u128|
                commands@ == #[trigger] old(self)@.commands_at(now) && final(self)@ == old(
                    self,
                )@.polled(now),
    {
        let now = self.buzzer.clock().now();
        self.poll_at(now)
    }
}

/// What the input daemon reports.
#[derive(Clone, Copy, Debug, PartialEq, Eq, Structural)]
pub enum EvtType {
    ButtonPress,
    ButtonRelease,
    Overcurrent,
    CriticalError,
    TransportError,
}

/// One event of the input daemon.
#[derive(Clone, Copy, Debug, PartialEq, Eq, Structural)]
pub struct CringeEvt {
    /// The input bank on which the event occurred: the identity of the button.
    pub io_bank_num: u8,
    pub event_type: EvtType,
    /// The daemon's time stamp, in milliseconds.
    pub timestamp_ms: u32,
}

impl CringeEvt {
    /// What stands for a message that could not be read: a transport error.
    pub open spec fn unreadable() -> CringeEvt {
        CringeEvt { io_bank_num: 0, event_type: EvtType::TransportError, timestamp_ms: 0 }
    }

    /// The command that the event stands for: the state of the button on the
    /// event's bank for a press or a release, none for anything else.
    pub open spec fn spec_command(self) -> Option<InputEvent> {
        match self.event_type {
            EvtType::ButtonPress => Some(InputEvent::SetButtonState(self.io_bank_num, true)),
            EvtType::ButtonRelease => Some(InputEvent::SetButtonState(self.io_bank_num, false)),
            _ => None,
        }
    }

    /// The event that stands for a message that could not be read.
    pub fn transport_error() -> (event: CringeEvt)
        ensures
            event == CringeEvt::unreadable(),
    {
        CringeEvt { io_bank_num: 0, event_type: EvtType::TransportError, timestamp_ms: 0 }
    }

    /// The command that the event stands for.
    pub fn command(&self) -> (command: Option<InputEvent>)
        ensures
            command == self.spec_command(),
    {
        match self.event_type {
            EvtType::ButtonPress => Some(InputEvent::SetButtonState(self.io_bank_num, true)),
            EvtType::ButtonRelease => Some(InputEvent::SetButtonState(self.io_bank_num, false)),
            _ => None,
        }
    }
}

/// A poll hands out at most one command per button, and a button whose edge
/// was handed out hands out none at a later poll unless a different level was
/// observed in between. The buzzer, which has no debounce window, never has
/// anything left after a poll.
pub proof fn law_board_commands_once(board: BoardView, now: u128, later: u128)
    requires
        board.wf(),
    ensures
        board.commands_at(now).len() <= 3,
        board.polled(now).wf(),
        board.buzzer.debounce_duration is None ==> board.polled(now).buzzer.changed_at(later)
            is None,
        board.debug.changed_at(now) is Some ==> board.polled(now).debug.changed_at(later)
            is None,
        board.display.changed_at(now) is Some ==> board.polled(now).display.changed_at(later)
            is None,
{
}

} // verus!
