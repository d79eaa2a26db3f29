//! Debounced button input: a noisy level signal becomes one edge per stable
//! transition.

use crate::clock::{nanos_between, span_nanos, Clock};
use vstd::prelude::*;

verus! {

/// The electrical level of an input pin.
#[derive(Clone, Copy, Debug, PartialEq, Eq, Structural)]
pub enum Level {
    Low,
    High,
}

/// A debounced input. Instants and the debounce window are nanoseconds on the
/// button's clock.
#[derive(Clone, Copy, Debug)]
pub struct Button {
    clock: Clock,
    real_level: Option<Level>,
    last_change: Option<u128>,
    last_returned: Option<Level>,
    debounce_duration: Option<u128>,
}

/// The mathematical content of a [`Button`].
pub struct ButtonView {
    /// The clock that `update` and `get_changed_level` read.
    pub clock: Clock,
    /// The level last observed on the pin.
    pub real_level: Option<Level>,
    /// When that level was observed.
    pub last_change: Option<u128>,
    /// The level last handed out as an edge.
    pub last_returned: Option<Level>,
    /// How long a level must have stood before it is handed out; `None`
    /// hands every change out at once.
    pub debounce_duration: Option<u128>,
}

impl ButtonView {
    /// A button on which nothing has been observed.
    pub open spec fn fresh(clock: Clock, debounce_duration: Option<u128>) -> ButtonView {
        ButtonView {
            clock,
            real_level: None,
            last_change: None,
            last_returned: None,
            debounce_duration,
        }
    }

    /// A level is kept together with the instant of its observation, and no
    /// edge is handed out before a level has been observed.
    pub open spec fn wf(self) -> bool {
        &&& self.real_level is Some <==> self.last_change is Some
        &&& self.last_returned is Some ==> self.real_level is Some
    }

    /// The button after `level` was observed at `now`.
    pub open spec fn observed(self, level: Level, now: u128) -> ButtonView {
        ButtonView { real_level: Some(level), last_change: Some(now), ..self }
    }

    /// Whether the observed level has stood for the debounce window at `now`.
    pub open spec fn settled_at(self, now: u128) -> bool {
        match self.debounce_duration {
            None => true,
            Some(window) => self.last_change is Some && span_nanos(now, self.last_change->0)
                >= window,
        }
    }

    /// The edge that a poll at `now` hands out: the observed level, if it
    /// differs from the level handed out last and has settled.
    pub open spec fn changed_at(self, now: u128) -> Option<Level> {
        if self.real_level is Some && self.real_level != self.last_returned && self.settled_at(
            now,
        ) {
            self.real_level
        } else {
            None
        }
    }

    /// The button after a poll at `now`: an edge that was handed out is remembered.
    pub open spec fn polled(self, now: u128) -> ButtonView {
        if self.changed_at(now) is Some {
            ButtonView { last_returned: self.real_level, ..self }
        } else {
            self
        }
    }
}

impl View for Button {
    type V = ButtonView;

    closed spec fn view(&self) -> ButtonView {
        ButtonView {
            clock: self.clock,
            real_level: self.real_level,
            last_change: self.last_change,
            last_returned: self.last_returned,
            debounce_duration: self.debounce_duration,
        }
    }
}

impl Button {
    #[verifier::type_invariant]
    spec fn inv(self) -> bool {
        self@.wf()
    }

    /// A button with the given debounce window in nanoseconds, on a clock of
    /// its own.
    pub fn new(debounce_duration: Option<u128>) -> (button: Button)
        ensures
            button@ == ButtonView::fresh(button@.clock, debounce_duration),
    {
        Button::with_clock(debounce_duration, Clock::new())
    }

    /// A button with the given debounce window in nanoseconds that reads `clock`.
    pub fn with_clock(debounce_duration: Option<u128>, clock: Clock) -> (button: Button)
        ensures
            button@ == ButtonView::fresh(clock, debounce_duration),
    {
        Button {
            clock,
            real_level: None,
            last_change: None,
            last_returned: None,
            debounce_duration,
        }
    }

    /// The clock that the button reads.
    pub fn clock(&self) -> (clock: Clock)
        ensures
            clock == self@.clock,
    {
        self.clock
    }

    /// Records `level` as observed at `now`.
    pub fn update_at(&mut self, level: Level, now: u128)
        ensures
            final(self)@ == old(self)@.observed(level, now),
    {
        proof {
            use_type_invariant(&*self);
        }
        *self = Button {
            clock: self.clock,
            real_level: Some(level),
            last_change: Some(now),
            last_returned: self.last_returned,
            debounce_duration: self.debounce_duration,
        };
    }

    /// Hands out the observed level if it differs from the one handed out
    /// last and has stood for the debounce window at `now`.
    pub fn get_changed_level_at(&mut self, now: u128) -> (edge: Option<Level>)
        ensures
            edge == old(self)@.changed_at(now),
            final(self)@ == old(self)@.polled(now),
    {
        proof {
            use_type_invariant(&*self);
        }
        let level = match self.real_level {
            None => {
                return None;
            },
            Some(level) => level,
        };
        let unchanged = match self.last_returned {
            None => false,
            Some(returned) => returned == level,
        };
        if unchanged {
            return None;
        }
        let settled = match self.debounce_duration {
            None => true,
            Some(window) => match self.last_change {
                None => false,
                Some(change) => nanos_between(now, change) >= window,
            },
        };
        if settled {
            *self = Button {
                clock: self.clock,
                real_level: self.real_level,
                last_change: self.last_change,
                last_returned: self.real_level,
                debounce_duration: self.debounce_duration,
            };
            Some(level)
        } else {
            None
        }
    }

    /// Records `level` as observed at the reading of the button's clock.
    pub fn update(&mut self, level: Level)
        ensures
            exists|now: u128| final(self)@ == #[trigger] old(self)@.observed(level, now),
    {
        let now = self.clock.now();
        self.update_at(level, now);
    }

    /// Polls at the reading of the button's clock: the outcome is that of
    /// [`Button::get_changed_level_at`] at that instant.
    pub fn get_changed_level(&mut self) -> (edge: Option<Level>)
        ensures
            exists|now: u128|
                edge == #[trigger] old(self)@.changed_at(now) && final(self)@ == old(
                    self,
                )@.polled(now),
    {
        let now = self.clock.now();
        self.get_changed_level_at(now)
    }
}

/// Observing and polling keep a button well formed.
pub proof fn law_button_stays_well_formed(button: ButtonView, level: Level, now: u128)
    requires
        button.wf(),
    ensures
        button.observed(level, now).wf(),
        button.polled(now).wf(),
{
}

/// A button without a debounce window hands a changed level out at once.
pub proof fn law_immediate_without_window(button: ButtonView, level: Level, at: u128, now: u128)
    requires
        button.wf(),
        button.debounce_duration is None,
        button.last_returned != Some(level),
    ensures
        button.observed(level, at).changed_at(now) == Some(level),
{
}

/// An edge is handed out only after the level has stood for the whole
/// debounce window: a poll earlier than that yields nothing and leaves the
/// button as it was.
pub proof fn law_quiet_within_window(button: ButtonView, now: u128)
    requires
        button.wf(),
        button.debounce_duration is Some,
        button.last_change is Some,
        span_nanos(now, button.last_change->0) < button.debounce_duration->0,
    ensures
        button.changed_at(now) is None,
        button.polled(now) == button,
{
}

/// An edge is handed out at most once per transition: after a poll has
/// handed one out, later polls yield nothing until a different level is observed.
pub proof fn law_edge_handed_out_once(button: ButtonView, now: u128, later: u128)
    requires
        button.wf(),
        button.changed_at(now) is Some,
    ensures
        button.changed_at(now) == button.real_level,
        button.polled(now).changed_at(later) is None,
        button.polled(now).polled(later) == button.polled(now),
{
}

/// Two flips closer together than the debounce window yield at most one edge,
/// and it shows the final level. The pin flips to `first` at `flip1` and to
/// `second` at `flip2`; the button is polled at `between` before the second
/// flip, and at `after` and `later` behind it. The poll in between hands
/// nothing out and leaves the button as it was, so that any number of such
/// polls does. Of the two polls behind the second flip at most one hands an
/// edge out, and an edge handed out is `second`.
pub proof fn law_bounce_yields_final_level(
    button: ButtonView,
    first: Level,
    flip1: u128,
    between: u128,
    second: Level,
    flip2: u128,
    after: u128,
    later: u128,
)
    requires
        button.wf(),
        button.debounce_duration is Some,
        flip1 <= flip2,
        flip2 - flip1 < button.debounce_duration->0,
        between <= flip2,
        flip2 <= after <= later,
    ensures
        ({
            let flipped = button.observed(first, flip1);
            let bounced = flipped.polled(between).observed(second, flip2);
            let edge1 = bounced.changed_at(after);
            let edge2 = bounced.polled(after).changed_at(later);
            &&& flipped.changed_at(between) is None
            &&& flipped.polled(between) == flipped
            &&& edge1 is None || edge2 is None
            &&& edge1 is Some ==> edge1 == Some(second)
            &&& edge2 is Some ==> edge2 == Some(second)
        }),
{
}

} // verus!
