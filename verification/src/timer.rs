//! The countdown timer: two optional instants and a countdown, from which the
//! state and the display text are derived.

use crate::clock::{millis_between, span_millis, utc_now_millis, Clock};
use crate::error::Error;
use crate::text::{append_decimal, append_padded, decimal, padded};
use vstd::prelude::*;

verus! {

/// What a timer is doing. Never stored: derived from the timer's instants and
/// the current time.
#[derive(Clone, Copy, Debug, PartialEq, Eq, Structural)]
pub enum TimerState {
    Reset,
    CountingDown,
    Running,
    Stopped,
}

impl TimerState {
    /// The name of the state, as listeners are told it.
    pub open spec fn spec_name(self) -> Seq<char> {
        match self {
            TimerState::Reset => "Reset"@,
            TimerState::CountingDown => "CountingDown"@,
            TimerState::Running => "Running"@,
            TimerState::Stopped => "Stopped"@,
        }
    }

    /// The name of the state, as listeners are told it.
    pub fn name(&self) -> (name: &'static str)
        ensures
            name@ == self.spec_name(),
    {
        match self {
            TimerState::Reset => "Reset",
            TimerState::CountingDown => "CountingDown",
            TimerState::Running => "Running",
            TimerState::Stopped => "Stopped",
        }
    }
}

/// A countdown timer. Instants are nanoseconds on the timer's clock.
#[derive(Clone, Copy, Debug)]
pub struct Timer {
    clock: Clock,
    started_at: Option<u128>,
    started_at_datetime: Option<i64>,
    stopped_at: Option<u128>,
    stopped_at_datetime: Option<i64>,
    countdown_seconds: u64,
}

/// The mathematical content of a [`Timer`].
pub struct TimerView {
    /// The clock that `start`, `stop` and the queries without a time argument read.
    pub clock: Clock,
    /// When the timer was started, on its clock.
    pub started_at: Option<u128>,
    /// When the timer was started, in wall-clock milliseconds since the Unix epoch.
    pub started_at_datetime: Option<i64>,
    /// When the timer was stopped, on its clock.
    pub stopped_at: Option<u128>,
    /// When the timer was stopped, in wall-clock milliseconds since the Unix epoch.
    pub stopped_at_datetime: Option<i64>,
    /// The countdown that precedes the run, in seconds.
    pub countdown_seconds: u64,
}

/// The text of a countdown with `remaining` milliseconds to go: the whole
/// seconds left, any fraction of a second counting as a whole one.
pub open spec fn countdown_text(remaining: nat) -> Seq<char> {
    decimal(
        if remaining % 1000 > 0 {
            remaining / 1000 + 1
        } else {
            remaining / 1000
        },
    )
}

/// The text of `elapsed` milliseconds of running time: minutes, seconds and
/// milliseconds as `MM:SS.mmm`.
pub open spec fn elapsed_text(elapsed: nat) -> Seq<char> {
    padded(elapsed / 60_000, 2) + seq![':'] + padded((elapsed / 1000) % 60, 2) + seq!['.'] + padded(
        elapsed % 1000,
        3,
    )
}

impl TimerView {
    /// A timer that has not been started.
    pub open spec fn fresh(clock: Clock, countdown_seconds: u64) -> TimerView {
        TimerView {
            clock,
            started_at: None,
            started_at_datetime: None,
            stopped_at: None,
            stopped_at_datetime: None,
            countdown_seconds,
        }
    }

    /// The countdown in milliseconds.
    pub open spec fn countdown_millis(self) -> int {
        self.countdown_seconds * 1000
    }

    /// A stopped timer has been started, and was stopped no earlier than the
    /// end of its countdown. Each instant is kept with its wall-clock time.
    pub open spec fn wf(self) -> bool {
        &&& self.started_at is Some <==> self.started_at_datetime is Some
        &&& self.stopped_at is Some <==> self.stopped_at_datetime is Some
        &&& self.stopped_at is Some ==> self.started_at is Some && span_millis(
            self.stopped_at->0,
            self.started_at->0,
        ) >= self.countdown_millis()
    }

    /// Milliseconds since the countdown ended, at `now`: negative during the
    /// countdown, frozen once the timer is stopped, zero before it is started.
    pub open spec fn elapsed_at(self, now: u128) -> int {
        match self.started_at {
            None => 0,
            Some(start) => match self.stopped_at {
                Some(stop) => span_millis(stop, start) - self.countdown_millis(),
                None => span_millis(now, start) - self.countdown_millis(),
            },
        }
    }

    /// The state at `now`.
    pub open spec fn state_at(self, now: u128) -> TimerState {
        if self.started_at is None {
            TimerState::Reset
        } else if self.elapsed_at(now) < 0 {
            TimerState::CountingDown
        } else if self.stopped_at is Some {
            TimerState::Stopped
        } else {
            TimerState::Running
        }
    }

    /// The display text at `now`.
    pub open spec fn text_at(self, now: u128) -> Seq<char> {
        if self.state_at(now) == TimerState::CountingDown {
            countdown_text((-self.elapsed_at(now)) as nat)
        } else {
            elapsed_text(self.elapsed_at(now) as nat)
        }
    }

    /// The timer after a start at `now`, wall-clock time `wall`.
    pub open spec fn started(self, now: u128, wall: i64) -> TimerView {
        TimerView { started_at: Some(now), started_at_datetime: Some(wall), ..self }
    }

    /// The timer after a stop at `now`, wall-clock time `wall`.
    pub open spec fn stopped(self, now: u128, wall: i64) -> TimerView {
        TimerView { stopped_at: Some(now), stopped_at_datetime: Some(wall), ..self }
    }

    /// The timer after a reset.
    pub open spec fn cleared(self) -> TimerView {
        TimerView::fresh(self.clock, self.countdown_seconds)
    }

    /// What `start` at `now` answers: success from `Reset`, `InvalidTransition`
    /// with the state found from any other state.
    pub open spec fn start_result(self, now: u128) -> Result<(), Error> {
        if self.state_at(now) == TimerState::Reset {
            Ok(())
        } else {
            Err(Error::InvalidTransition(self.state_at(now)))
        }
    }

    /// What `stop` at `now` answers: success from `Running`, `InvalidTransition`
    /// with the state found from any other state.
    pub open spec fn stop_result(self, now: u128) -> Result<(), Error> {
        if self.state_at(now) == TimerState::Running {
            Ok(())
        } else {
            Err(Error::InvalidTransition(self.state_at(now)))
        }
    }

    /// What `start` at `now` leaves behind: the started timer if it was reset,
    /// the timer as it was otherwise.
    pub open spec fn after_start(self, now: u128, wall: i64) -> TimerView {
        if self.state_at(now) == TimerState::Reset {
            self.started(now, wall)
        } else {
            self
        }
    }

    /// What `stop` at `now` leaves behind: the stopped timer if it was
    /// running, the timer as it was otherwise.
    pub open spec fn after_stop(self, now: u128, wall: i64) -> TimerView {
        if self.state_at(now) == TimerState::Running {
            self.stopped(now, wall)
        } else {
            self
        }
    }
}

impl View for Timer {
    type V = TimerView;

    closed spec fn view(&self) -> TimerView {
        TimerView {
            clock: self.clock,
            started_at: self.started_at,
            started_at_datetime: self.started_at_datetime,
            stopped_at: self.stopped_at,
            stopped_at_datetime: self.stopped_at_datetime,
            countdown_seconds: self.countdown_seconds,
        }
    }
}

impl Timer {
    #[verifier::type_invariant]
    spec fn inv(self) -> bool {
        self@.wf()
    }

    /// A reset timer with a countdown of `countdown_seconds`, on a clock of its own.
    pub fn new(countdown_seconds: u64) -> (timer: Timer)
        ensures
            timer@ == TimerView::fresh(timer@.clock, countdown_seconds),
            timer@.wf(),
    {
        Timer::with_clock(countdown_seconds, Clock::new())
    }

    /// A reset timer with a countdown of `countdown_seconds` that reads `clock`.
    pub fn with_clock(countdown_seconds: u64, clock: Clock) -> (timer: Timer)
        ensures
            timer@ == TimerView::fresh(clock, countdown_seconds),
            timer@.wf(),
    {
        Timer {
            clock,
            started_at: None,
            started_at_datetime: None,
            stopped_at: None,
            stopped_at_datetime: None,
            countdown_seconds,
        }
    }

    /// Milliseconds since the countdown ended, at `now`.
    pub fn as_millis_at(&self, now: u128) -> (elapsed: i128)
        ensures
            elapsed == self@.elapsed_at(now),
    {
        match self.started_at {
            None => 0,
            Some(start) => {
                let end = match self.stopped_at {
                    Some(stop) => stop,
                    None => now,
                };
                let span = millis_between(end, start);
                span as i128 - (self.countdown_seconds as i128) * 1000
            },
        }
    }

    /// The state at `now`.
    pub fn get_state_at(&self, now: u128) -> (state: TimerState)
        ensures
            state == self@.state_at(now),
    {
        match self.started_at {
            None => TimerState::Reset,
            Some(_) => {
                if self.as_millis_at(now) < 0 {
                    TimerState::CountingDown
                } else {
                    match self.stopped_at {
                        Some(_) => TimerState::Stopped,
                        None => TimerState::Running,
                    }
                }
            },
        }
    }

    /// Starts the timer at `now` if it is reset; fails and changes nothing otherwise.
    pub fn start_at(&mut self, now: u128, wall: i64) -> (result: Result<(), Error>)
        ensures
            old(self)@.wf(),
            final(self)@.wf(),
            final(self)@ == old(self)@.after_start(now, wall),
            result == old(self)@.start_result(now),
    {
        proof {
            use_type_invariant(&*self);
        }
        let state = self.get_state_at(now);
        if state == TimerState::Reset {
            *self = Timer {
                clock: self.clock,
                started_at: Some(now),
                started_at_datetime: Some(wall),
                stopped_at: self.stopped_at,
                stopped_at_datetime: self.stopped_at_datetime,
                countdown_seconds: self.countdown_seconds,
            };
            Ok(())
        } else {
            Err(Error::InvalidTransition(state))
        }
    }

    /// Stops the timer at `now` if it is running; fails and changes nothing otherwise.
    pub fn stop_at(&mut self, now: u128, wall: i64) -> (result: Result<(), Error>)
        ensures
            old(self)@.wf(),
            final(self)@.wf(),
            final(self)@ == old(self)@.after_stop(now, wall),
            result == old(self)@.stop_result(now),
    {
        proof {
            use_type_invariant(&*self);
        }
        let state = self.get_state_at(now);
        if state == TimerState::Running {
            *self = Timer {
                clock: self.clock,
                started_at: self.started_at,
                started_at_datetime: self.started_at_datetime,
                stopped_at: Some(now),
                stopped_at_datetime: Some(wall),
                countdown_seconds: self.countdown_seconds,
            };
            Ok(())
        } else {
            Err(Error::InvalidTransition(state))
        }
    }

    /// The display text at `now`: the seconds left during the countdown, the
    /// running time as `MM:SS.mmm` otherwise.
    pub fn format_at(&self, now: u128) -> (text: String)
        ensures
            text@ == self@.text_at(now),
    {
        let elapsed = self.as_millis_at(now);
        let mut text = String::new();
        proof {
            reveal_strlit(":");
            reveal_strlit(".");
        }
        match self.get_state_at(now) {
            TimerState::CountingDown => {
                let remaining: u128 = (-elapsed) as u128;
                let mut seconds_left: u128 = remaining / 1000;
                if remaining % 1000 > 0 {
                    seconds_left = seconds_left + 1;
                }
                append_decimal(&mut text, seconds_left);
                assert(text@ =~= countdown_text(remaining as nat));
            },
            _ => {
                let run: u128 = elapsed as u128;
                append_padded(&mut text, run / 60_000, 2);
                text.append(":");
                append_padded(&mut text, (run / 1000) % 60, 2);
                text.append(".");
                append_padded(&mut text, run % 1000, 3);
                assert(text@ =~= elapsed_text(run as nat));
            },
        }
        text
    }

    /// Starts the timer now if it is reset; fails and changes nothing
    /// otherwise. The outcome is that of [`Timer::start_at`] at the reading of
    /// the timer's clock.
    pub fn start(&mut self) -> (result: Result<(), Error>)
        ensures
            exists|now: u128, wall: i64|
                final(self)@ == #[trigger] old(self)@.after_start(now, wall) && result == old(
                    self,
                )@.start_result(now),
    {
        let now = self.clock.now();
        let wall = utc_now_millis();
        self.start_at(now, wall)
    }

    /// Stops the timer now if it is running; fails and changes nothing
    /// otherwise. The outcome is that of [`Timer::stop_at`] at the reading of
    /// the timer's clock.
    pub fn stop(&mut self) -> (result: Result<(), Error>)
        ensures
            exists|now: u128, wall: i64|
                final(self)@ == #[trigger] old(self)@.after_stop(now, wall) && result == old(
                    self,
                )@.stop_result(now),
    {
        let now = self.clock.now();
        let wall = utc_now_millis();
        self.stop_at(now, wall)
    }

    /// Milliseconds since the countdown ended, at the reading of the timer's clock.
    pub fn as_millis(&self) -> (elapsed: i128)
        ensures
            exists|now: u128| elapsed == #[trigger] self@.elapsed_at(now),
    {
        let now = self.clock.now();
        self.as_millis_at(now)
    }

    /// The state at the reading of the timer's clock.
    pub fn get_state(&self) -> (state: TimerState)
        ensures
            exists|now: u128| state == #[trigger] self@.state_at(now),
    {
        let now = self.clock.now();
        self.get_state_at(now)
    }

    /// The display text at the reading of the timer's clock.
    pub fn format(&self) -> (text: String)
        ensures
            exists|now: u128| text@ == #[trigger] self@.text_at(now),
    {
        let now = self.clock.now();
        self.format_at(now)
    }

    /// When the timer was started, on its clock.
    pub fn started_at(&self) -> (at: Option<u128>)
        ensures
            at == self@.started_at,
    {
        self.started_at
    }

    /// When the timer was stopped, on its clock.
    pub fn stopped_at(&self) -> (at: Option<u128>)
        ensures
            at == self@.stopped_at,
    {
        self.stopped_at
    }

    /// When the timer was started, in wall-clock milliseconds since the Unix epoch.
    pub fn started_at_datetime(&self) -> (at: Option<i64>)
        ensures
            at == self@.started_at_datetime,
    {
        self.started_at_datetime
    }

    /// When the timer was stopped, in wall-clock milliseconds since the Unix epoch.
    pub fn stopped_at_datetime(&self) -> (at: Option<i64>)
        ensures
            at == self@.stopped_at_datetime,
    {
        self.stopped_at_datetime
    }

    /// The countdown that precedes the run, in seconds.
    pub fn countdown_seconds(&self) -> (seconds: u64)
        ensures
            seconds == self@.countdown_seconds,
    {
        self.countdown_seconds
    }

    /// The clock that the timer reads.
    pub fn clock(&self) -> (clock: Clock)
        ensures
            clock == self@.clock,
    {
        self.clock
    }

    /// Clears both instants, whatever the state.
    pub fn reset(&mut self)
        ensures
            final(self)@ == old(self)@.cleared(),
    {
        *self = Timer::with_clock(self.countdown_seconds, self.clock);
    }
}

/// A timer that has not been started is `Reset` at every instant, well formed,
/// and shows no elapsed time.
pub proof fn law_fresh_is_reset(clock: Clock, countdown_seconds: u64, now: u128)
    ensures
        TimerView::fresh(clock, countdown_seconds).wf(),
        TimerView::fresh(clock, countdown_seconds).state_at(now) == TimerState::Reset,
        TimerView::fresh(clock, countdown_seconds).elapsed_at(now) == 0,
{
}

/// `start` on a timer that is not `Reset` fails with `InvalidTransition` and
/// leaves the timer as it was.
pub proof fn law_start_needs_reset(timer: TimerView, now: u128, wall: i64)
    requires
        timer.state_at(now) != TimerState::Reset,
    ensures
        timer.start_result(now) == Err::<(), Error>(
            Error::InvalidTransition(timer.state_at(now)),
        ),
        timer.after_start(now, wall) == timer,
{
}

/// `start` on a `Reset` timer succeeds and records `now`. At `now` the timer
/// is then `CountingDown`, or `Running` at once if its countdown is zero.
pub proof fn law_start_from_reset(timer: TimerView, now: u128, wall: i64)
    requires
        timer.wf(),
        timer.state_at(now) == TimerState::Reset,
    ensures
        timer.start_result(now) is Ok,
        timer.after_start(now, wall).wf(),
        timer.after_start(now, wall).started_at == Some(now),
        timer.after_start(now, wall).stopped_at is None,
        timer.after_start(now, wall).elapsed_at(now) == -timer.countdown_millis(),
        timer.after_start(now, wall).state_at(now) == if timer.countdown_seconds == 0 {
            TimerState::Running
        } else {
            TimerState::CountingDown
        },
{
}

/// `stop` succeeds from `Running` only: from any other state it fails with
/// `InvalidTransition` and leaves the timer, and so its stop instant, as it was.
pub proof fn law_stop_needs_running(timer: TimerView, now: u128, wall: i64)
    requires
        timer.state_at(now) != TimerState::Running,
    ensures
        timer.stop_result(now) == Err::<(), Error>(Error::InvalidTransition(timer.state_at(now))),
        timer.after_stop(now, wall) == timer,
        timer.after_stop(now, wall).stopped_at == timer.stopped_at,
{
}

/// `stop` on a `Running` timer succeeds. From then on the timer is `Stopped`
/// and its elapsed time stays what it was at the stop.
pub proof fn law_stop_from_running(timer: TimerView, now: u128, wall: i64, later: u128)
    requires
        timer.wf(),
        timer.state_at(now) == TimerState::Running,
    ensures
        timer.stop_result(now) is Ok,
        timer.after_stop(now, wall).wf(),
        timer.after_stop(now, wall).stopped_at == Some(now),
        timer.after_stop(now, wall).state_at(later) == TimerState::Stopped,
        timer.after_stop(now, wall).elapsed_at(later) == timer.elapsed_at(now),
{
}

/// `reset` brings a timer in any state back to `Reset`.
pub proof fn law_reset_clears(timer: TimerView, now: u128)
    ensures
        timer.cleared().wf(),
        timer.cleared().state_at(now) == TimerState::Reset,
        timer.cleared().elapsed_at(now) == 0,
        timer.cleared().countdown_seconds == timer.countdown_seconds,
{
}

/// Whatever is asked of a well-formed timer, it stays well formed: a stopped
/// timer has been started.
pub proof fn law_timer_stays_well_formed(timer: TimerView, now: u128, wall: i64)
    requires
        timer.wf(),
    ensures
        timer.after_start(now, wall).wf(),
        timer.after_stop(now, wall).wf(),
        timer.cleared().wf(),
        timer.stopped_at is Some ==> timer.started_at is Some,
{
}

/// Elapsed time never runs backwards, and a stopped timer's stands still.
pub proof fn law_elapsed_monotonic(timer: TimerView, earlier: u128, later: u128)
    requires
        earlier <= later,
    ensures
        timer.elapsed_at(earlier) <= timer.elapsed_at(later),
        timer.stopped_at is Some ==> timer.elapsed_at(earlier) == timer.elapsed_at(later),
{
}

/// A started timer that has not been stopped is `CountingDown` while its
/// elapsed time is negative and `Running` from zero on; a stopped timer is
/// `Stopped`.
pub proof fn law_state_follows_sign(timer: TimerView, now: u128)
    requires
        timer.wf(),
        timer.started_at is Some,
    ensures
        timer.stopped_at is None && timer.elapsed_at(now) < 0 <==> timer.state_at(now)
            == TimerState::CountingDown,
        timer.stopped_at is None && timer.elapsed_at(now) >= 0 <==> timer.state_at(now)
            == TimerState::Running,
        timer.stopped_at is Some <==> timer.state_at(now) == TimerState::Stopped,
{
}

/// During the countdown the text is the number of seconds left, a started
/// second counting as a whole one: the least `shown` with
/// `remaining <= 1000 * shown`.
pub proof fn law_countdown_shows_ceiling(timer: TimerView, now: u128)
    requires
        timer.state_at(now) == TimerState::CountingDown,
    ensures
        ({
            let remaining = -timer.elapsed_at(now);
            let shown = (remaining + 999) / 1000;
            &&& remaining > 0
            &&& 1000 * (shown - 1) < remaining <= 1000 * shown
            &&& timer.text_at(now) == decimal(shown as nat)
        }),
{
}

} // verus!
