//! The reducer: commands in, state transitions and snapshots out.

use crate::clock::{
    nanos_between, span_nanos, utc_now_millis, Clock, NANOS_PER_MILLI, NANOS_PER_SEC,
};
use crate::error::Error;
use crate::fanout::{extended, Fanout};
use crate::info::{Info, InfoView};
use crate::settings::Settings;
use crate::timer::{Timer, TimerState, TimerView};
use std::sync::mpsc::Sender;
use vstd::prelude::*;

verus! {

/// A command to the reducer.
#[derive(Clone, Copy, Debug, PartialEq, Eq, Structural)]
pub enum InputEvent {
    StartTimers,
    StopTimer(usize),
    StopTimers,
    ResetTimers,
    RequestSync,
    SetButtonState(u8, bool),
    SetDebug(bool),
    SetCountdown(u64),
    ReloadBackground,
    ToggleDisplay,
    ToggleDebug,
}

/// A snapshot or directive that the reducer publishes.
#[derive(Debug)]
pub enum OutputEvent {
    SyncTimers(Vec<Timer>),
    SyncSettings(Settings),
    SyncInfo(Info),
    ReloadBackground,
    SetDisplay(bool),
}

/// The mathematical content of an [`OutputEvent`].
pub enum OutputEventView {
    SyncTimers(Seq<TimerView>),
    SyncSettings(Settings),
    SyncInfo(InfoView),
    ReloadBackground,
    SetDisplay(bool),
}

/// The contents of a list of timers.
pub open spec fn timer_views(timers: Seq<Timer>) -> Seq<TimerView> {
    Seq::new(timers.len(), |i: int| timers[i]@)
}

impl View for OutputEvent {
    type V = OutputEventView;

    open spec fn view(&self) -> OutputEventView {
        match *self {
            OutputEvent::SyncTimers(timers) => OutputEventView::SyncTimers(timer_views(timers@)),
            OutputEvent::SyncSettings(settings) => OutputEventView::SyncSettings(settings),
            OutputEvent::SyncInfo(info) => OutputEventView::SyncInfo(info@),
            OutputEvent::ReloadBackground => OutputEventView::ReloadBackground,
            OutputEvent::SetDisplay(visible) => OutputEventView::SetDisplay(visible),
        }
    }
}

/// A copy of a list of timers.
pub fn copy_timers(timers: &Vec<Timer>) -> (copy: Vec<Timer>)
    ensures
        copy@ == timers@,
{
    let mut copy: Vec<Timer> = Vec::new();
    let mut i: usize = 0;
    while i < timers.len()
        invariant
            i <= timers.len(),
            copy@ == timers@.subrange(0, i as int),
        decreases timers.len() - i,
    {
        copy.push(timers[i]);
        i = i + 1;
        assert(copy@ =~= timers@.subrange(0, i as int));
    }
    assert(copy@ =~= timers@);
    copy
}

impl Clone for OutputEvent {
    fn clone(&self) -> (copy: OutputEvent)
        ensures
            copy@ == self@,
    {
        match self {
            OutputEvent::SyncTimers(timers) => OutputEvent::SyncTimers(copy_timers(timers)),
            OutputEvent::SyncSettings(settings) => OutputEvent::SyncSettings(*settings),
            OutputEvent::SyncInfo(info) => OutputEvent::SyncInfo(info.clone()),
            OutputEvent::ReloadBackground => OutputEvent::ReloadBackground,
            OutputEvent::SetDisplay(visible) => OutputEvent::SetDisplay(*visible),
        }
    }
}

/// How long a start is refused after a start command last reset the timers,
/// or after the reducer was made, in nanoseconds.
pub const START_COOLDOWN: u128 = NANOS_PER_SEC;

/// How long the timers may have been started before a further start command
/// resets them instead, in nanoseconds.
pub const RUN_CEILING: u128 = NANOS_PER_SEC;

/// The shortest time between two toggles of the debug overlay by its button,
/// in nanoseconds. A press within this time of the last one is ignored.
pub const DEBUG_RETRIGGER: u128 = 500 * NANOS_PER_MILLI;

/// The button that toggles the debug overlay.
pub const DEBUG_BUTTON: u8 = 9;

/// The timers after each was asked to start at `now`.
pub open spec fn all_started(timers: Seq<TimerView>, now: u128, wall: i64) -> Seq<TimerView> {
    Seq::new(timers.len(), |i: int| timers[i].after_start(now, wall))
}

/// The timers after each was asked to stop at `now`.
pub open spec fn all_stopped(timers: Seq<TimerView>, now: u128, wall: i64) -> Seq<TimerView> {
    Seq::new(timers.len(), |i: int| timers[i].after_stop(now, wall))
}

/// The timers after each was reset.
pub open spec fn all_cleared(timers: Seq<TimerView>) -> Seq<TimerView> {
    Seq::new(timers.len(), |i: int| timers[i].cleared())
}

/// `count` reset timers on `clock` with a countdown of `countdown` seconds.
pub open spec fn fresh_timers(count: nat, clock: Clock, countdown: u64) -> Seq<TimerView> {
    Seq::new(count, |i: int| TimerView::fresh(clock, countdown))
}

/// The state that the reducer owns.
pub struct Session {
    /// One timer per display.
    pub timers: Seq<TimerView>,
    pub settings: Settings,
    pub info: InfoView,
    /// The clock of the reducer and of its timers.
    pub clock: Clock,
    /// When a start command last reset the timers; before the first such
    /// reset, when the reducer was made.
    pub reset_at: u128,
    /// When a start command last started the timers; before the first
    /// start, when the reducer was made.
    pub started_at: u128,
    /// When the debug button last toggled the overlay; before the first
    /// toggle, when the reducer was made.
    pub toggled_debug_at: u128,
    /// Whether the displays are shown.
    pub display_visible: bool,
}

/// What one command does.
pub struct Step {
    /// The state after the command.
    pub next: Session,
    /// The events published, in order.
    pub published: Seq<OutputEventView>,
    /// Whether the settings changed and are to be saved.
    pub persist: bool,
    /// `Ok`, or why the command was dropped.
    pub result: Result<(), Error>,
}

impl Session {
    /// The state of a reducer made at `now` on `clock`.
    pub open spec fn initial(settings: Settings, info: InfoView, clock: Clock, now: u128) -> Session {
        Session {
            timers: fresh_timers(info.number_displays as nat, clock, settings.countdown),
            settings,
            info,
            clock,
            reset_at: now,
            started_at: now,
            toggled_debug_at: now,
            display_visible: true,
        }
    }

    /// The snapshot of the timers.
    pub open spec fn timers_snapshot(self) -> OutputEventView {
        OutputEventView::SyncTimers(self.timers)
    }

    /// The snapshot of the settings.
    pub open spec fn settings_snapshot(self) -> OutputEventView {
        OutputEventView::SyncSettings(self.settings)
    }

    /// The snapshot of the machine's information.
    pub open spec fn info_snapshot(self) -> OutputEventView {
        OutputEventView::SyncInfo(self.info)
    }

    /// The full snapshot: timers, settings, information.
    pub open spec fn full_snapshot(self) -> Seq<OutputEventView> {
        seq![self.timers_snapshot(), self.settings_snapshot(), self.info_snapshot()]
    }

    /// A command without effect.
    pub open spec fn ignored(self) -> Step {
        Step { next: self, published: Seq::empty(), persist: false, result: Ok(()) }
    }

    /// A command dropped because of `error`.
    pub open spec fn dropped(self, error: Error) -> Step {
        Step { next: self, published: Seq::empty(), persist: false, result: Err(error) }
    }

    /// A change of the timers: the new timers are published.
    pub open spec fn timers_changed(self, next: Session) -> Step {
        Step { next, published: seq![next.timers_snapshot()], persist: false, result: Ok(()) }
    }

    /// A change of the settings: the new settings are published and are to
    /// be saved.
    pub open spec fn settings_changed(self, next: Session) -> Step {
        Step { next, published: seq![next.settings_snapshot()], persist: true, result: Ok(()) }
    }

    /// Start of all timers. While the first timer is `Reset` the command
    /// starts every timer, unless the timers were reset by a start command
    /// less than [`START_COOLDOWN`] ago. While it is not `Reset` the command
    /// resets every timer if the last start is more than [`RUN_CEILING`] ago.
    /// In every other case it does nothing. Without a timer it fails.
    pub open spec fn start_all(self, now: u128, wall: i64) -> Step {
        if self.timers.len() == 0 {
            self.dropped(Error::IndexOutOfRange(0))
        } else if self.timers[0].state_at(now) == TimerState::Reset {
            if span_nanos(now, self.reset_at) >= START_COOLDOWN {
                self.timers_changed(
                    Session {
                        timers: all_started(self.timers, now, wall),
                        started_at: now,
                        ..self
                    },
                )
            } else {
                self.ignored()
            }
        } else if span_nanos(now, self.started_at) > RUN_CEILING {
            self.timers_changed(
                Session { timers: all_cleared(self.timers), reset_at: now, ..self },
            )
        } else {
            self.ignored()
        }
    }

    /// Stop of the timer `index`: it must exist and be `Running`.
    pub open spec fn stop_one(self, index: usize, now: u128, wall: i64) -> Step {
        if index >= self.timers.len() {
            self.dropped(Error::IndexOutOfRange(index))
        } else if self.timers[index as int].state_at(now) != TimerState::Running {
            self.dropped(Error::InvalidTransition(self.timers[index as int].state_at(now)))
        } else {
            self.timers_changed(
                Session {
                    timers: self.timers.update(
                        index as int,
                        self.timers[index as int].stopped(now, wall),
                    ),
                    ..self
                },
            )
        }
    }

    /// Stop of all timers: those that are `Running` stop, the others stay.
    pub open spec fn stop_all(self, now: u128, wall: i64) -> Step {
        self.timers_changed(Session { timers: all_stopped(self.timers, now, wall), ..self })
    }

    /// Reset of all timers.
    pub open spec fn reset_all(self) -> Step {
        self.timers_changed(Session { timers: all_cleared(self.timers), ..self })
    }

    /// Request for the full snapshot.
    pub open spec fn request_sync(self) -> Step {
        Step { next: self, published: self.full_snapshot(), persist: false, result: Ok(()) }
    }

    /// A press of button 1 or 2 stops the first or second timer; a press of
    /// [`DEBUG_BUTTON`] toggles the debug overlay unless it did so no more
    /// than [`DEBUG_RETRIGGER`] ago. Releases and other buttons do nothing.
    pub open spec fn button(self, button_id: u8, pressed: bool, now: u128, wall: i64) -> Step {
        if !pressed {
            self.ignored()
        } else if button_id == 1 || button_id == 2 {
            let index = (button_id - 1) as int;
            if index >= self.timers.len() {
                self.dropped(Error::IndexOutOfRange(index as usize))
            } else if self.timers[index].state_at(now) != TimerState::Running {
                self.ignored()
            } else {
                self.timers_changed(
                    Session {
                        timers: self.timers.update(index, self.timers[index].stopped(now, wall)),
                        ..self
                    },
                )
            }
        } else if button_id == DEBUG_BUTTON && span_nanos(now, self.toggled_debug_at)
            > DEBUG_RETRIGGER {
            self.settings_changed(
                Session {
                    settings: Settings { show_debug: !self.settings.show_debug, ..self.settings },
                    toggled_debug_at: now,
                    ..self
                },
            )
        } else {
            self.ignored()
        }
    }

    /// The debug overlay is switched on or off.
    pub open spec fn set_debug(self, debug: bool) -> Step {
        self.settings_changed(
            Session { settings: Settings { show_debug: debug, ..self.settings }, ..self },
        )
    }

    /// A new countdown: every timer is replaced by a reset one with that
    /// countdown, whatever it was doing.
    pub open spec fn set_countdown(self, countdown: u64) -> Step {
        let next = Session {
            settings: Settings { countdown, ..self.settings },
            timers: fresh_timers(self.info.number_displays as nat, self.clock, countdown),
            ..self
        };
        Step {
            next,
            published: seq![next.settings_snapshot(), next.timers_snapshot()],
            persist: true,
            result: Ok(()),
        }
    }

    /// The displays are told to load their background again.
    pub open spec fn reload_background(self) -> Step {
        Step {
            next: self,
            published: seq![OutputEventView::ReloadBackground],
            persist: false,
            result: Ok(()),
        }
    }

    /// The displays are shown if they were hidden, and hidden if they were shown.
    pub open spec fn toggle_display(self) -> Step {
        Step {
            next: Session { display_visible: !self.display_visible, ..self },
            published: seq![OutputEventView::SetDisplay(!self.display_visible)],
            persist: false,
            result: Ok(()),
        }
    }

    /// What `event` does at `now`, wall-clock time `wall`.
    pub open spec fn step(self, event: InputEvent, now: u128, wall: i64) -> Step {
        match event {
            InputEvent::StartTimers => self.start_all(now, wall),
            InputEvent::StopTimer(index) => self.stop_one(index, now, wall),
            InputEvent::StopTimers => self.stop_all(now, wall),
            InputEvent::ResetTimers => self.reset_all(),
            InputEvent::RequestSync => self.request_sync(),
            InputEvent::SetButtonState(button_id, pressed) => self.button(
                button_id,
                pressed,
                now,
                wall,
            ),
            InputEvent::SetDebug(debug) => self.set_debug(debug),
            InputEvent::SetCountdown(countdown) => self.set_countdown(countdown),
            InputEvent::ReloadBackground => self.reload_background(),
            InputEvent::ToggleDisplay => self.toggle_display(),
            InputEvent::ToggleDebug => self.set_debug(!self.settings.show_debug),
        }
    }
}

/// What processing a command gives back when the command was not dropped.
#[derive(Clone, Debug, PartialEq, Eq)]
pub struct Outcome {
    /// Whether the settings changed and are to be saved.
    pub persist: bool,
    /// The deliveries that failed: for each, in the order of the attempts,
    /// the listener whose channel did not take an event, by its place in the
    /// order of registration.
    pub undelivered: Vec<usize>,
}

/// Whether `undelivered` can be the failed deliveries of `events` events to
/// `listeners` listeners.
pub open spec fn deliveries_failed(undelivered: Seq<usize>, events: nat, listeners: nat) -> bool {
    &&& undelivered.len() <= events * listeners
    &&& forall|k: int| 0 <= k < undelivered.len() ==> undelivered[k] < listeners
}

/// The timer `id`, to change it, or `IndexOutOfRange` if there is none.
fn get_timer_mut(timers: &mut Vec<Timer>, id: usize) -> (result: Result<&mut Timer, Error>)
    ensures
        match result {
            Ok(timer) => {
                &&& id < old(timers)@.len()
                &&& *timer == old(timers)@[id as int]
                &&& final(timers)@ == old(timers)@.update(id as int, *final(timer))
            },
            Err(error) => {
                &&& id >= old(timers)@.len()
                &&& error == Error::IndexOutOfRange(id)
                &&& final(timers)@ == old(timers)@
            },
        },
{
    if id < timers.len() {
        Ok(&mut timers[id])
    } else {
        Err(Error::IndexOutOfRange(id))
    }
}

/// Asks every timer to start at `now`.
fn start_each(timers: &mut Vec<Timer>, now: u128, wall: i64)
    ensures
        timer_views(final(timers)@) == all_started(timer_views(old(timers)@), now, wall),
{
    let mut i: usize = 0;
    while i < timers.len()
        invariant
            i <= timers@.len(),
            timers@.len() == old(timers)@.len(),
            forall|j: int| 0 <= j < i ==> timers@[j]@ == old(timers)@[j]@.after_start(now, wall),
            forall|j: int| i <= j < timers@.len() ==> timers@[j] == old(timers)@[j],
        decreases timers@.len() - i,
    {
        let timer = &mut timers[i];
        let _ = timer.start_at(now, wall);
        i = i + 1;
    }
    assert(timer_views(timers@) =~= all_started(timer_views(old(timers)@), now, wall));
}

/// Asks every timer to stop at `now`.
fn stop_each(timers: &mut Vec<Timer>, now: u128, wall: i64)
    ensures
        timer_views(final(timers)@) == all_stopped(timer_views(old(timers)@), now, wall),
{
    let mut i: usize = 0;
    while i < timers.len()
        invariant
            i <= timers@.len(),
            timers@.len() == old(timers)@.len(),
            forall|j: int| 0 <= j < i ==> timers@[j]@ == old(timers)@[j]@.after_stop(now, wall),
            forall|j: int| i <= j < timers@.len() ==> timers@[j] == old(timers)@[j],
        decreases timers@.len() - i,
    {
        let timer = &mut timers[i];
        let _ = timer.stop_at(now, wall);
        i = i + 1;
    }
    assert(timer_views(timers@) =~= all_stopped(timer_views(old(timers)@), now, wall));
}

/// Resets every timer.
fn reset_each(timers: &mut Vec<Timer>)
    ensures
        timer_views(final(timers)@) == all_cleared(timer_views(old(timers)@)),
{
    let mut i: usize = 0;
    while i < timers.len()
        invariant
            i <= timers@.len(),
            timers@.len() == old(timers)@.len(),
            forall|j: int| 0 <= j < i ==> timers@[j]@ == old(timers)@[j]@.cleared(),
            forall|j: int| i <= j < timers@.len() ==> timers@[j] == old(timers)@[j],
        decreases timers@.len() - i,
    {
        let timer = &mut timers[i];
        timer.reset();
        i = i + 1;
    }
    assert(timer_views(timers@) =~= all_cleared(timer_views(old(timers)@)));
}

/// `count` reset timers on `clock` with a countdown of `countdown` seconds.
fn make_timers(count: usize, clock: Clock, countdown: u64) -> (timers: Vec<Timer>)
    ensures
        timer_views(timers@) == fresh_timers(count as nat, clock, countdown),
{
    let mut timers: Vec<Timer> = Vec::new();
    while timers.len() < count
        invariant
            timers@.len() <= count,
            forall|j: int| 0 <= j < timers@.len() ==> timers@[j]@ == TimerView::fresh(clock, countdown),
        decreases count - timers@.len(),
    {
        timers.push(Timer::with_clock(countdown, clock));
    }
    assert(timer_views(timers@) =~= fresh_timers(count as nat, clock, countdown));
    timers
}

/// The products of small numbers with `n`, spelled out as sums.
proof fn lemma_small_products(n: nat)
    ensures
        forall|k: nat| k == 0 ==> #[trigger] (k * n) == 0,
        forall|k: nat| k == 1 ==> #[trigger] (k * n) == n,
        forall|k: nat| k == 2 ==> #[trigger] (k * n) == n + n,
        forall|k: nat| k == 3 ==> #[trigger] (k * n) == n + n + n,
{
    assert forall|k: nat| k == 0 implies #[trigger] (k * n) == 0 by {
        assert(0 * n == 0) by (nonlinear_arith);
    }
    assert forall|k: nat| k == 1 implies #[trigger] (k * n) == n by {
        assert(1 * n == n) by (nonlinear_arith);
    }
    assert forall|k: nat| k == 2 implies #[trigger] (k * n) == n + n by {
        assert(2 * n == n + n) by (nonlinear_arith);
    }
    assert forall|k: nat| k == 3 implies #[trigger] (k * n) == n + n + n by {
        assert(3 * n == n + n + n) by (nonlinear_arith);
    }
}

/// Publishing nothing leaves the logs as they are; publishing in two parts
/// is publishing the whole.
pub proof fn lemma_extended(
    logs: Seq<Seq<OutputEventView>>,
    first: Seq<OutputEventView>,
    second: Seq<OutputEventView>,
)
    ensures
        extended(logs, Seq::empty()) == logs,
        extended(extended(logs, first), second) == extended(logs, first + second),
{
    assert forall|i: int| 0 <= i < logs.len() implies #[trigger] logs[i] + Seq::<
        OutputEventView,
    >::empty() == logs[i] by {
        assert(logs[i] + Seq::<OutputEventView>::empty() =~= logs[i]);
    }
    assert(extended(logs, Seq::empty()) =~= logs);
    assert forall|i: int| 0 <= i < logs.len() implies #[trigger] (logs[i] + first) + second
        == logs[i] + (first + second) by {
        assert((logs[i] + first) + second =~= logs[i] + (first + second));
    }
    assert(extended(extended(logs, first), second) =~= extended(logs, first + second));
}

/// The reducer: the one owner of the timers and the settings. It takes one
/// command at a time, changes its state, and publishes the snapshots that
/// follow from the change to its listeners.
pub struct StateManager {
    fanout: Fanout,
    timers: Vec<Timer>,
    settings: Settings,
    info: Info,
    clock: Clock,
    reset_at: u128,
    started_at: u128,
    toggled_debug_at: u128,
    display_visible: bool,
}

impl StateManager {
    /// The state that the reducer owns.
    pub closed spec fn session(&self) -> Session {
        Session {
            timers: timer_views(self.timers@),
            settings: self.settings,
            info: self.info@,
            clock: self.clock,
            reset_at: self.reset_at,
            started_at: self.started_at,
            toggled_debug_at: self.toggled_debug_at,
            display_visible: self.display_visible,
        }
    }

    /// For each listener, in the order of registration, the events it has
    /// been handed since.
    pub closed spec fn listeners(&self) -> Seq<Seq<OutputEventView>> {
        self.fanout@
    }

    /// `post` and `result` are what processing `event` at `now` makes of
    /// `self`: the state has taken the step, every listener has been handed
    /// the events of the step in order, and the result tells whether the
    /// command was dropped and whether the settings are to be saved.
    pub open spec fn processed(
        &self,
        event: InputEvent,
        now: u128,
        wall: i64,
        post: &StateManager,
        result: Result<Outcome, Error>,
    ) -> bool {
        let step = self.session().step(event, now, wall);
        &&& post.session() == step.next
        &&& post.listeners() == extended(self.listeners(), step.published)
        &&& match result {
            Ok(outcome) => {
                &&& step.result is Ok
                &&& outcome.persist == step.persist
                &&& deliveries_failed(
                    outcome.undelivered@,
                    step.published.len(),
                    self.listeners().len(),
                )
            },
            Err(error) => step.result == Err::<(), Error>(error),
        }
    }

    /// A reducer on `clock`, made at `now`, with one reset timer per display
    /// and no listener.
    pub fn new_at(settings: Settings, info: Info, clock: Clock, now: u128) -> (manager:
        StateManager)
        ensures
            manager.session() == Session::initial(settings, info@, clock, now),
            manager.listeners() == Seq::<Seq<OutputEventView>>::empty(),
    {
        StateManager {
            fanout: Fanout::new(),
            timers: make_timers(info.number_displays, clock, settings.countdown),
            settings,
            info,
            clock,
            reset_at: now,
            started_at: now,
            toggled_debug_at: now,
            display_visible: true,
        }
    }

    /// A reducer on a clock of its own, made now.
    pub fn new(settings: Settings, info: Info) -> (manager: StateManager)
        ensures
            exists|clock: Clock, now: u128|
                manager.session() == #[trigger] Session::initial(settings, info@, clock, now),
            manager.listeners() == Seq::<Seq<OutputEventView>>::empty(),
    {
        let clock = Clock::new();
        let now = clock.now();
        StateManager::new_at(settings, info, clock, now)
    }

    /// The timers, one per display.
    pub fn timers(&self) -> (timers: &Vec<Timer>)
        ensures
            timer_views(timers@) == self.session().timers,
    {
        &self.timers
    }

    /// The settings.
    pub fn settings(&self) -> (settings: Settings)
        ensures
            settings == self.session().settings,
    {
        self.settings
    }

    /// The machine's information.
    pub fn info(&self) -> (info: &Info)
        ensures
            info@ == self.session().info,
    {
        &self.info
    }

    /// Whether the displays are shown.
    pub fn display_visible(&self) -> (visible: bool)
        ensures
            visible == self.session().display_visible,
    {
        self.display_visible
    }

    /// The clock of the reducer and of its timers.
    pub fn clock(&self) -> (clock: Clock)
        ensures
            clock == self.session().clock,
    {
        self.clock
    }

    /// The number of listeners.
    pub fn listener_count(&self) -> (count: usize)
        ensures
            count == self.listeners().len(),
    {
        self.fanout.listener_count()
    }

    /// Registers `listener` behind the listeners that are there. It is handed
    /// the events published from now on.
    pub fn add_listener(&mut self, listener: Sender<OutputEvent>)
        ensures
            final(self).session() == old(self).session(),
            final(self).listeners() == old(self).listeners().push(
                Seq::<OutputEventView>::empty(),
            ),
    {
        self.fanout.add_listener(listener);
    }

    /// Hands `event` to every listener and returns the listeners whose
    /// deliveries failed.
    fn notify_listeners(&mut self, event: &OutputEvent) -> (undelivered: Vec<usize>)
        ensures
            final(self).session() == old(self).session(),
            final(self).listeners() == extended(old(self).listeners(), seq![event@]),
            deliveries_failed(undelivered@, 1, old(self).listeners().len()),
    {
        proof {
            lemma_small_products(old(self).listeners().len());
        }
        self.fanout.publish(event)
    }

    /// Publishes the snapshot of the timers.
    fn publish_timers(&mut self) -> (undelivered: Vec<usize>)
        ensures
            final(self).session() == old(self).session(),
            final(self).listeners() == extended(
                old(self).listeners(),
                seq![old(self).session().timers_snapshot()],
            ),
            deliveries_failed(undelivered@, 1, old(self).listeners().len()),
    {
        let event = OutputEvent::SyncTimers(copy_timers(&self.timers));
        self.notify_listeners(&event)
    }

    /// Publishes the snapshot of the settings.
    fn publish_settings(&mut self) -> (undelivered: Vec<usize>)
        ensures
            final(self).session() == old(self).session(),
            final(self).listeners() == extended(
                old(self).listeners(),
                seq![old(self).session().settings_snapshot()],
            ),
            deliveries_failed(undelivered@, 1, old(self).listeners().len()),
    {
        let event = OutputEvent::SyncSettings(self.settings);
        self.notify_listeners(&event)
    }

    /// Publishes the snapshot of the machine's information.
    fn publish_info(&mut self) -> (undelivered: Vec<usize>)
        ensures
            final(self).session() == old(self).session(),
            final(self).listeners() == extended(
                old(self).listeners(),
                seq![old(self).session().info_snapshot()],
            ),
            deliveries_failed(undelivered@, 1, old(self).listeners().len()),
    {
        let event = OutputEvent::SyncInfo(self.info.clone());
        self.notify_listeners(&event)
    }

    /// Publishes the full snapshot: timers, settings, information.
    fn publish_all(&mut self) -> (undelivered: Vec<usize>)
        ensures
            final(self).session() == old(self).session(),
            final(self).listeners() == extended(
                old(self).listeners(),
                old(self).session().full_snapshot(),
            ),
            deliveries_failed(undelivered@, 3, old(self).listeners().len()),
    {
        let mut undelivered = self.publish_timers();
        let mut settings = self.publish_settings();
        let mut info = self.publish_info();
        undelivered.append(&mut settings);
        undelivered.append(&mut info);
        proof {
            let session = old(self).session();
            let logs = old(self).listeners();
            lemma_small_products(logs.len());
            lemma_extended(logs, seq![session.timers_snapshot()], seq![session.settings_snapshot()]);
            lemma_extended(
                logs,
                seq![session.timers_snapshot()] + seq![session.settings_snapshot()],
                seq![session.info_snapshot()],
            );
            assert(seq![session.timers_snapshot()] + seq![session.settings_snapshot()] + seq![
                session.info_snapshot(),
            ] =~= session.full_snapshot());
        }
        undelivered
    }

    /// Publishes the full snapshot to every listener and returns the
    /// listeners whose deliveries failed, one entry for each delivery. The
    /// state stays as it is.
    pub fn sync_all(&mut self) -> (undelivered: Vec<usize>)
        ensures
            final(self).session() == old(self).session(),
            final(self).listeners() == extended(
                old(self).listeners(),
                old(self).session().full_snapshot(),
            ),
            deliveries_failed(undelivered@, 3, old(self).listeners().len()),
    {
        self.publish_all()
    }

    /// Stops the timer `index` at `now` if it exists and is `Running`, and
    /// publishes the timers if it did.
    fn stop_timer(&mut self, index: usize, now: u128, wall: i64) -> (result: Result<
        Outcome,
        Error,
    >)
        ensures
            old(self).processed(InputEvent::StopTimer(index), now, wall, final(self), result),
    {
        proof {
            lemma_extended(old(self).listeners(), Seq::empty(), Seq::empty());
            lemma_small_products(old(self).listeners().len());
        }
        let timer = get_timer_mut(&mut self.timers, index)?;
        match timer.stop_at(now, wall) {
            Err(error) => {
                assert(timer_views(self.timers@) =~= timer_views(old(self).timers@));
                Err(error)
            },
            Ok(()) => {
                assert(timer_views(self.timers@) =~= old(self).session().stop_one(
                    index,
                    now,
                    wall,
                ).next.timers);
                let undelivered = self.publish_timers();
                Ok(Outcome { persist: false, undelivered })
            },
        }
    }

    /// Sets the debug overlay, publishes the settings and asks for them to be saved.
    fn set_debug(&mut self, debug: bool) -> (outcome: Outcome)
        ensures
            final(self).session() == old(self).session().set_debug(debug).next,
            final(self).listeners() == extended(
                old(self).listeners(),
                old(self).session().set_debug(debug).published,
            ),
            outcome.persist,
            deliveries_failed(outcome.undelivered@, 1, old(self).listeners().len()),
    {
        self.settings = Settings {
            countdown: self.settings.countdown,
            show_debug: debug,
            fullscreen: self.settings.fullscreen,
        };
        let undelivered = self.publish_settings();
        Outcome { persist: true, undelivered }
    }

    /// Processes `event` at `now`, wall-clock time `wall`: takes the step that
    /// [`Session::step`] describes and hands the events of the step to every
    /// listener. A command whose precondition fails is dropped: the state stays
    /// as it is, nothing is published, and the error says why.
    pub fn process_at(&mut self, event: InputEvent, now: u128, wall: i64) -> (result: Result<
        Outcome,
        Error,
    >)
        ensures
            old(self).processed(event, now, wall, final(self), result),
    {
        proof {
            lemma_extended(old(self).listeners(), Seq::empty(), Seq::empty());
            lemma_small_products(old(self).listeners().len());
        }
        match event {
            InputEvent::StartTimers => {
                if self.timers.len() == 0 {
                    return Err(Error::IndexOutOfRange(0));
                }
                if self.timers[0].get_state_at(now) == TimerState::Reset {
                    if nanos_between(now, self.reset_at) >= START_COOLDOWN {
                        start_each(&mut self.timers, now, wall);
                        self.started_at = now;
                        let undelivered = self.publish_timers();
                        Ok(Outcome { persist: false, undelivered })
                    } else {
                        Ok(Outcome { persist: false, undelivered: Vec::new() })
                    }
                } else if nanos_between(now, self.started_at) > RUN_CEILING {
                    reset_each(&mut self.timers);
                    self.reset_at = now;
                    let undelivered = self.publish_timers();
                    Ok(Outcome { persist: false, undelivered })
                } else {
                    Ok(Outcome { persist: false, undelivered: Vec::new() })
                }
            },
            InputEvent::StopTimer(index) => self.stop_timer(index, now, wall),
            InputEvent::StopTimers => {
                stop_each(&mut self.timers, now, wall);
                let undelivered = self.publish_timers();
                Ok(Outcome { persist: false, undelivered })
            },
            InputEvent::ResetTimers => {
                reset_each(&mut self.timers);
                let undelivered = self.publish_timers();
                Ok(Outcome { persist: false, undelivered })
            },
            InputEvent::RequestSync => {
                let undelivered = self.publish_all();
                Ok(Outcome { persist: false, undelivered })
            },
            InputEvent::SetButtonState(button_id, pressed) => {
                if !pressed {
                    Ok(Outcome { persist: false, undelivered: Vec::new() })
                } else if button_id == 1 || button_id == 2 {
                    let index: usize = (button_id - 1) as usize;
                    match self.stop_timer(index, now, wall) {
                        Ok(outcome) => Ok(outcome),
                        Err(Error::InvalidTransition(_)) => Ok(
                            Outcome { persist: false, undelivered: Vec::new() },
                        ),
                        Err(error) => Err(error),
                    }
                } else if button_id == DEBUG_BUTTON && nanos_between(now, self.toggled_debug_at)
                    > DEBUG_RETRIGGER {
                    let outcome = self.set_debug(!self.settings.show_debug);
                    self.toggled_debug_at = now;
                    Ok(outcome)
                } else {
                    Ok(Outcome { persist: false, undelivered: Vec::new() })
                }
            },
            InputEvent::SetDebug(debug) => Ok(self.set_debug(debug)),
            InputEvent::SetCountdown(countdown) => {
                self.settings = Settings {
                    countdown,
                    show_debug: self.settings.show_debug,
                    fullscreen: self.settings.fullscreen,
                };
                self.timers = make_timers(self.info.number_displays, self.clock, countdown);
                let mut undelivered = self.publish_settings();
                let mut timers = self.publish_timers();
                undelivered.append(&mut timers);
                proof {
                    let next = old(self).session().set_countdown(countdown).next;
                    lemma_extended(
                        old(self).listeners(),
                        seq![next.settings_snapshot()],
                        seq![next.timers_snapshot()],
                    );
                    assert(seq![next.settings_snapshot()] + seq![next.timers_snapshot()] =~= old(
                        self,
                    ).session().set_countdown(countdown).published);
                }
                Ok(Outcome { persist: true, undelivered })
            },
            InputEvent::ReloadBackground => {
                let undelivered = self.notify_listeners(&OutputEvent::ReloadBackground);
                Ok(Outcome { persist: false, undelivered })
            },
            InputEvent::ToggleDisplay => {
                self.display_visible = !self.display_visible;
                let undelivered = self.notify_listeners(
                    &OutputEvent::SetDisplay(self.display_visible),
                );
                Ok(Outcome { persist: false, undelivered })
            },
            InputEvent::ToggleDebug => Ok(self.set_debug(!self.settings.show_debug)),
        }
    }

    /// Processes `event` now: the outcome is that of
    /// [`StateManager::process_at`] at the reading of the reducer's clock and
    /// of the wall clock.
    pub fn process(&mut self, event: InputEvent) -> (result: Result<Outcome, Error>)
        ensures
            exists|now: u128, wall: i64| #[trigger]
                old(self).processed(event, now, wall, final(self), result),
    {
        let now = self.clock.now();
        let wall = utc_now_millis();
        self.process_at(event, now, wall)
    }
}

/// A dropped command changes nothing: the state stays as it is, nothing is
/// published and nothing is to be saved.
pub proof fn law_dropped_command_changes_nothing(
    session: Session,
    event: InputEvent,
    now: u128,
    wall: i64,
)
    requires
        session.step(event, now, wall).result is Err,
    ensures
        session.step(event, now, wall).next == session,
        session.step(event, now, wall).published == Seq::<OutputEventView>::empty(),
        !session.step(event, now, wall).persist,
{
}

/// Every change of the owned state is published: a step that changes the
/// timers publishes the new timers, one that changes the settings publishes
/// the new settings and asks for them to be saved, and one that changes the
/// visibility of the displays publishes it. The machine's information and
/// the clock never change.
pub proof fn law_changes_are_published(session: Session, event: InputEvent, now: u128, wall: i64)
    ensures
        ({
            let step = session.step(event, now, wall);
            &&& step.next.timers != session.timers ==> step.published.contains(
                step.next.timers_snapshot(),
            )
            &&& step.next.settings != session.settings ==> step.persist && step.published.contains(
                step.next.settings_snapshot(),
            )
            &&& step.next.display_visible != session.display_visible ==> step.published.contains(
                OutputEventView::SetDisplay(step.next.display_visible),
            )
            &&& step.persist ==> step.published.contains(step.next.settings_snapshot())
            &&& step.next.info == session.info
            &&& step.next.clock == session.clock
        }),
{
    let step = session.step(event, now, wall);
    let timers = step.next.timers_snapshot();
    let settings = step.next.settings_snapshot();
    let display = OutputEventView::SetDisplay(step.next.display_visible);
    if step.published.len() == 1 {
        assert(step.published[0] == timers ==> step.published.contains(timers));
        assert(step.published[0] == settings ==> step.published.contains(settings));
        assert(step.published[0] == display ==> step.published.contains(display));
    } else if step.published.len() == 2 {
        assert(step.published[0] == settings);
        assert(step.published[1] == timers);
    }
}

/// A reducer keeps one well-formed timer per display.
pub open spec fn one_timer_per_display(session: Session) -> bool {
    &&& session.timers.len() == session.info.number_displays
    &&& forall|i: int| 0 <= i < session.timers.len() ==> (#[trigger] session.timers[i]).wf()
}

/// A new reducer has one well-formed timer per display, and every step keeps
/// it so.
pub proof fn law_one_timer_per_display(
    settings: Settings,
    info: InfoView,
    clock: Clock,
    session: Session,
    event: InputEvent,
    now: u128,
    wall: i64,
)
    ensures
        one_timer_per_display(Session::initial(settings, info, clock, now)),
        one_timer_per_display(session) ==> one_timer_per_display(
            session.step(event, now, wall).next,
        ),
{
    if one_timer_per_display(session) {
        let next = session.step(event, now, wall).next;
        assert forall|i: int| 0 <= i < next.timers.len() implies (#[trigger] next.timers[i]).wf() by {
            assert(session.timers[i].wf());
        }
    }
}

/// Commands are processed one after the other, and every listener is handed
/// the events of the first command before those of the second: whichever two
/// listeners one looks at, each has been handed, behind what it had before,
/// the events of the first step and then the events of the second, in the
/// order in which the steps published them.
pub proof fn law_listeners_observe_one_order(
    before: StateManager,
    first: InputEvent,
    now1: u128,
    wall1: i64,
    result1: Result<Outcome, Error>,
    between: StateManager,
    second: InputEvent,
    now2: u128,
    wall2: i64,
    result2: Result<Outcome, Error>,
    after: StateManager,
    i: int,
    j: int,
)
    requires
        before.processed(first, now1, wall1, &between, result1),
        between.processed(second, now2, wall2, &after, result2),
        0 <= i < before.listeners().len(),
        0 <= j < before.listeners().len(),
    ensures
        ({
            let events = before.session().step(first, now1, wall1).published
                + between.session().step(second, now2, wall2).published;
            &&& after.listeners().len() == before.listeners().len()
            &&& after.listeners()[i] == before.listeners()[i] + events
            &&& after.listeners()[j] == before.listeners()[j] + events
        }),
{
    lemma_extended(
        before.listeners(),
        before.session().step(first, now1, wall1).published,
        between.session().step(second, now2, wall2).published,
    );
}

/// A command together with the readings of the clocks at which it is processed.
pub struct Timed {
    pub event: InputEvent,
    pub now: u128,
    pub wall: i64,
}

impl Session {
    /// The state after `commands` were processed one after the other.
    pub open spec fn after(self, commands: Seq<Timed>) -> Session
        decreases commands.len(),
    {
        if commands.len() == 0 {
            self
        } else {
            self.after(commands.drop_last()).step(
                commands.last().event,
                commands.last().now,
                commands.last().wall,
            ).next
        }
    }

    /// The events that `commands`, processed one after the other, publish:
    /// those of the first command first, each command's in the order of its step.
    pub open spec fn published_by(self, commands: Seq<Timed>) -> Seq<OutputEventView>
        decreases commands.len(),
    {
        if commands.len() == 0 {
            Seq::empty()
        } else {
            self.published_by(commands.drop_last()) + self.after(commands.drop_last()).step(
                commands.last().event,
                commands.last().now,
                commands.last().wall,
            ).published
        }
    }
}

/// However many commands are processed, the reducer takes them one at a time
/// in the order given, and every listener is handed the same events in the
/// same order. `states` holds the reducer before the first command and after
/// each command; `results` holds what each command gave back.
pub proof fn law_run_is_serial(
    states: Seq<StateManager>,
    commands: Seq<Timed>,
    results: Seq<Result<Outcome, Error>>,
    i: int,
)
    requires
        states.len() == commands.len() + 1,
        results.len() == commands.len(),
        forall|k: int|
            0 <= k < commands.len() ==> (#[trigger] states[k]).processed(
                commands[k].event,
                commands[k].now,
                commands[k].wall,
                &states[k + 1],
                results[k],
            ),
        0 <= i < states[0].listeners().len(),
    ensures
        states.last().session() == states[0].session().after(commands),
        states.last().listeners().len() == states[0].listeners().len(),
        states.last().listeners()[i] == states[0].listeners()[i] + states[0].session().published_by(
            commands,
        ),
    decreases commands.len(),
{
    let first = states[0];
    if commands.len() == 0 {
        assert(first.listeners()[i] + Seq::<OutputEventView>::empty() =~= first.listeners()[i]);
    } else {
        let count = commands.len() as int;
        let earlier = commands.drop_last();
        assert forall|k: int| 0 <= k < earlier.len() implies (#[trigger] states.drop_last()[k]).processed(
            earlier[k].event,
            earlier[k].now,
            earlier[k].wall,
            &states.drop_last()[k + 1],
            results.drop_last()[k],
        ) by {
            assert(states[k].processed(
                commands[k].event,
                commands[k].now,
                commands[k].wall,
                &states[k + 1],
                results[k],
            ));
        }
        law_run_is_serial(states.drop_last(), earlier, results.drop_last(), i);
        let before = states[count - 1];
        assert(before == states.drop_last().last());
        assert(before.processed(
            commands[count - 1].event,
            commands[count - 1].now,
            commands[count - 1].wall,
            &states[count],
            results[count - 1],
        ));
        let step = before.session().step(
            commands.last().event,
            commands.last().now,
            commands.last().wall,
        );
        assert(states.last().listeners()[i] == before.listeners()[i] + step.published);
        assert((first.listeners()[i] + first.session().published_by(earlier)) + step.published
            =~= first.listeners()[i] + first.session().published_by(commands));
    }
}

/// No listener holds the reducer or another listener up. Whatever the
/// channels answer to the deliveries of a command, the state after it and
/// what every listener has been handed are the same: two runs of one command
/// from one state that differ in nothing but the deliveries that failed end
/// in the same state, with the same events handed to every listener, and
/// agree on whether the command was dropped.
pub proof fn law_deliveries_do_not_interfere(
    before: StateManager,
    event: InputEvent,
    now: u128,
    wall: i64,
    after1: StateManager,
    result1: Result<Outcome, Error>,
    after2: StateManager,
    result2: Result<Outcome, Error>,
)
    requires
        before.processed(event, now, wall, &after1, result1),
        before.processed(event, now, wall, &after2, result2),
    ensures
        after1.session() == after2.session(),
        after1.listeners() == after2.listeners(),
        result1 is Ok <==> result2 is Ok,
        result1 is Ok ==> result1->Ok_0.persist == result2->Ok_0.persist,
        result1 is Err ==> result1 == result2,
{
}

} // verus!
