//! What remote listeners are told of the timers.

use crate::clock::utc_now_millis;
use crate::state::{OutputEvent, OutputEventView};
use crate::timer::{Timer, TimerState, TimerView};
use vstd::prelude::*;

verus! {

/// The name under which an event goes out to remote listeners: the two
/// snapshots that they act on have names of their own, every other event
/// goes out under a common name.
pub open spec fn spec_event_name(event: OutputEventView) -> Seq<char> {
    match event {
        OutputEventView::SyncTimers(_) => "syncTimers"@,
        OutputEventView::SyncSettings(_) => "syncSettings"@,
        _ => "outputEvent"@,
    }
}

/// Computes [`spec_event_name`].
pub fn event_name(event: &OutputEvent) -> (name: &'static str)
    ensures
        name@ == spec_event_name(event@),
{
    match event {
        OutputEvent::SyncTimers(_) => "syncTimers",
        OutputEvent::SyncSettings(_) => "syncSettings",
        _ => "outputEvent",
    }
}

/// One timer, as remote listeners are told of it.
#[derive(Debug)]
pub struct TimerReport {
    /// The index of the timer.
    pub id: usize,
    /// When the timer was started, in milliseconds since the Unix epoch.
    pub started_at: Option<i64>,
    /// When the timer was stopped, in milliseconds since the Unix epoch.
    pub stopped_at: Option<i64>,
    /// The countdown in seconds.
    pub countdown: u64,
    /// The state when the report was made.
    pub state: TimerState,
    /// The display text when the report was made.
    pub formatted: String,
}

/// The mathematical content of a [`TimerReport`].
pub struct TimerReportView {
    pub id: usize,
    pub started_at: Option<i64>,
    pub stopped_at: Option<i64>,
    pub countdown: u64,
    pub state: TimerState,
    pub formatted: Seq<char>,
}

impl TimerReportView {
    /// The report on the timer `timer` with index `id`, made at `now` on the
    /// timer's clock.
    pub open spec fn of(id: usize, timer: TimerView, now: u128) -> TimerReportView {
        TimerReportView {
            id,
            started_at: timer.started_at_datetime,
            stopped_at: timer.stopped_at_datetime,
            countdown: timer.countdown_seconds,
            state: timer.state_at(now),
            formatted: timer.text_at(now),
        }
    }
}

/// Whether `report` is the report on `timer` with index `id`, made at some
/// reading of the timer's clock.
pub open spec fn reports_timer(report: TimerReportView, id: usize, timer: TimerView) -> bool {
    exists|now: u128| report == #[trigger] TimerReportView::of(id, timer, now)
}

impl View for TimerReport {
    type V = TimerReportView;

    open spec fn view(&self) -> TimerReportView {
        TimerReportView {
            id: self.id,
            started_at: self.started_at,
            stopped_at: self.stopped_at,
            countdown: self.countdown,
            state: self.state,
            formatted: self.formatted@,
        }
    }
}

impl TimerReport {
    /// The report on `timer` with index `id`, made at `now`.
    pub fn new_at(id: usize, timer: &Timer, now: u128) -> (report: TimerReport)
        ensures
            report@ == TimerReportView::of(id, timer@, now),
    {
        TimerReport {
            id,
            started_at: timer.started_at_datetime(),
            stopped_at: timer.stopped_at_datetime(),
            countdown: timer.countdown_seconds(),
            state: timer.get_state_at(now),
            formatted: timer.format_at(now),
        }
    }

    /// The report on `timer` with index `id`, made at the reading of the
    /// timer's clock.
    pub fn new(id: usize, timer: &Timer) -> (report: TimerReport)
        ensures
            reports_timer(report@, id, timer@),
    {
        let now = timer.clock().now();
        TimerReport::new_at(id, timer, now)
    }
}

/// All timers, as remote listeners are told of them.
#[derive(Debug)]
pub struct TimersReport {
    /// One report per timer, in the order of the timers.
    pub timers: Vec<TimerReport>,
    /// When the report was made, in milliseconds since the Unix epoch.
    pub now: i64,
}

impl TimersReport {
    /// The report on `timers`, made at `now` on their clock and at the
    /// wall-clock time `wall`.
    pub fn new_at(timers: &Vec<Timer>, now: u128, wall: i64) -> (report: TimersReport)
        ensures
            report.now == wall,
            report.timers@.len() == timers@.len(),
            forall|i: int|
                0 <= i < timers@.len() ==> (#[trigger] report.timers@[i])@ == TimerReportView::of(
                    i as usize,
                    timers@[i]@,
                    now,
                ),
    {
        let mut reports: Vec<TimerReport> = Vec::new();
        let mut i: usize = 0;
        while i < timers.len()
            invariant
                i <= timers@.len(),
                reports@.len() == i,
                forall|j: int|
                    0 <= j < i ==> (#[trigger] reports@[j])@ == TimerReportView::of(
                        j as usize,
                        timers@[j]@,
                        now,
                    ),
            decreases timers@.len() - i,
        {
            reports.push(TimerReport::new_at(i, &timers[i], now));
            i = i + 1;
        }
        TimersReport { timers: reports, now: wall }
    }

    /// The report on `timers`, each at the reading of its clock, made at the
    /// reading of the wall clock.
    pub fn new(timers: &Vec<Timer>) -> (report: TimersReport)
        ensures
            report.timers@.len() == timers@.len(),
            forall|i: int|
                0 <= i < timers@.len() ==> reports_timer(
                    (#[trigger] report.timers@[i])@,
                    i as usize,
                    timers@[i]@,
                ),
    {
        let mut reports: Vec<TimerReport> = Vec::new();
        let mut i: usize = 0;
        while i < timers.len()
            invariant
                i <= timers@.len(),
                reports@.len() == i,
                forall|j: int|
                    0 <= j < i ==> reports_timer(
                        (#[trigger] reports@[j])@,
                        j as usize,
                        timers@[j]@,
                    ),
            decreases timers@.len() - i,
        {
            reports.push(TimerReport::new(i, &timers[i]));
            i = i + 1;
        }
        TimersReport { timers: reports, now: utc_now_millis() }
    }
}

} // verus!
