//! The decisions of the render loop: what a display shows and sounds, given
//! the snapshots that the reducer published. Drawing and playing are not
//! done here.

use crate::clock::{Clock, NANOS_PER_MILLI, NANOS_PER_SEC};
use crate::error::Error;
use crate::info::{Info, InfoView};
use crate::settings::Settings;
use crate::state::{timer_views, OutputEvent, OutputEventView};
use crate::text::{append_decimal, decimal};
use crate::timer::{Timer, TimerState, TimerView};
use std::sync::mpsc::{Receiver, TryRecvError};
use vstd::prelude::*;

verus! {

/// The time that one frame is given, in nanoseconds: a thirtieth of a
/// second, in whole milliseconds.
pub const TARGET_FRAME_DURATION: u128 = 33 * NANOS_PER_MILLI;

/// How long the buzzer sounds when a timer is stopped, in nanoseconds.
pub const BUZZER_DURATION: u128 = 2 * NANOS_PER_SEC;

/// `std::sync::mpsc::Receiver`, opaque to the verifier.
#[verifier::external_type_specification]
#[verifier::external_body]
#[verifier::reject_recursive_types(T)]
pub struct ExReceiver<T>(Receiver<T>);

/// What a look into the mailbox found.
pub enum Mail {
    /// The oldest event that was waiting.
    Event(OutputEvent),
    /// Nothing is waiting.
    Empty,
    /// Nothing is waiting and the sender is gone.
    Disconnected,
}

/// Calls `Receiver::try_recv`, which takes the oldest waiting event out of
/// the channel without waiting for one. What it finds depends on the sender,
/// so nothing is claimed of it.
#[verifier::external_body]
fn try_receive(receiver: &Receiver<OutputEvent>) -> Mail {
    match receiver.try_recv() {
        Ok(event) => Mail::Event(event),
        Err(TryRecvError::Empty) => Mail::Empty,
        Err(TryRecvError::Disconnected) => Mail::Disconnected,
    }
}

/// A colour, by its red, green and blue parts.
#[derive(Clone, Copy, Debug, PartialEq, Eq, Structural)]
pub struct Color {
    pub r: u8,
    pub g: u8,
    pub b: u8,
}

/// The colour of the timer text: red during the countdown, green once the
/// timer is stopped, white otherwise.
pub open spec fn state_color(state: TimerState) -> Color {
    match state {
        TimerState::CountingDown => Color { r: 255, g: 0, b: 0 },
        TimerState::Stopped => Color { r: 0, g: 255, b: 0 },
        _ => Color { r: 255, g: 255, b: 255 },
    }
}

/// Computes [`state_color`].
pub fn text_color(state: TimerState) -> (color: Color)
    ensures
        color == state_color(state),
{
    match state {
        TimerState::CountingDown => Color { r: 255, g: 0, b: 0 },
        TimerState::Stopped => Color { r: 0, g: 255, b: 0 },
        _ => Color { r: 255, g: 255, b: 255 },
    }
}

/// How a window fills its screen.
#[derive(Clone, Copy, Debug, PartialEq, Eq, Structural)]
pub enum Fullscreen {
    Off,
    True,
    Desktop,
}

/// The sounds of the appliance.
#[derive(Clone, Copy, Debug, PartialEq, Eq, Structural)]
pub enum Sound {
    /// The tick of each second of the countdown.
    Beep1,
    /// The signal that the countdown has ended.
    Beep2,
    /// The buzzer that answers a stop.
    Buzzer,
}

/// `millis` in whole seconds, rounded towards zero.
pub open spec fn whole_seconds(millis: int) -> int {
    if millis >= 0 {
        millis / 1000
    } else {
        -((-millis) / 1000)
    }
}

/// Whether `millis` and `other` lie in different seconds, counted towards zero.
pub fn seconds_differ(millis: i128, other: i128) -> (differ: bool)
    ensures
        differ == (whole_seconds(millis as int) != whole_seconds(other as int)),
{
    if (millis >= 0) != (other >= 0) {
        // Of two times with different signs only those within a second of
        // zero lie in the same second, the second zero.
        let near = if millis >= 0 {
            millis < 1000 && other > -1000
        } else {
            other < 1000 && millis > -1000
        };
        !near
    } else if millis >= 0 {
        millis / 1000 != other / 1000
    } else {
        let a: u128 = (-(millis + 1)) as u128 + 1;
        let b: u128 = (-(other + 1)) as u128 + 1;
        a / 1000 != b / 1000
    }
}

/// What a window remembers of the frame before, for the sounds.
#[derive(Clone, Copy, Debug, PartialEq, Eq, Structural)]
pub struct WindowData {
    /// The elapsed time of the window's timer in the frame before.
    pub last_millis: i128,
    /// The state of the window's timer in the frame before.
    pub last_state: TimerState,
}

/// Whether the countdown ended between the frame before and this one, or the
/// timer runs and the end of its countdown has not been signalled yet.
pub open spec fn countdown_ended(
    window: WindowData,
    millis: i128,
    state: TimerState,
    start_sound_played: bool,
) -> bool {
    (window.last_millis < 0 && millis >= 0) || (state == TimerState::Running
        && !start_sound_played)
}

/// The sound that the window `index` gives in a frame in which its timer
/// shows `millis` and `state`. The first window ticks when the countdown
/// enters another second and signals the end of the countdown; every window
/// sounds the buzzer when its timer went from `Running` to `Stopped`.
pub open spec fn sound_for(
    index: usize,
    window: WindowData,
    millis: i128,
    state: TimerState,
    start_sound_played: bool,
) -> Option<Sound> {
    if state == TimerState::CountingDown {
        if index == 0 && whole_seconds(millis as int) != whole_seconds(window.last_millis as int) {
            Some(Sound::Beep1)
        } else {
            None
        }
    } else if countdown_ended(window, millis, state, start_sound_played) {
        if index == 0 {
            Some(Sound::Beep2)
        } else {
            None
        }
    } else if window.last_state == TimerState::Running && state == TimerState::Stopped {
        Some(Sound::Buzzer)
    } else {
        None
    }
}

/// Whether the end of the countdown counts as signalled after the frame: it
/// does once the first window's timer runs and the signal was given, and no
/// longer when that timer is in any other state.
pub open spec fn start_sound_played_after(
    index: usize,
    window: WindowData,
    millis: i128,
    state: TimerState,
    start_sound_played: bool,
) -> bool {
    if index != 0 {
        start_sound_played
    } else if state == TimerState::Running {
        start_sound_played || countdown_ended(window, millis, state, start_sound_played)
    } else {
        false
    }
}

impl WindowData {
    /// The memory of a window that has shown nothing yet.
    pub fn new() -> (window: WindowData)
        ensures
            window == (WindowData { last_millis: 0, last_state: TimerState::Reset }),
    {
        WindowData { last_millis: 0, last_state: TimerState::Reset }
    }

    /// Decides the sound of this frame for the window `index`, and remembers
    /// the frame.
    pub fn frame_sound(
        &mut self,
        index: usize,
        millis: i128,
        state: TimerState,
        start_sound_played: &mut bool,
    ) -> (sound: Option<Sound>)
        ensures
            sound == sound_for(index, *old(self), millis, state, *old(start_sound_played)),
            *final(start_sound_played) == start_sound_played_after(
                index,
                *old(self),
                millis,
                state,
                *old(start_sound_played),
            ),
            *final(self) == (WindowData { last_millis: millis, last_state: state }),
    {
        let mut sound: Option<Sound> = None;
        if state == TimerState::CountingDown {
            if index == 0 && seconds_differ(millis, self.last_millis) {
                sound = Some(Sound::Beep1);
            }
        } else if (self.last_millis < 0 && millis >= 0) || (state == TimerState::Running
            && !*start_sound_played) {
            if index == 0 {
                sound = Some(Sound::Beep2);
                *start_sound_played = true;
            }
        } else if self.last_state == TimerState::Running && state == TimerState::Stopped {
            sound = Some(Sound::Buzzer);
        }
        if index == 0 && (state == TimerState::CountingDown || state == TimerState::Stopped
            || state == TimerState::Reset) {
            *start_sound_played = false;
        }
        self.last_millis = millis;
        self.last_state = state;
        sound
    }
}

/// What a display knows: the last snapshots that it was handed.
pub struct Display {
    receiver: Receiver<OutputEvent>,
    timers: Vec<Timer>,
    settings: Option<Settings>,
    info: Option<Info>,
    should_reload_background: bool,
    is_visible: bool,
}

/// The mathematical content of a [`Display`].
pub struct DisplayView {
    /// The timers, one per window.
    pub timers: Seq<TimerView>,
    pub settings: Option<Settings>,
    pub info: Option<InfoView>,
    /// Whether the background image is to be loaded again.
    pub should_reload_background: bool,
    /// Whether the windows are shown.
    pub is_visible: bool,
}

impl DisplayView {
    /// A display that has been handed nothing yet.
    pub open spec fn initial() -> DisplayView {
        DisplayView {
            timers: Seq::empty(),
            settings: None,
            info: None,
            should_reload_background: true,
            is_visible: true,
        }
    }

    /// The display after it was handed `event`.
    pub open spec fn applied(self, event: OutputEventView) -> DisplayView {
        match event {
            OutputEventView::SyncTimers(timers) => DisplayView { timers, ..self },
            OutputEventView::SyncSettings(settings) => DisplayView {
                settings: Some(settings),
                ..self
            },
            OutputEventView::SyncInfo(info) => DisplayView { info: Some(info), ..self },
            OutputEventView::ReloadBackground => DisplayView {
                should_reload_background: true,
                ..self
            },
            OutputEventView::SetDisplay(visible) => DisplayView { is_visible: visible, ..self },
        }
    }

    /// Whether the debug overlay is drawn: the settings are known and ask for it.
    pub open spec fn debug_enabled(self) -> bool {
        self.settings matches Some(settings) && settings.show_debug
    }

    /// Whether the window `index` is shown: the displays are visible and
    /// the window has a timer.
    pub open spec fn window_shown(self, index: usize) -> bool {
        self.is_visible && index < self.timers.len()
    }

    /// What the window is to be switched to, if anything: to fullscreen when
    /// it is not and the settings ask for it, out of fullscreen when it is
    /// and the settings do not.
    pub open spec fn fullscreen_change(self, current: Fullscreen) -> Option<Fullscreen> {
        match self.settings {
            None => None,
            Some(settings) => if current == Fullscreen::Off && settings.fullscreen {
                Some(Fullscreen::True)
            } else if current == Fullscreen::True && !settings.fullscreen {
                Some(Fullscreen::Off)
            } else {
                None
            },
        }
    }

    /// The display after the window `index` has loaded its background: once
    /// the window of the last timer has, no background is due any more.
    pub open spec fn background_loaded(self, index: usize) -> DisplayView {
        if index + 1 == self.timers.len() {
            DisplayView { should_reload_background: false, ..self }
        } else {
            self
        }
    }

    /// The first line of the debug overlay: the addresses, if the
    /// information is known.
    pub open spec fn ip_line(self) -> Seq<char> {
        "IP: "@ + match self.info {
            Some(info) => joined(info.ips, ", "@),
            None => Seq::empty(),
        }
    }
}

/// `parts` in one text, with `separator` between every two of them.
pub open spec fn joined(parts: Seq<Seq<char>>, separator: Seq<char>) -> Seq<char>
    decreases parts.len(),
{
    if parts.len() == 0 {
        Seq::empty()
    } else if parts.len() == 1 {
        parts[0]
    } else {
        joined(parts.drop_last(), separator) + separator + parts.last()
    }
}

/// The second line of the debug overlay: the frames per second, in whole
/// frames, at `frame_millis` milliseconds per frame.
pub open spec fn fps_text(frame_millis: u128) -> Seq<char> {
    "FPS: "@ + decimal((1000int / frame_millis as int) as nat)
}

/// Computes [`fps_text`].
pub fn fps_line(frame_millis: u128) -> (line: String)
    requires
        frame_millis > 0,
    ensures
        line@ == fps_text(frame_millis),
{
    let mut line = String::new();
    line.append("FPS: ");
    append_decimal(&mut line, 1000 / frame_millis);
    assert(line@ =~= fps_text(frame_millis));
    line
}

/// How long the frame loop is to sleep after a frame that took
/// `frame_duration` nanoseconds: what is left of [`TARGET_FRAME_DURATION`].
pub fn frame_padding(frame_duration: u128) -> (padding: Option<u128>)
    ensures
        frame_duration < TARGET_FRAME_DURATION ==> padding == Some(
            (TARGET_FRAME_DURATION - frame_duration) as u128,
        ),
        frame_duration >= TARGET_FRAME_DURATION ==> padding is None,
{
    if frame_duration < TARGET_FRAME_DURATION {
        Some(TARGET_FRAME_DURATION - frame_duration)
    } else {
        None
    }
}

/// The size of the timer text in a window of the given height: a third of
/// the height, the height counted modulo 65536.
pub fn font_size(height: u32) -> (size: u16)
    ensures
        size == (height % 65536) / 3,
{
    ((height % 65536) as u16) / 3
}

/// Where a text is put relative to its anchor.
#[derive(Clone, Copy, Debug, PartialEq, Eq, Structural)]
pub enum Align {
    /// The anchor is the middle of the text.
    Center,
    /// The anchor is the upper left corner of the text.
    TopLeft,
}

/// The upper left corner of a text of the given size at the anchor
/// `(x, y)`.
pub open spec fn text_corner(x: i32, y: i32, width: u32, height: u32, align: Align) -> (int, int) {
    match align {
        Align::Center => (x - width / 2, y - height / 2),
        Align::TopLeft => (x as int, y as int),
    }
}

/// Computes [`text_corner`], for a text whose corner lies within the
/// coordinates that a window can have.
pub fn place_text(x: i32, y: i32, width: u32, height: u32, align: Align) -> (corner: (i32, i32))
    requires
        i32::MIN <= text_corner(x, y, width, height, align).0,
        i32::MIN <= text_corner(x, y, width, height, align).1,
    ensures
        corner.0 == text_corner(x, y, width, height, align).0,
        corner.1 == text_corner(x, y, width, height, align).1,
{
    match align {
        Align::Center => {
            let left: i64 = x as i64 - (width / 2) as i64;
            let top: i64 = y as i64 - (height / 2) as i64;
            (left as i32, top as i32)
        },
        Align::TopLeft => (x, y),
    }
}

impl View for Display {
    type V = DisplayView;

    closed spec fn view(&self) -> DisplayView {
        DisplayView {
            timers: timer_views(self.timers@),
            settings: self.settings,
            info: match self.info {
                Some(info) => Some(info@),
                None => None,
            },
            should_reload_background: self.should_reload_background,
            is_visible: self.is_visible,
        }
    }
}

impl Display {
    /// A display that reads its snapshots from `receiver` and has been
    /// handed nothing yet.
    pub fn new(receiver: Receiver<OutputEvent>) -> (display: Display)
        ensures
            display@ == DisplayView::initial(),
    {
        let display = Display {
            receiver,
            timers: Vec::new(),
            settings: None,
            info: None,
            should_reload_background: true,
            is_visible: true,
        };
        assert(display@.timers =~= Seq::<TimerView>::empty());
        display
    }

    /// Takes `event` in.
    pub fn apply(&mut self, event: OutputEvent)
        ensures
            final(self)@ == old(self)@.applied(event@),
    {
        match event {
            OutputEvent::SyncTimers(timers) => {
                self.timers = timers;
            },
            OutputEvent::SyncSettings(settings) => {
                self.settings = Some(settings);
            },
            OutputEvent::SyncInfo(info) => {
                self.info = Some(info);
            },
            OutputEvent::ReloadBackground => {
                self.should_reload_background = true;
            },
            OutputEvent::SetDisplay(visible) => {
                self.is_visible = visible;
            },
        }
    }

    /// Takes the oldest waiting event in, if there is one, and tells whether
    /// there was. Fails when nothing is waiting and the reducer is gone.
    pub fn handle_message(&mut self) -> (result: Result<bool, Error>)
        ensures
            match result {
                Ok(true) => exists|event: OutputEventView|
                    final(self)@ == #[trigger] old(self)@.applied(event),
                Ok(false) => final(self)@ == old(self)@,
                Err(error) => error == Error::Disconnected && final(self)@ == old(self)@,
            },
    {
        let mail = try_receive(&self.receiver);
        let ghost found = mail@;
        let result = self.take_in(mail);
        proof {
            if let MailView::Event(event) = found {
                assert(self@ == old(self)@.applied(event));
            }
        }
        result
    }

    /// The timers, one per window.
    pub fn timers(&self) -> (timers: &Vec<Timer>)
        ensures
            timer_views(timers@) == self@.timers,
    {
        &self.timers
    }

    /// The settings, once they were handed in.
    pub fn settings(&self) -> (settings: Option<Settings>)
        ensures
            settings == self@.settings,
    {
        self.settings
    }

    /// Whether the windows are shown.
    pub fn is_visible(&self) -> (visible: bool)
        ensures
            visible == self@.is_visible,
    {
        self.is_visible
    }

    /// Whether the background image is to be loaded again.
    pub fn should_reload_background(&self) -> (due: bool)
        ensures
            due == self@.should_reload_background,
    {
        self.should_reload_background
    }

    /// Whether the debug overlay is drawn.
    pub fn debug_enabled(&self) -> (enabled: bool)
        ensures
            enabled == self@.debug_enabled(),
    {
        match self.settings {
            None => false,
            Some(settings) => settings.show_debug,
        }
    }

    /// Whether the window `index` is shown.
    pub fn window_shown(&self, index: usize) -> (shown: bool)
        ensures
            shown == self@.window_shown(index),
    {
        self.is_visible && index < self.timers.len()
    }

    /// What a window in the state `current` is to be switched to, if anything.
    pub fn sync_fullscreen(&self, current: Fullscreen) -> (change: Option<Fullscreen>)
        ensures
            change == self@.fullscreen_change(current),
    {
        match self.settings {
            None => None,
            Some(settings) => {
                if current == Fullscreen::Off && settings.fullscreen {
                    Some(Fullscreen::True)
                } else if current == Fullscreen::True && !settings.fullscreen {
                    Some(Fullscreen::Off)
                } else {
                    None
                }
            },
        }
    }

    /// Notes that the window `index` has loaded its background.
    pub fn background_loaded(&mut self, index: usize)
        ensures
            final(self)@ == old(self)@.background_loaded(index),
    {
        if index < self.timers.len() && index + 1 == self.timers.len() {
            self.should_reload_background = false;
        }
    }

    /// The first line of the debug overlay.
    pub fn ip_line(&self) -> (line: String)
        ensures
            line@ == self@.ip_line(),
    {
        let mut line = String::new();
        line.append("IP: ");
        if let Some(info) = &self.info {
            let ghost ips = info@.ips;
            let mut i: usize = 0;
            assert(joined(ips.subrange(0, 0), ", "@) =~= Seq::<char>::empty());
            while i < info.ips.len()
                invariant
                    i <= info.ips@.len(),
                    ips == info@.ips,
                    line@ == "IP: "@ + joined(ips.subrange(0, i as int), ", "@),
                decreases info.ips@.len() - i,
            {
                let ghost before = ips.subrange(0, i as int);
                let ghost upto = ips.subrange(0, i + 1);
                proof {
                    assert(upto.drop_last() =~= before);
                    assert(upto.last() == info.ips@[i as int]@);
                    if i == 0 {
                        assert(joined(before, ", "@) =~= Seq::<char>::empty());
                        assert(upto[0] == info.ips@[0]@);
                    }
                }
                if i > 0 {
                    line.append(", ");
                }
                line.append(info.ips[i].as_str());
                assert(line@ =~= "IP: "@ + joined(upto, ", "@));
                i = i + 1;
            }
            assert(ips.subrange(0, ips.len() as int) =~= ips);
        } else {
            assert(line@ =~= self@.ip_line());
        }
        line
    }
}

/// The mathematical content of a [`Mail`].
pub enum MailView {
    Event(OutputEventView),
    Empty,
    Disconnected,
}

impl View for Mail {
    type V = MailView;

    open spec fn view(&self) -> MailView {
        match *self {
            Mail::Event(event) => MailView::Event(event@),
            Mail::Empty => MailView::Empty,
            Mail::Disconnected => MailView::Disconnected,
        }
    }
}

impl DisplayView {
    /// The display after a look into its mailbox found `mail`: an event is
    /// taken in, anything else leaves the display as it was.
    pub open spec fn taken(self, mail: MailView) -> DisplayView {
        match mail {
            MailView::Event(event) => self.applied(event),
            _ => self,
        }
    }

    /// What a look into the mailbox that found `mail` answers: that an event
    /// was taken in, that none was waiting, or that none will ever come.
    pub open spec fn take_result(mail: MailView) -> Result<bool, Error> {
        match mail {
            MailView::Event(_) => Ok(true),
            MailView::Empty => Ok(false),
            MailView::Disconnected => Err(Error::Disconnected),
        }
    }
}

impl Display {
    /// Acts on what a look into the mailbox found: takes an event in and
    /// answers `Ok(true)`, answers `Ok(false)` when nothing was waiting, and
    /// fails with `Disconnected` when nothing was waiting and the reducer is gone.
    pub fn take_in(&mut self, mail: Mail) -> (result: Result<bool, Error>)
        ensures
            final(self)@ == old(self)@.taken(mail@),
            result == DisplayView::take_result(mail@),
    {
        match mail {
            Mail::Event(event) => {
                self.apply(event);
                Ok(true)
            },
            Mail::Empty => Ok(false),
            Mail::Disconnected => Err(Error::Disconnected),
        }
    }
}

/// The time at which a sound that plays for a while is to be cut off.
#[derive(Clone, Copy, Debug)]
pub struct Clip {
    clock: Clock,
    stop_at: Option<u128>,
}

/// The mathematical content of a [`Clip`].
pub struct ClipView {
    pub clock: Clock,
    /// When the sound is to be cut off, if it plays.
    pub stop_at: Option<u128>,
}

impl ClipView {
    /// The clip after its sound was started at `now` for `duration`
    /// nanoseconds. An end beyond the range of the clock is the end of that range.
    pub open spec fn played(self, duration: u128, now: u128) -> ClipView {
        ClipView {
            stop_at: Some(
                if now + duration > u128::MAX {
                    u128::MAX
                } else {
                    (now + duration) as u128
                },
            ),
            ..self
        }
    }

    /// Whether the sound is to be cut off at `now`.
    pub open spec fn due_at(self, now: u128) -> bool {
        self.stop_at matches Some(end) && now >= end
    }

    /// The clip after a look at `now`: a sound that was cut off plays no more.
    pub open spec fn updated(self, now: u128) -> ClipView {
        if self.due_at(now) {
            ClipView { stop_at: None, ..self }
        } else {
            self
        }
    }
}

impl View for Clip {
    type V = ClipView;

    closed spec fn view(&self) -> ClipView {
        ClipView { clock: self.clock, stop_at: self.stop_at }
    }
}

impl Clip {
    /// A clip that does not play, on a clock of its own.
    pub fn new() -> (clip: Clip)
        ensures
            clip@.stop_at is None,
    {
        Clip { clock: Clock::new(), stop_at: None }
    }

    /// Notes that the sound was started at `now` for `duration` nanoseconds.
    pub fn play_duration_at(&mut self, duration: u128, now: u128)
        ensures
            final(self)@ == old(self)@.played(duration, now),
    {
        self.stop_at = Some(now.saturating_add(duration));
    }

    /// Tells whether the sound is to be cut off at `now`, and forgets it if so.
    pub fn update_at(&mut self, now: u128) -> (halt: bool)
        ensures
            halt == old(self)@.due_at(now),
            final(self)@ == old(self)@.updated(now),
    {
        match self.stop_at {
            Some(end) => {
                if now >= end {
                    self.stop_at = None;
                    true
                } else {
                    false
                }
            },
            None => false,
        }
    }

    /// Notes that the sound was started now for `duration` nanoseconds.
    pub fn play_duration(&mut self, duration: u128)
        ensures
            exists|now: u128| final(self)@ == #[trigger] old(self)@.played(duration, now),
    {
        let now = self.clock.now();
        self.play_duration_at(duration, now);
    }

    /// Tells whether the sound is to be cut off now, and forgets it if so.
    pub fn update(&mut self) -> (halt: bool)
        ensures
            exists|now: u128|
                halt == #[trigger] old(self)@.due_at(now) && final(self)@ == old(self)@.updated(
                    now,
                ),
    {
        let now = self.clock.now();
        self.update_at(now)
    }
}

} // verus!
