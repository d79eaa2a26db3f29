use ninja_timer::clock::Clock;
use ninja_timer::error::Error;
use ninja_timer::info::Info;
use ninja_timer::settings::Settings;
use ninja_timer::state::{InputEvent, Outcome, OutputEvent, StateManager};
use ninja_timer::timer::{Timer, TimerState};
use std::sync::mpsc::{channel, Receiver};

const MS: u128 = 1_000_000;
const SEC: u128 = 1_000_000_000;

fn settings() -> Settings {
    Settings {
        countdown: 3,
        show_debug: false,
        fullscreen: true,
    }
}

fn info(displays: usize) -> Info {
    Info {
        ips: vec![String::from("192.168.1.23")],
        number_displays: displays,
    }
}

fn manager(displays: usize) -> (StateManager, Receiver<OutputEvent>) {
    let mut manager = StateManager::new_at(settings(), info(displays), Clock::new(), 0);
    let (sender, receiver) = channel();
    manager.add_listener(sender);
    (manager, receiver)
}

fn quiet() -> Result<Outcome, Error> {
    Ok(Outcome {
        persist: false,
        undelivered: vec![],
    })
}

fn saved() -> Result<Outcome, Error> {
    Ok(Outcome {
        persist: true,
        undelivered: vec![],
    })
}

fn take_timers(receiver: &Receiver<OutputEvent>) -> Vec<Timer> {
    match receiver.try_recv() {
        Ok(OutputEvent::SyncTimers(timers)) => timers,
        other => panic!("expected the timers, got {:?}", other),
    }
}

fn take_settings(receiver: &Receiver<OutputEvent>) -> Settings {
    match receiver.try_recv() {
        Ok(OutputEvent::SyncSettings(settings)) => settings,
        other => panic!("expected the settings, got {:?}", other),
    }
}

fn take_info(receiver: &Receiver<OutputEvent>) -> Info {
    match receiver.try_recv() {
        Ok(OutputEvent::SyncInfo(info)) => info,
        other => panic!("expected the information, got {:?}", other),
    }
}

fn nothing_left(receiver: &Receiver<OutputEvent>) {
    assert!(receiver.try_recv().is_err());
}

fn states(timers: &[Timer], now: u128) -> Vec<TimerState> {
    timers.iter().map(|timer| timer.get_state_at(now)).collect()
}

#[test]
fn new_manager_has_one_reset_timer_per_display() {
    let manager = StateManager::new_at(settings(), info(2), Clock::new(), 5 * SEC);
    assert_eq!(manager.timers().len(), 2);
    assert_eq!(
        states(manager.timers(), 9 * SEC),
        vec![TimerState::Reset, TimerState::Reset]
    );
    assert_eq!(manager.timers()[0].countdown_seconds(), 3);
    assert_eq!(manager.timers()[1].countdown_seconds(), 3);
    assert_eq!(manager.settings(), settings());
    assert_eq!(manager.info().number_displays, 2);
    assert_eq!(manager.info().ips, vec!["192.168.1.23"]);
    assert!(manager.display_visible());
    assert_eq!(manager.listener_count(), 0);
}

#[test]
fn sync_all_publishes_timers_settings_and_information() {
    let (mut manager, receiver) = manager(2);
    assert_eq!(manager.sync_all(), Vec::<usize>::new());
    assert_eq!(take_timers(&receiver).len(), 2);
    assert_eq!(take_settings(&receiver), settings());
    let info = take_info(&receiver);
    assert_eq!(info.number_displays, 2);
    assert_eq!(info.ips, vec!["192.168.1.23"]);
    nothing_left(&receiver);
}

#[test]
fn request_sync_publishes_the_full_snapshot() {
    let (mut manager, receiver) = manager(1);
    assert_eq!(manager.process_at(InputEvent::RequestSync, 0, 0), quiet());
    assert_eq!(take_timers(&receiver).len(), 1);
    assert_eq!(take_settings(&receiver), settings());
    assert_eq!(take_info(&receiver).number_displays, 1);
    nothing_left(&receiver);
}

#[test]
fn start_is_refused_during_the_cooldown() {
    let (mut manager, receiver) = manager(2);
    assert_eq!(manager.process_at(InputEvent::StartTimers, 500 * MS, 1), quiet());
    nothing_left(&receiver);
    assert_eq!(manager.process_at(InputEvent::StartTimers, SEC - 1, 1), quiet());
    nothing_left(&receiver);
    assert_eq!(
        states(manager.timers(), SEC),
        vec![TimerState::Reset, TimerState::Reset]
    );
}

#[test]
fn start_starts_every_timer_after_the_cooldown() {
    let (mut manager, receiver) = manager(2);
    assert_eq!(manager.process_at(InputEvent::StartTimers, SEC, 77), quiet());
    let timers = take_timers(&receiver);
    nothing_left(&receiver);
    assert_eq!(timers.len(), 2);
    for timer in &timers {
        assert_eq!(timer.started_at(), Some(SEC));
        assert_eq!(timer.started_at_datetime(), Some(77));
        assert_eq!(timer.get_state_at(SEC), TimerState::CountingDown);
        assert_eq!(timer.get_state_at(4 * SEC), TimerState::Running);
    }
    assert_eq!(
        states(manager.timers(), 2 * SEC),
        vec![TimerState::CountingDown, TimerState::CountingDown]
    );
}

#[test]
fn start_while_started_resets_only_beyond_the_ceiling() {
    let (mut manager, receiver) = manager(2);
    manager.process_at(InputEvent::StartTimers, SEC, 0).unwrap();
    take_timers(&receiver);
    assert_eq!(manager.process_at(InputEvent::StartTimers, SEC + 500 * MS, 0), quiet());
    assert_eq!(manager.process_at(InputEvent::StartTimers, 2 * SEC, 0), quiet());
    nothing_left(&receiver);
    assert_eq!(manager.timers()[0].started_at(), Some(SEC));
    assert_eq!(manager.process_at(InputEvent::StartTimers, 2 * SEC + 1, 0), quiet());
    let timers = take_timers(&receiver);
    nothing_left(&receiver);
    assert_eq!(
        states(&timers, 2 * SEC + 1),
        vec![TimerState::Reset, TimerState::Reset]
    );
    assert_eq!(
        states(manager.timers(), 2 * SEC + 1),
        vec![TimerState::Reset, TimerState::Reset]
    );
}

#[test]
fn start_after_an_automatic_reset_waits_for_the_cooldown() {
    let (mut manager, receiver) = manager(1);
    manager.process_at(InputEvent::StartTimers, SEC, 0).unwrap();
    manager.process_at(InputEvent::StartTimers, 10 * SEC, 0).unwrap();
    take_timers(&receiver);
    take_timers(&receiver);
    assert_eq!(manager.timers()[0].get_state_at(10 * SEC), TimerState::Reset);
    assert_eq!(manager.process_at(InputEvent::StartTimers, 10 * SEC + 999 * MS, 0), quiet());
    nothing_left(&receiver);
    assert_eq!(manager.timers()[0].get_state_at(11 * SEC), TimerState::Reset);
    assert_eq!(manager.process_at(InputEvent::StartTimers, 11 * SEC, 0), quiet());
    assert_eq!(take_timers(&receiver)[0].started_at(), Some(11 * SEC));
}

#[test]
fn start_after_reset_all_needs_no_cooldown() {
    let (mut manager, receiver) = manager(1);
    manager.process_at(InputEvent::StartTimers, 5 * SEC, 0).unwrap();
    manager.process_at(InputEvent::ResetTimers, 6 * SEC, 0).unwrap();
    assert_eq!(manager.process_at(InputEvent::StartTimers, 6 * SEC + 1, 0), quiet());
    take_timers(&receiver);
    take_timers(&receiver);
    assert_eq!(take_timers(&receiver)[0].started_at(), Some(6 * SEC + 1));
}

#[test]
fn start_without_a_timer_fails() {
    let (mut manager, receiver) = manager(0);
    assert_eq!(
        manager.process_at(InputEvent::StartTimers, 5 * SEC, 0),
        Err(Error::IndexOutOfRange(0))
    );
    nothing_left(&receiver);
}

#[test]
fn start_goes_by_the_first_timer() {
    let (mut manager, receiver) = manager(2);
    manager.process_at(InputEvent::StartTimers, SEC, 0).unwrap();
    manager.process_at(InputEvent::StopTimer(0), 5 * SEC, 0).unwrap();
    take_timers(&receiver);
    take_timers(&receiver);
    assert_eq!(manager.process_at(InputEvent::StartTimers, 6 * SEC, 0), quiet());
    assert_eq!(
        states(&take_timers(&receiver), 6 * SEC),
        vec![TimerState::Reset, TimerState::Reset]
    );
}

#[test]
fn stop_one_stops_a_running_timer() {
    let (mut manager, receiver) = manager(2);
    manager.process_at(InputEvent::StartTimers, SEC, 0).unwrap();
    take_timers(&receiver);
    assert_eq!(manager.process_at(InputEvent::StopTimer(1), 5 * SEC, 42), quiet());
    let timers = take_timers(&receiver);
    nothing_left(&receiver);
    assert_eq!(
        states(&timers, 6 * SEC),
        vec![TimerState::Running, TimerState::Stopped]
    );
    assert_eq!(timers[1].stopped_at(), Some(5 * SEC));
    assert_eq!(timers[1].stopped_at_datetime(), Some(42));
    assert_eq!(timers[1].format_at(9 * SEC), "00:01.000");
    assert_eq!(timers[0].stopped_at(), None);
}

#[test]
fn stop_one_fails_on_a_bad_index() {
    let (mut manager, receiver) = manager(2);
    manager.process_at(InputEvent::StartTimers, SEC, 0).unwrap();
    take_timers(&receiver);
    assert_eq!(
        manager.process_at(InputEvent::StopTimer(2), 5 * SEC, 0),
        Err(Error::IndexOutOfRange(2))
    );
    assert_eq!(
        manager.process_at(InputEvent::StopTimer(usize::MAX), 5 * SEC, 0),
        Err(Error::IndexOutOfRange(usize::MAX))
    );
    nothing_left(&receiver);
    assert_eq!(
        states(manager.timers(), 5 * SEC),
        vec![TimerState::Running, TimerState::Running]
    );
}

#[test]
fn stop_one_fails_unless_running() {
    let (mut manager, receiver) = manager(1);
    assert_eq!(
        manager.process_at(InputEvent::StopTimer(0), 5 * SEC, 0),
        Err(Error::InvalidTransition(TimerState::Reset))
    );
    manager.process_at(InputEvent::StartTimers, 6 * SEC, 0).unwrap();
    take_timers(&receiver);
    assert_eq!(
        manager.process_at(InputEvent::StopTimer(0), 7 * SEC, 0),
        Err(Error::InvalidTransition(TimerState::CountingDown))
    );
    nothing_left(&receiver);
    manager.process_at(InputEvent::StopTimer(0), 10 * SEC, 0).unwrap();
    take_timers(&receiver);
    assert_eq!(
        manager.process_at(InputEvent::StopTimer(0), 11 * SEC, 0),
        Err(Error::InvalidTransition(TimerState::Stopped))
    );
    nothing_left(&receiver);
    assert_eq!(manager.timers()[0].stopped_at(), Some(10 * SEC));
}

#[test]
fn stop_all_stops_the_running_timers_and_leaves_the_others() {
    let (mut manager, receiver) = manager(3);
    manager.process_at(InputEvent::StartTimers, SEC, 0).unwrap();
    manager.process_at(InputEvent::StopTimer(1), 5 * SEC, 0).unwrap();
    take_timers(&receiver);
    take_timers(&receiver);
    assert_eq!(manager.process_at(InputEvent::StopTimers, 6 * SEC, 0), quiet());
    let timers = take_timers(&receiver);
    assert_eq!(
        states(&timers, 7 * SEC),
        vec![TimerState::Stopped, TimerState::Stopped, TimerState::Stopped]
    );
    assert_eq!(timers[0].stopped_at(), Some(6 * SEC));
    assert_eq!(timers[1].stopped_at(), Some(5 * SEC));
    assert_eq!(timers[2].stopped_at(), Some(6 * SEC));
}

#[test]
fn stop_all_during_the_countdown_changes_nothing_but_publishes() {
    let (mut manager, receiver) = manager(2);
    manager.process_at(InputEvent::StartTimers, SEC, 0).unwrap();
    take_timers(&receiver);
    assert_eq!(manager.process_at(InputEvent::StopTimers, 2 * SEC, 0), quiet());
    let timers = take_timers(&receiver);
    assert_eq!(
        states(&timers, 2 * SEC),
        vec![TimerState::CountingDown, TimerState::CountingDown]
    );
    assert_eq!(timers[0].stopped_at(), None);
}

#[test]
fn reset_all_resets_every_timer() {
    let (mut manager, receiver) = manager(2);
    manager.process_at(InputEvent::StartTimers, SEC, 0).unwrap();
    manager.process_at(InputEvent::StopTimer(0), 5 * SEC, 0).unwrap();
    take_timers(&receiver);
    take_timers(&receiver);
    assert_eq!(manager.process_at(InputEvent::ResetTimers, 5 * SEC, 0), quiet());
    assert_eq!(
        states(&take_timers(&receiver), 5 * SEC),
        vec![TimerState::Reset, TimerState::Reset]
    );
    nothing_left(&receiver);
}

#[test]
fn button_one_and_two_stop_their_timers() {
    let (mut manager, receiver) = manager(2);
    manager.process_at(InputEvent::StartTimers, SEC, 0).unwrap();
    take_timers(&receiver);
    assert_eq!(manager.process_at(InputEvent::SetButtonState(2, true), 5 * SEC, 0), quiet());
    assert_eq!(
        states(&take_timers(&receiver), 5 * SEC),
        vec![TimerState::Running, TimerState::Stopped]
    );
    assert_eq!(manager.process_at(InputEvent::SetButtonState(1, true), 6 * SEC, 0), quiet());
    assert_eq!(
        states(&take_timers(&receiver), 6 * SEC),
        vec![TimerState::Stopped, TimerState::Stopped]
    );
    assert_eq!(manager.process_at(InputEvent::SetButtonState(1, true), 7 * SEC, 0), quiet());
    nothing_left(&receiver);
    assert_eq!(manager.timers()[0].stopped_at(), Some(6 * SEC));
}

#[test]
fn button_release_does_nothing() {
    let (mut manager, receiver) = manager(2);
    manager.process_at(InputEvent::StartTimers, SEC, 0).unwrap();
    take_timers(&receiver);
    assert_eq!(manager.process_at(InputEvent::SetButtonState(1, false), 5 * SEC, 0), quiet());
    assert_eq!(manager.process_at(InputEvent::SetButtonState(2, false), 5 * SEC, 0), quiet());
    assert_eq!(manager.process_at(InputEvent::SetButtonState(9, false), 5 * SEC, 0), quiet());
    nothing_left(&receiver);
    assert_eq!(
        states(manager.timers(), 5 * SEC),
        vec![TimerState::Running, TimerState::Running]
    );
    assert!(!manager.settings().show_debug);
}

#[test]
fn button_two_without_a_second_timer_fails() {
    let (mut manager, receiver) = manager(1);
    manager.process_at(InputEvent::StartTimers, SEC, 0).unwrap();
    take_timers(&receiver);
    assert_eq!(
        manager.process_at(InputEvent::SetButtonState(2, true), 5 * SEC, 0),
        Err(Error::IndexOutOfRange(1))
    );
    nothing_left(&receiver);
}

#[test]
fn unmapped_buttons_do_nothing() {
    let (mut manager, receiver) = manager(2);
    manager.process_at(InputEvent::StartTimers, SEC, 0).unwrap();
    take_timers(&receiver);
    for button in [0u8, 3, 4, 8, 10, 255] {
        assert_eq!(
            manager.process_at(InputEvent::SetButtonState(button, true), 5 * SEC, 0),
            quiet()
        );
    }
    nothing_left(&receiver);
}

#[test]
fn debug_button_toggles_with_a_minimum_interval() {
    let (mut manager, receiver) = manager(1);
    assert_eq!(manager.process_at(InputEvent::SetButtonState(9, true), 500 * MS, 0), quiet());
    nothing_left(&receiver);
    assert_eq!(manager.process_at(InputEvent::SetButtonState(9, true), 500 * MS + 1, 0), saved());
    assert!(take_settings(&receiver).show_debug);
    assert!(manager.settings().show_debug);
    assert_eq!(manager.process_at(InputEvent::SetButtonState(9, true), 600 * MS, 0), quiet());
    assert_eq!(manager.process_at(InputEvent::SetButtonState(9, true), 1_000 * MS + 1, 0), quiet());
    nothing_left(&receiver);
    assert_eq!(manager.process_at(InputEvent::SetButtonState(9, true), 1_000 * MS + 2, 0), saved());
    assert!(!take_settings(&receiver).show_debug);
    nothing_left(&receiver);
}

#[test]
fn set_debug_publishes_and_asks_to_save() {
    let (mut manager, receiver) = manager(1);
    assert_eq!(manager.process_at(InputEvent::SetDebug(true), 0, 0), saved());
    assert_eq!(
        take_settings(&receiver),
        Settings {
            countdown: 3,
            show_debug: true,
            fullscreen: true
        }
    );
    assert_eq!(manager.process_at(InputEvent::SetDebug(true), 0, 0), saved());
    assert!(take_settings(&receiver).show_debug);
    assert_eq!(manager.process_at(InputEvent::SetDebug(false), 0, 0), saved());
    assert!(!take_settings(&receiver).show_debug);
    nothing_left(&receiver);
}

#[test]
fn toggle_debug_flips_the_overlay() {
    let (mut manager, receiver) = manager(1);
    assert_eq!(manager.process_at(InputEvent::ToggleDebug, 0, 0), saved());
    assert!(take_settings(&receiver).show_debug);
    assert_eq!(manager.process_at(InputEvent::ToggleDebug, 1, 0), saved());
    assert!(!take_settings(&receiver).show_debug);
    nothing_left(&receiver);
}

#[test]
fn set_countdown_replaces_the_timers() {
    let (mut manager, receiver) = manager(2);
    manager.process_at(InputEvent::StartTimers, SEC, 0).unwrap();
    take_timers(&receiver);
    assert_eq!(manager.process_at(InputEvent::SetCountdown(5), 2 * SEC, 0), saved());
    assert_eq!(
        take_settings(&receiver),
        Settings {
            countdown: 5,
            show_debug: false,
            fullscreen: true
        }
    );
    let timers = take_timers(&receiver);
    nothing_left(&receiver);
    assert_eq!(timers.len(), 2);
    for timer in &timers {
        assert_eq!(timer.get_state_at(2 * SEC), TimerState::Reset);
        assert_eq!(timer.countdown_seconds(), 5);
    }
    assert_eq!(manager.settings().countdown, 5);
    assert_eq!(manager.timers()[1].countdown_seconds(), 5);
}

#[test]
fn reload_background_is_passed_on() {
    let (mut manager, receiver) = manager(1);
    assert_eq!(manager.process_at(InputEvent::ReloadBackground, 0, 0), quiet());
    assert!(matches!(
        receiver.try_recv(),
        Ok(OutputEvent::ReloadBackground)
    ));
    nothing_left(&receiver);
}

#[test]
fn toggle_display_hides_and_shows() {
    let (mut manager, receiver) = manager(1);
    assert_eq!(manager.process_at(InputEvent::ToggleDisplay, 0, 0), quiet());
    assert!(matches!(
        receiver.try_recv(),
        Ok(OutputEvent::SetDisplay(false))
    ));
    assert!(!manager.display_visible());
    assert_eq!(manager.process_at(InputEvent::ToggleDisplay, 0, 0), quiet());
    assert!(matches!(
        receiver.try_recv(),
        Ok(OutputEvent::SetDisplay(true))
    ));
    assert!(manager.display_visible());
    nothing_left(&receiver);
}

fn kinds(receiver: &Receiver<OutputEvent>) -> Vec<&'static str> {
    let mut kinds = Vec::new();
    while let Ok(event) = receiver.try_recv() {
        kinds.push(match event {
            OutputEvent::SyncTimers(_) => "timers",
            OutputEvent::SyncSettings(_) => "settings",
            OutputEvent::SyncInfo(_) => "info",
            OutputEvent::ReloadBackground => "background",
            OutputEvent::SetDisplay(_) => "display",
        });
    }
    kinds
}

#[test]
fn every_listener_sees_the_events_in_the_order_of_the_commands() {
    let mut manager = StateManager::new_at(settings(), info(2), Clock::new(), 0);
    let (first_sender, first) = channel();
    let (second_sender, second) = channel();
    manager.add_listener(first_sender);
    manager.add_listener(second_sender);
    assert_eq!(manager.listener_count(), 2);
    manager.process_at(InputEvent::SetCountdown(4), 0, 0).unwrap();
    manager.process_at(InputEvent::ToggleDisplay, 1, 0).unwrap();
    manager.process_at(InputEvent::RequestSync, 2, 0).unwrap();
    manager.process_at(InputEvent::ReloadBackground, 3, 0).unwrap();
    let expected = vec![
        "settings",
        "timers",
        "display",
        "timers",
        "settings",
        "info",
        "background",
    ];
    assert_eq!(kinds(&first), expected);
    assert_eq!(kinds(&second), expected);
}

#[test]
fn listener_that_never_drains_holds_nobody_up() {
    let mut manager = StateManager::new_at(settings(), info(1), Clock::new(), 0);
    let (idle_sender, idle) = channel();
    let (busy_sender, busy) = channel();
    manager.add_listener(idle_sender);
    manager.add_listener(busy_sender);
    for round in 0..1_000u128 {
        assert_eq!(manager.process_at(InputEvent::ToggleDisplay, round, 0), quiet());
        assert!(matches!(busy.try_recv(), Ok(OutputEvent::SetDisplay(_))));
    }
    assert_eq!(kinds(&idle).len(), 1_000);
}

#[test]
fn listener_that_is_gone_is_counted_and_passed_over() {
    let mut manager = StateManager::new_at(settings(), info(1), Clock::new(), 0);
    let (gone_sender, gone) = channel();
    let (alive_sender, alive) = channel();
    manager.add_listener(gone_sender);
    manager.add_listener(alive_sender);
    drop(gone);
    assert_eq!(
        manager.process_at(InputEvent::ToggleDisplay, 0, 0),
        Ok(Outcome {
            persist: false,
            undelivered: vec![0]
        })
    );
    assert_eq!(kinds(&alive), vec!["display"]);
    assert_eq!(
        manager.process_at(InputEvent::SetCountdown(9), 0, 0),
        Ok(Outcome {
            persist: true,
            undelivered: vec![0, 0]
        })
    );
    assert_eq!(kinds(&alive), vec!["settings", "timers"]);
    assert_eq!(manager.sync_all(), vec![0, 0, 0]);
    assert_eq!(kinds(&alive), vec!["timers", "settings", "info"]);
    assert_eq!(manager.listener_count(), 2);
}

#[test]
fn listener_gets_only_what_is_published_after_it_joined() {
    let (mut manager, early) = manager(1);
    manager.process_at(InputEvent::ToggleDisplay, 0, 0).unwrap();
    let (late_sender, late) = channel();
    manager.add_listener(late_sender);
    manager.process_at(InputEvent::ReloadBackground, 0, 0).unwrap();
    assert_eq!(kinds(&early), vec!["display", "background"]);
    assert_eq!(kinds(&late), vec!["background"]);
}

#[test]
fn manager_without_listeners_processes_commands() {
    let mut manager = StateManager::new_at(settings(), info(1), Clock::new(), 0);
    assert_eq!(manager.process_at(InputEvent::StartTimers, 2 * SEC, 0), quiet());
    assert_eq!(manager.timers()[0].started_at(), Some(2 * SEC));
    assert_eq!(manager.sync_all(), Vec::<usize>::new());
}

#[test]
fn dropped_command_does_not_stop_the_reducer() {
    let (mut manager, receiver) = manager(1);
    assert!(manager.process_at(InputEvent::StopTimer(7), 0, 0).is_err());
    assert!(manager.process_at(InputEvent::StopTimer(0), 0, 0).is_err());
    assert_eq!(manager.process_at(InputEvent::StartTimers, 2 * SEC, 0), quiet());
    assert_eq!(kinds(&receiver), vec!["timers"]);
}

#[test]
fn manager_reads_its_clocks() {
    let mut manager = StateManager::new(settings(), info(2));
    let (sender, receiver) = channel();
    manager.add_listener(sender);
    assert_eq!(manager.process(InputEvent::RequestSync), quiet());
    assert_eq!(kinds(&receiver), vec!["timers", "settings", "info"]);
    assert_eq!(manager.process(InputEvent::StartTimers), quiet());
    nothing_left(&receiver);
    assert_eq!(manager.process(InputEvent::SetCountdown(0)), saved());
    assert_eq!(kinds(&receiver), vec!["settings", "timers"]);
    assert_eq!(
        manager.process(InputEvent::StopTimer(0)),
        Err(Error::InvalidTransition(TimerState::Reset))
    );
    assert_eq!(
        manager.process(InputEvent::StopTimer(2)),
        Err(Error::IndexOutOfRange(2))
    );
    assert_eq!(manager.timers()[0].get_state(), TimerState::Reset);
}

#[test]
fn published_timers_read_the_clock_of_the_manager() {
    let clock = Clock::new();
    let mut manager = StateManager::new_at(settings(), info(1), clock, 0);
    let (sender, receiver) = channel();
    manager.add_listener(sender);
    manager.process_at(InputEvent::SetCountdown(0), 0, 0).unwrap();
    manager.process_at(InputEvent::StartTimers, SEC, 0).unwrap();
    take_settings(&receiver);
    take_timers(&receiver);
    let timers = take_timers(&receiver);
    assert_eq!(timers[0].started_at(), Some(SEC));
    assert!(matches!(
        timers[0].get_state(),
        TimerState::CountingDown | TimerState::Running
    ));
    assert!(timers[0].as_millis() >= 0);
}

#[test]
fn default_settings_are_those_of_a_first_run() {
    assert_eq!(
        Settings::default(),
        Settings {
            countdown: 3,
            show_debug: false,
            fullscreen: true
        }
    );
}
