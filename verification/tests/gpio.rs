use ninja_timer::clock::Clock;
use ninja_timer::gpio::{
    ButtonBoard, CringeEvt, EvtType, BUZZER_BUTTON, BUZZER_PIN, DEBOUNCE_DURATION, DEBUG_PIN,
    DISPLAY_PIN, POWER_PIN,
};
use ninja_timer::input::Level;
use ninja_timer::state::InputEvent;

const MS: u128 = 1_000_000;

#[test]
fn pins_and_window_are_those_of_the_appliance() {
    assert_eq!(BUZZER_PIN, 17);
    assert_eq!(DEBUG_PIN, 27);
    assert_eq!(DISPLAY_PIN, 22);
    assert_eq!(POWER_PIN, 23);
    assert_eq!(DEBOUNCE_DURATION, 50 * MS);
    assert_eq!(BUZZER_BUTTON, 1);
}

#[test]
fn buzzer_reports_every_change_at_once() {
    let mut board = ButtonBoard::with_clock(Clock::new());
    assert_eq!(board.poll_at(0), vec![]);
    board.observe_at(BUZZER_PIN, Level::Low, 10);
    assert_eq!(
        board.poll_at(10),
        vec![InputEvent::SetButtonState(1, true)]
    );
    assert_eq!(board.poll_at(11), vec![]);
    board.observe_at(BUZZER_PIN, Level::High, 20);
    assert_eq!(
        board.poll_at(20),
        vec![InputEvent::SetButtonState(1, false)]
    );
    assert_eq!(board.poll_at(30), vec![]);
}

#[test]
fn toggle_buttons_are_debounced_and_act_on_the_rising_edge() {
    let mut board = ButtonBoard::with_clock(Clock::new());
    board.observe_at(DEBUG_PIN, Level::High, 100 * MS);
    assert_eq!(board.poll_at(110 * MS), vec![]);
    assert_eq!(board.poll_at(149 * MS), vec![]);
    assert_eq!(board.poll_at(150 * MS), vec![InputEvent::ToggleDebug]);
    assert_eq!(board.poll_at(160 * MS), vec![]);
    board.observe_at(DEBUG_PIN, Level::Low, 300 * MS);
    assert_eq!(board.poll_at(400 * MS), vec![]);
    board.observe_at(DISPLAY_PIN, Level::High, 500 * MS);
    assert_eq!(board.poll_at(549 * MS), vec![]);
    assert_eq!(board.poll_at(550 * MS), vec![InputEvent::ToggleDisplay]);
    board.observe_at(DISPLAY_PIN, Level::Low, 600 * MS);
    assert_eq!(board.poll_at(700 * MS), vec![]);
    board.observe_at(DEBUG_PIN, Level::High, 800 * MS);
    assert_eq!(board.poll_at(900 * MS), vec![InputEvent::ToggleDebug]);
}

#[test]
fn bounce_on_a_toggle_button_gives_no_command() {
    let mut board = ButtonBoard::with_clock(Clock::new());
    board.observe_at(DEBUG_PIN, Level::Low, 0);
    assert_eq!(board.poll_at(60 * MS), vec![]);
    board.observe_at(DEBUG_PIN, Level::High, 100 * MS);
    assert_eq!(board.poll_at(110 * MS), vec![]);
    board.observe_at(DEBUG_PIN, Level::Low, 120 * MS);
    assert_eq!(board.poll_at(130 * MS), vec![]);
    assert_eq!(board.poll_at(500 * MS), vec![]);
}

#[test]
fn commands_come_in_the_order_buzzer_debug_display() {
    let mut board = ButtonBoard::with_clock(Clock::new());
    board.observe_at(DISPLAY_PIN, Level::High, 0);
    board.observe_at(DEBUG_PIN, Level::High, 1);
    board.observe_at(BUZZER_PIN, Level::Low, 2);
    assert_eq!(
        board.poll_at(60 * MS),
        vec![
            InputEvent::SetButtonState(1, true),
            InputEvent::ToggleDebug,
            InputEvent::ToggleDisplay
        ]
    );
    assert_eq!(board.poll_at(61 * MS), vec![]);
}

#[test]
fn other_pins_are_ignored() {
    let mut board = ButtonBoard::with_clock(Clock::new());
    board.observe_at(POWER_PIN, Level::High, 0);
    board.observe_at(0, Level::Low, 0);
    board.observe_at(255, Level::High, 0);
    assert_eq!(board.poll_at(1_000 * MS), vec![]);
}

#[test]
fn board_reads_its_clock() {
    let mut board = ButtonBoard::new();
    assert_eq!(board.poll(), vec![]);
    board.observe(BUZZER_PIN, Level::High);
    board.observe(DEBUG_PIN, Level::High);
    assert_eq!(board.poll(), vec![InputEvent::SetButtonState(1, false)]);
    assert_eq!(board.poll(), vec![]);
}

#[test]
fn daemon_events_stand_for_button_states() {
    let press = CringeEvt {
        io_bank_num: 2,
        event_type: EvtType::ButtonPress,
        timestamp_ms: 1234,
    };
    assert_eq!(press.command(), Some(InputEvent::SetButtonState(2, true)));
    let release = CringeEvt {
        io_bank_num: 9,
        event_type: EvtType::ButtonRelease,
        timestamp_ms: 5,
    };
    assert_eq!(
        release.command(),
        Some(InputEvent::SetButtonState(9, false))
    );
    for event_type in [
        EvtType::Overcurrent,
        EvtType::CriticalError,
        EvtType::TransportError,
    ] {
        let event = CringeEvt {
            io_bank_num: 1,
            event_type,
            timestamp_ms: 0,
        };
        assert_eq!(event.command(), None);
    }
}

#[test]
fn unreadable_message_is_a_transport_error() {
    let event = CringeEvt::transport_error();
    assert_eq!(
        event,
        CringeEvt {
            io_bank_num: 0,
            event_type: EvtType::TransportError,
            timestamp_ms: 0
        }
    );
    assert_eq!(event.command(), None);
}
