//! Coordination core of a countdown-timer appliance: the timer state machine,
//! debounced button input, and the reducer that serialises commands and fans
//! snapshots out to listeners.

pub mod clock;
pub mod display;
pub mod error;
pub mod fanout;
pub mod gpio;
pub mod info;
pub mod input;
pub mod parse;
pub mod report;
pub mod settings;
pub mod state;
pub mod text;
pub mod timer;
