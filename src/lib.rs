//! Records presses of one monitored key from a stream of input events, as
//! CSV lines with a lag-corrected timestamp.

pub mod access;
pub mod event;
pub mod laws;
pub mod line;
pub mod reporter;

pub use access::{access_mode, AccessMode};
pub use event::{adjusted_time, is_reported, InputEvent, KeyState, TARGET_KEY, TIME_CORRECTION};
pub use line::{header_line, row_line};
pub use reporter::{event_line, Command, Phase, Reaction, Reporter, Signal};
