//! Keyboard bridge: turns key events or terminal bytes into USB HID keyboard
//! reports, frames them for a serial link, reassembles them on the far side
//! and schedules their delivery.

pub mod ansi;
pub mod codec;
pub mod host;
pub mod keymap;
pub mod keyset;
pub mod modifier;
pub mod queue;
pub mod reassembler;
pub mod report;
pub mod scheduler;
