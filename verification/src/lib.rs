//! Black-box testing of interactive terminal programs: expected screens,
//! screen diffing, key encoding and the wait-for-state protocol.

pub mod commands;
pub mod config;
pub mod diff;
pub mod emulator;
pub mod engine;
pub mod error;
pub mod event;
pub mod report;
pub mod screen;
pub mod term;
pub mod text;
pub mod wait;

pub use commands::{AsAnsi, Code};
pub use diff::{Change, ScreenDiff};
pub use engine::PtyTest;
pub use error::Error;
pub use screen::{AsciiScreen, AsciiScreenFragment};
pub use term::SizeInfo;
