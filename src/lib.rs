//! Rendering middleware, wire codec and input arbitration for interactive
//! programs on a small secure device that talks to its host over a
//! synchronous, frame-based channel.
pub mod time;
pub mod error;
pub mod syscall;
pub mod seproxyhal;
pub mod ui;
pub mod state;
pub mod pic;
