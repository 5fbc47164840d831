//! Frame-exact scripted control of a running game: script lines and their
//! frame references, the scheduler that walks the script one tick at a time,
//! the frame barrier shared with the target, the frame-rate override of the
//! target's timing record, the virtual gamepad, and the per-game capability
//! table with the writes that switch the patches on and off.
pub mod bytes;
pub mod text;
pub mod input;
pub mod gamepad;
pub mod actions;
pub mod script;
pub mod scheduler;
pub mod barrier;
pub mod fps;
pub mod games;
pub mod session;
pub mod mem;
