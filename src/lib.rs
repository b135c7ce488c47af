//! Frame-loop lifecycle of a window that hosts an immediate-mode GUI overlay.
//!
//! The library decides; the caller acts. Each operation of the loop (poll
//! events, begin a frame, acquire the overlay frame, render) updates a
//! [`window::Window`] state machine and returns the steps that the caller must take
//! with the windowing, GUI and GPU libraries.

pub mod events;
pub mod init;
pub mod laws;
pub mod window;
