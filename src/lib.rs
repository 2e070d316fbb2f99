//! Decision logic of a small real-time renderer: choosing the graphics
//! adapter and swapchain size at start-up, and the per-frame state machine
//! that drives acquire, record, submit and present.
//!
//! The graphics device and the window system are outside this crate. A host
//! program performs each requested action and feeds the outcome back in as
//! an input value.
pub mod frame_loop;
pub mod laws;
pub mod setup;
