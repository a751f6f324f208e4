//! Core of a small terminal application: a state machine that reacts to key
//! presses and timer ticks, and a ticker that produces the tick values.
//!
//! The surrounding program (terminal setup, the async event loop, rendering)
//! lives outside this library; this crate holds the decisions the loop makes
//! and proves what each one does to the application state.

pub mod app;
pub mod digits;
pub mod events;
pub mod ticker;

pub use app::App;
