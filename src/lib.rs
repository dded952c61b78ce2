//! Tracks the pressed/released state of input buttons across update cycles,
//! keeping the current state and the state as of the previous update so that
//! an update loop can detect presses and releases as they happen.

pub mod button;
pub mod controller;
pub mod laws;

pub use button::ButtonId;
pub use controller::ButtonController;
