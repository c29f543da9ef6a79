//! The frame loop of an interactive application: per-frame input snapshot,
//! event routing, frame pacing policy and the frame driver's state machine.

pub mod buttons;
pub mod dispatch;
pub mod driver;
pub mod input;
pub mod pacer;
pub mod resolution;
pub mod startup;
