//! Coordination core of a screen-overlay assistant: debounced window toggling,
//! a queue of captured screenshots, and the requests sent to the model providers.

pub mod gate;
pub mod visibility;
pub mod queue;
pub mod config;
pub mod chat;
pub mod escalation;
pub mod capture;
