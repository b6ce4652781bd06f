//! Reports how long a desktop session has been without user input.

pub mod clock;
pub mod compositor;
pub mod display;
pub mod duration;
pub mod error;
pub mod orchestrator;
pub mod provider;
pub mod sources;
pub mod tracker;
