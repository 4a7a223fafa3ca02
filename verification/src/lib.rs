//! Time-stepped one-time codes for a set of registered secrets, together with
//! the state that keeps them fresh: the account registry, the refresh
//! scheduler with its countdown, the tick pacing and the key-driven menu.

pub mod engine;
pub mod intent;
pub mod menu;
pub mod pacing;
pub mod registry;
pub mod scheduler;
pub mod session;
pub mod text;
pub mod totp;
