//! Verified core logic of the pico2hubris firmware tasks.

pub mod board;
pub mod decimal;
pub mod ping;
pub mod pong;
pub mod heartbeat;
pub mod fade;
pub mod uptime;
pub mod spin;
