//! Control-plane bridge between a publish/subscribe message bus and a cloud
//! robot API: topic addressing, the request-signing protocol, the robot
//! registry, the throttled state-refresh coordinator, the single-slot command
//! mailbox, and the command-relay decision logic.

pub mod json;
pub mod mqtt;
pub mod neato;
pub mod neato_types;
pub mod settings;
