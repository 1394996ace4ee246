pub mod heartbeat;
pub mod identify;
