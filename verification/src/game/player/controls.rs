pub mod controls;
pub mod phase;
pub mod raycast;
pub mod web_connections;
