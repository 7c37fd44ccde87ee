pub mod camera;
pub mod components;
pub mod controls;
pub mod respawn_message;
pub mod spawn;
