pub mod camera;
pub mod color_handler;
pub mod components;
pub mod editor;
pub mod hover;
pub mod selection;
pub mod serde;
