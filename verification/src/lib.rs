pub mod chunks;
pub mod cost;
pub mod json;
pub mod locator;
pub mod probe;
pub mod runner;
pub mod settings;
pub mod text;
pub mod video;
