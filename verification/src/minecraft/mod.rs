pub mod arguments;
pub mod libraries;
pub mod manifest;
pub mod rules;
pub mod version;
pub mod launcher;
pub mod crash;
pub mod assets;
pub mod installer;
pub mod natives;
pub mod install_plan;
pub mod play;
pub mod validate;
