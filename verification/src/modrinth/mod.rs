pub mod models;
pub mod dependencies;
pub mod search;
pub mod install;
pub mod modpack;
pub mod api;
pub mod updates;
pub mod resolve;
