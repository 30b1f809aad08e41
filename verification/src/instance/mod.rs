pub mod config;
pub mod manager;
pub mod export;
