pub mod paths;
pub mod cache;
