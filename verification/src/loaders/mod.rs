pub mod order;
pub mod forge;
pub mod neoforge;
pub mod fabric;
pub mod quilt;
pub mod vanilla;
pub mod profile;
pub mod setup;
pub mod installer;
