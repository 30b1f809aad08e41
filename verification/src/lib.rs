pub mod account;
pub mod config;
pub mod content;
pub mod copy;
pub mod downloads;
pub mod error;
pub mod ids;
pub mod instance;
pub mod java;
pub mod loaders;
pub mod minecraft;
pub mod nexeu;
pub mod operations;
pub mod pages;
pub mod modrinth;
pub mod storage;
pub mod text;
pub mod updater;
