pub mod config;
pub mod offline;
pub mod settings;
