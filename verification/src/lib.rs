pub mod batch;
pub mod cache;
pub mod cli;
pub mod clipboard;
pub mod config;
pub mod driver;
pub mod exit;
pub mod interaction;
pub mod progress;
pub mod redemption;
pub mod remote;
pub mod runner;
pub mod setup;
