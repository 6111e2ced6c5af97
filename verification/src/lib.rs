pub mod text;
pub mod tabs;
pub mod system;
pub mod calendar;
pub mod logger;
pub mod service;
pub mod config;
pub mod snapshot_store;
pub mod app;
pub mod session;
pub mod sampling;
pub mod console;
pub mod input;
pub mod view;
pub mod cli;
pub mod roundtrip;
