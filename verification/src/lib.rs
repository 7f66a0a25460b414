//! The parts of a web server that decide: how its configuration is put together, where it
//! listens, how its store of values in memory works, how sessions are kept in signed cookies,
//! which files it serves, what failures are answered with, and in which order it starts.
pub mod assets;
pub mod clock;
pub mod config;
pub mod cookies;
pub mod database;
pub mod errors;
pub mod json;
pub mod json_merge;
pub mod network;
pub mod scheduler;
pub mod session;
pub mod startup;
pub mod store;
pub mod text;
pub mod timed_uuid;
