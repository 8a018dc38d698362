//! Assembly and supervision of a metrics daemon: a storage engine and the
//! receivers that feed it are built from a configuration tree and then run
//! side by side until every one of them has stopped.

pub mod builder;
pub mod config;
pub mod engine;
pub mod listener;
pub mod runner;
pub mod settings;
