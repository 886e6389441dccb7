//! Orchestration of a multi-repository workspace: configuration model,
//! repository synchronisation, build dispatch and artifact collection.
//!
//! The library decides; a driver performs the decided actions (running
//! programs, touching the file system) and reports their outcomes back.

pub mod paths;
pub mod error;
pub mod command;
pub mod config;
pub mod sync;
pub mod dispatch;
pub mod workspace;
