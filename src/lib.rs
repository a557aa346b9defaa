//! A dependency-aware build-script orchestrator: named build steps with
//! declared prerequisites, a shared status store, and the decisions taken
//! around repository acquisition and command execution.

pub mod acquire;
pub mod args;
pub mod command;
pub mod config;
pub mod engine;
pub mod menu;
pub mod error;
pub mod params;
pub mod registry;
pub mod scripts;
pub mod status;
pub mod table;
