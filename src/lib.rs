//! Orchestration core of a microVM code sandbox: image references, the
//! image cache/builder, the VM supervisor's decisions and result assembly.
//! Every step that touches the outside world (processes, the filesystem,
//! the Python runtime) is described here as a value and carried out by the
//! embedding program, which hands the outcome back.

pub mod builder;
pub mod commands;
pub mod config;
pub mod error;
pub mod handles;
pub mod import;
pub mod job;
pub mod json;
pub mod packages;
pub mod quote;
pub mod reference;
pub mod resolver;
pub mod runner;
pub mod store;
pub mod supervisor;
pub mod text;
pub mod vmm;
pub mod wheel;
