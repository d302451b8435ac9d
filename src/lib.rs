//! Build orchestration for the AGC genome-archive bindings.
//!
//! The library decides, from plain facts about the host, where the native
//! AGC library comes from, which compiler toolchain builds it, how the native
//! build and the C++ bridge are configured, and which link directives the
//! final link step receives. Running processes and touching the filesystem is
//! left to the caller, which hands the observed facts back in; `orchestrator`
//! strings the stages together as a state machine.
pub mod bridge;
pub mod command;
pub mod contig;
pub mod dependency;
pub mod error;
pub mod link;
pub mod native_build;
pub mod orchestrator;
pub mod paths;
pub mod platform;
pub mod toolchain;
