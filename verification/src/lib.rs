//! Verified core of a Windows API tracing tool: an injector that places an
//! agent module into a target process and an agent that intercepts a fixed
//! set of system and COM entry points, reporting each call as telemetry.
//!
//! This crate holds the logic that can be stated and proved over plain
//! values: PE export resolution, the interception binding registry, the
//! vtable discovery walk over a modeled address space, architecture
//! detection, injection planning, liveness-stub synthesis, and the event
//! model with its filters. The thin layer of operating-system calls around
//! it lives outside the library and hands it plain values.

pub mod ascii;
pub mod app_state;
pub mod arch;
pub mod bytes;
pub mod dll;
pub mod engine;
pub mod event;
pub mod filters;
pub mod fmt;
pub mod guid;
pub mod hooks;
pub mod inject;
pub mod memory;
pub mod order;
pub mod pe;
pub mod pid;
pub mod registry;
pub mod report;
pub mod stub;
pub mod text;
pub mod time_format;
