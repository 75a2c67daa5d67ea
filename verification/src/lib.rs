//! Supervision of a mining pool service and a translating proxy service.
//!
//! The crate holds the decisions that start, wire and watch the two services:
//! which channels exist and how many slots each has, in which order the stages
//! of a start-up run, when a status report ends a service, and when the mining
//! target counts as set. Waiting on channels, sockets and signals is left to
//! the caller, who feeds what happened back as events.

pub mod bindings;
pub mod fabric;
pub mod pool_bootstrap;
pub mod proxy_bootstrap;
pub mod status;
pub mod supervision;
pub mod target;
