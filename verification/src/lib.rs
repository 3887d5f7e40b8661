//! Execution core of a replicated-state-machine node.
//!
//! The [`runtime`] module holds the dispatcher that routes deployment,
//! initialization and execution requests to pluggable runtimes and applies
//! the actions that an execution leaves behind, and the native runtime. The
//! [`events`] module holds the decisions of the internal event scheduler
//! that feeds the consensus loop. The [`supervisor`] module holds the API of
//! the supervisor service, and [`cli`] what a node is built from. Every
//! function is verified against the contract written on it.

pub mod bytes;
pub mod crypto;
pub mod storage;
pub mod messages;
pub mod runtime;
pub mod api;
pub mod events;
pub mod supervisor;
pub mod cli;
