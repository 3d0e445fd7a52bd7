//! The decision core of a Linux container runtime.
//!
//! Every function here is a pure computation: it says which kernel
//! operations have to be performed, with which arguments and in which order,
//! and how the runtime and its supervisor react to what comes back. The
//! caller performs the operations.

pub mod container;
pub mod error;
pub mod filesystem;
pub mod ipc;
pub mod ops;
pub mod runtime;
pub mod syscall;
pub mod text;
