//! A minimal container runtime, as a verified library: the decisions of
//! pulling an image from a registry, laying out its root filesystem,
//! isolating the process and running a command inside it.
//!
//! The library performs no I/O. It says which request to send, what to make
//! of each reply, and which step comes next; a driver carries the steps out.

pub mod text;
pub mod reply;
pub mod error;
pub mod sandbox;
pub mod registry;
pub mod manifest;
pub mod layer;
pub mod pull;
pub mod outcome;
pub mod pipeline;
pub mod run;
