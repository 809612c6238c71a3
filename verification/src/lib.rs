//! Supervision engine for OCI container init processes.
//!
//! The crate models the lifecycle of a container process driven by an
//! external low-level runtime binary: building the runtime invocations,
//! classifying stdio destinations, wiring named pipes, and tracking the
//! process state machine. Blocking and asynchronous orchestration is left
//! to the embedding program; this library holds the decisions and proves
//! them.

pub mod config;
pub mod container;
pub mod digits;
pub mod error;
pub mod fifo;
pub mod fsio;
pub mod init;
pub mod io;
pub mod monitor;
pub mod options;
pub mod paths;
pub mod runc;
pub mod state;
