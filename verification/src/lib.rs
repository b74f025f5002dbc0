//! Orchestration of confidential wheel-spin computations delegated to an
//! external threshold-MPC cluster.
//!
//! A caller registers a circuit definition, queues a computation request under
//! a fresh offset with encoded arguments, and later accepts the cluster's
//! signed output: the output is verified against the cluster's signer quorum
//! and, on success, the request is completed and its encrypted result is
//! delivered exactly once.

pub mod bytes_util;
pub mod circuits;
pub mod cluster;
pub mod encoder;
pub mod errors;
pub mod queue;
pub mod registry;
pub mod status;
pub mod wheel;
