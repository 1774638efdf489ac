//! A verified core for a Kubernetes control loop that mirrors endpoint
//! readiness into an external status registry.
//!
//! The library holds the pure logic of the loop: deriving an identity from a
//! watched object's labels, validating its owner reference, deriving a
//! readiness verdict, and sequencing the create-or-update against the
//! registry. All I/O (the watch stream, the authority lookup, the HTTP calls
//! to the registry) lives outside the library and is driven through the
//! state machine in [`operator`].

pub mod api_types;
pub mod config;
pub mod endpoint_slice;
pub mod namespace_filter;
pub mod operator;
pub mod registry;
pub mod text;
