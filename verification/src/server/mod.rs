//! The gRPC side: configuration, request authorization and the update run.

pub mod configuration;
pub mod authorization;
pub mod updater;
