//! Verified core of the ETLegacy server updater: the configuration model of
//! the client (a Discord bot) and of the server (a gRPC service), the address
//! and reply texts they build, the token that the client attaches to a
//! request, and the decisions the server takes when it authorizes a request
//! and runs its update script.

pub mod text;
pub mod client;
pub mod server;
