//! The Discord side: configuration, request tokens and command replies.

pub mod configuration;
pub mod authorization;
pub mod commands;
