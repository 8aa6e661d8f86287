//! Supervision core for a single long-running game server: a scanner that
//! turns raw log lines into typed events, a parser for operator commands, a
//! batcher for relayed chat and the lifecycle state machine that ties them
//! together. Every function here is pure: the surrounding program performs the
//! process and network work and feeds the results back in.

pub mod chat_relay;
pub mod config;
pub mod discord_commands;
pub mod duration;
pub mod lifecycle;
pub mod notices;
pub mod server_log;
pub mod text;
