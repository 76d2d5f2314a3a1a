//! Session engine and topic statistics for a message-broker operator console.

pub mod args;
pub mod brokers;
pub mod command;
pub mod config;
pub mod data;
pub mod groups;
pub mod order;
pub mod session;
pub mod table;
pub mod text;
pub mod topics;
pub mod types;
