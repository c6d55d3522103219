//! The records of the bot's earlier message format and database rows.

pub mod botcom;
pub mod own_server_data;
pub mod webhook;
