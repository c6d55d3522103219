//! Verified core of the Ubiquitimes Discord bot: the data it keeps about its
//! own server and about the servers it spreads to, the texts and keys it
//! derives from them, the selection rules of its stores, the protocol state
//! that decides which responses are accepted, its key handling, and how its
//! requests are signed and checked as RS256 tokens.

pub mod decimal;
pub mod own_server;
pub mod other_server;
pub mod bot_message;
pub mod sign;
pub mod other_server_repository;
pub mod ca_driver;
pub mod bot_message_communicator;
pub mod own_server_repository;
pub mod poise_commands;
pub mod types;
pub mod master_webhook;
pub mod manual_commands;
pub mod bot_communicate;
pub mod keys;
pub mod jwt;
