//! What the bot knows about the server it runs on, and about the `times`
//! channels of that server's members.

use vstd::prelude::*;

verus! {

/// The server the bot runs on: its identity, its manage channel and webhook,
/// and the key pair it signs requests with.
#[derive(Debug, Clone, PartialEq, Eq)]
pub struct OwnServer {
    pub guild_id: u64,
    pub server_name: String,
    pub manage_channel_id: u64,
    pub manage_webhook_url: String,
    pub private_key_pem: String,
    pub public_key_pem: String,
}

impl OwnServer {
    pub fn new(
        guild_id: u64,
        server_name: &str,
        manage_channel_id: u64,
        manage_webhook_url: &str,
        private_key_pem: &str,
        public_key_pem: &str,
    ) -> (r: Self)
        ensures
            r.guild_id == guild_id,
            r.server_name@ == server_name@,
            r.manage_channel_id == manage_channel_id,
            r.manage_webhook_url@ == manage_webhook_url@,
            r.private_key_pem@ == private_key_pem@,
            r.public_key_pem@ == public_key_pem@,
    {
        Self {
            guild_id,
            server_name: server_name.to_owned(),
            manage_channel_id,
            manage_webhook_url: manage_webhook_url.to_owned(),
            private_key_pem: private_key_pem.to_owned(),
            public_key_pem: public_key_pem.to_owned(),
        }
    }
}

/// A member's `times` channel on this server and the webhook that posts to it.
#[derive(Debug, Clone, PartialEq, Eq)]
pub struct OwnTimes {
    pub member_id: u64,
    pub member_name: String,
    pub channel_id: u64,
    pub times_webhook_url: String,
}

impl OwnTimes {
    pub fn new(member_id: u64, member_name: &str, channel_id: u64, times_webhook_url: &str) -> (r: Self)
        ensures
            r.member_id == member_id,
            r.member_name@ == member_name@,
            r.channel_id == channel_id,
            r.times_webhook_url@ == times_webhook_url@,
    {
        Self {
            member_id,
            member_name: member_name.to_owned(),
            channel_id,
            times_webhook_url: times_webhook_url.to_owned(),
        }
    }
}

} // verus!
