//! What the bot knows about other servers it can spread `times` posts to.

use vstd::prelude::*;

verus! {

/// Another server: its identity, the webhook that reaches its bot, and the
/// public key that checks its signed requests.
#[derive(Debug, Clone, PartialEq, Eq)]
pub struct OtherServer {
    pub guild_id: u64,
    pub server_name: String,
    pub webhook_url: String,
    pub public_key_pem: String,
}

impl OtherServer {
    pub fn new(guild_id: u64, server_name: &str, webhook_url: &str, public_key_pem: &str) -> (r: Self)
        ensures
            r.guild_id == guild_id,
            r.server_name@ == server_name@,
            r.webhook_url@ == webhook_url@,
            r.public_key_pem@ == public_key_pem@,
    {
        Self {
            guild_id,
            server_name: server_name.to_owned(),
            webhook_url: webhook_url.to_owned(),
            public_key_pem: public_key_pem.to_owned(),
        }
    }

    /// A copy equal to `self`.
    pub(crate) fn duplicate(&self) -> (r: Self)
        ensures
            r == *self,
    {
        Self {
            guild_id: self.guild_id,
            server_name: self.server_name.clone(),
            webhook_url: self.webhook_url.clone(),
            public_key_pem: self.public_key_pem.clone(),
        }
    }
}

/// A member's `times` channel on another server, where that member's posts
/// are spread to.
#[derive(Debug, Clone, PartialEq, Eq)]
pub struct OtherTimes {
    pub src_member_id: u64,
    pub dst_server_name: String,
    pub dst_guild_id: u64,
    pub dst_channel_id: u64,
    pub dst_webhook_url: String,
}

impl OtherTimes {
    pub fn new(
        src_member_id: u64,
        dst_server_name: &str,
        dst_guild_id: u64,
        dst_channel_id: u64,
        dst_webhook_url: &str,
    ) -> (r: Self)
        ensures
            r.src_member_id == src_member_id,
            r.dst_server_name@ == dst_server_name@,
            r.dst_guild_id == dst_guild_id,
            r.dst_channel_id == dst_channel_id,
            r.dst_webhook_url@ == dst_webhook_url@,
    {
        Self {
            src_member_id,
            dst_server_name: dst_server_name.to_owned(),
            dst_guild_id,
            dst_channel_id,
            dst_webhook_url: dst_webhook_url.to_owned(),
        }
    }

    /// A copy equal to `self`.
    pub(crate) fn duplicate(&self) -> (r: Self)
        ensures
            r == *self,
    {
        Self {
            src_member_id: self.src_member_id,
            dst_server_name: self.dst_server_name.clone(),
            dst_guild_id: self.dst_guild_id,
            dst_channel_id: self.dst_channel_id,
            dst_webhook_url: self.dst_webhook_url.clone(),
        }
    }
}

} // verus!
