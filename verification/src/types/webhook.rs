//! The earlier rows of the webhooks the bot spreads through.

use vstd::prelude::*;
use crate::decimal::{parse_u64, spec_parse_u64, ParseIntError};

verus! {

/// The one webhook of another server (earlier row). The key given as
/// `public_key_pem` is kept in the field `private_key_pem`.
#[derive(Debug, Clone, PartialEq, Eq)]
pub struct MasterWebhook {
    pub guild_id: u64,
    pub server_name: String,
    pub webhook_url: String,
    pub private_key_pem: String,
}

impl MasterWebhook {
    pub fn new(guild_id: u64, server_name: &str, webhook_url: &str, public_key_pem: &str) -> (r: Self)
        ensures
            r.guild_id == guild_id,
            r.server_name@ == server_name@,
            r.webhook_url@ == webhook_url@,
            r.private_key_pem@ == public_key_pem@,
    {
        Self {
            guild_id,
            server_name: server_name.to_owned(),
            webhook_url: webhook_url.to_owned(),
            private_key_pem: public_key_pem.to_owned(),
        }
    }

    /// Reads a row whose guild id is decimal text.
    pub fn from_row(guild_id: &str, server_name: &str, webhook_url: &str, public_key_pem: &str) -> (r: Result<Self, ParseIntError>)
        ensures
            match spec_parse_u64(guild_id@) {
                Err(e) => r == Err::<Self, ParseIntError>(e),
                Ok(g) => r matches Ok(w) && w.guild_id == g && w.server_name@ == server_name@
                    && w.webhook_url@ == webhook_url@ && w.private_key_pem@ == public_key_pem@,
            },
    {
        let guild_id = parse_u64(guild_id)?;
        Ok(Self::new(guild_id, server_name, webhook_url, public_key_pem))
    }
}

/// A member's own webhook on another server (earlier row).
#[derive(Debug, Clone, PartialEq, Eq)]
pub struct MemberWebhook {
    pub src_member_id: u64,
    pub dst_server_name: String,
    pub dst_guild_id: u64,
    pub dst_channel_id: u64,
    pub dst_webhook_url: String,
}

impl MemberWebhook {
    pub fn from(
        src_member_id: u64,
        dst_server_name: &str,
        dst_guild_id: u64,
        dst_channel_id: u64,
        dst_webhook_url: &str,
    ) -> (r: Self)
        ensures
            r.src_member_id == src_member_id,
            r.dst_server_name@ == dst_server_name@,
            r.dst_guild_id == dst_guild_id,
            r.dst_channel_id == dst_channel_id,
            r.dst_webhook_url@ == dst_webhook_url@,
    {
        Self {
            src_member_id,
            dst_server_name: dst_server_name.to_owned(),
            dst_guild_id,
            dst_channel_id,
            dst_webhook_url: dst_webhook_url.to_owned(),
        }
    }

    /// Reads a row whose ids are decimal text; the first id that does not
    /// parse, in the order member, guild, channel, decides the error.
    pub fn from_row(
        src_member_id: &str,
        dst_server_name: &str,
        dst_guild_id: &str,
        dst_channel_id: &str,
        dst_webhook_url: &str,
    ) -> (r: Result<Self, ParseIntError>)
        ensures
            match (spec_parse_u64(src_member_id@), spec_parse_u64(dst_guild_id@), spec_parse_u64(dst_channel_id@)) {
                (Err(e), _, _) => r == Err::<Self, ParseIntError>(e),
                (Ok(_), Err(e), _) => r == Err::<Self, ParseIntError>(e),
                (Ok(_), Ok(_), Err(e)) => r == Err::<Self, ParseIntError>(e),
                (Ok(m), Ok(g), Ok(c)) => r matches Ok(w) && w.src_member_id == m && w.dst_guild_id == g
                    && w.dst_channel_id == c && w.dst_server_name@ == dst_server_name@
                    && w.dst_webhook_url@ == dst_webhook_url@,
            },
    {
        let src_member_id = parse_u64(src_member_id)?;
        let dst_guild_id = parse_u64(dst_guild_id)?;
        let dst_channel_id = parse_u64(dst_channel_id)?;
        Ok(Self::from(src_member_id, dst_server_name, dst_guild_id, dst_channel_id, dst_webhook_url))
    }
}

} // verus!
