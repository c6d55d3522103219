//! The earlier rows of the server's own data and of its members' `times`;
//! ids are stored as decimal text.

use vstd::prelude::*;
use crate::decimal::{parse_u64, spec_parse_u64, ParseIntError};

verus! {

/// The server's own data as an earlier row held it.
#[derive(Debug, Clone, PartialEq, Eq)]
pub struct ServerData {
    pub guild_id: u64,
    pub server_name: String,
    pub master_channel_id: u64,
    pub master_webhook_url: String,
}

impl ServerData {
    pub fn from(guild_id: u64, server_name: &str, master_channel_id: u64, master_webhook_url: &str) -> (r: Self)
        ensures
            r.guild_id == guild_id,
            r.server_name@ == server_name@,
            r.master_channel_id == master_channel_id,
            r.master_webhook_url@ == master_webhook_url@,
    {
        Self {
            guild_id,
            server_name: server_name.to_owned(),
            master_channel_id,
            master_webhook_url: master_webhook_url.to_owned(),
        }
    }

    /// Reads a row whose ids are decimal text; the first id that does not
    /// parse decides the error.
    pub fn from_row(
        guild_id: &str,
        server_name: &str,
        master_channel_id: &str,
        master_webhook_url: &str,
    ) -> (r: Result<Self, ParseIntError>)
        ensures
            match (spec_parse_u64(guild_id@), spec_parse_u64(master_channel_id@)) {
                (Err(e), _) => r == Err::<Self, ParseIntError>(e),
                (Ok(_), Err(e)) => r == Err::<Self, ParseIntError>(e),
                (Ok(g), Ok(c)) => r matches Ok(s) && s.guild_id == g && s.master_channel_id == c
                    && s.server_name@ == server_name@ && s.master_webhook_url@ == master_webhook_url@,
            },
    {
        let guild_id = parse_u64(guild_id)?;
        let master_channel_id = parse_u64(master_channel_id)?;
        Ok(Self::from(guild_id, server_name, master_channel_id, master_webhook_url))
    }
}

/// A member's `times` as an earlier row held it.
#[derive(Debug, Clone, PartialEq, Eq)]
pub struct TimesData {
    pub member_id: u64,
    pub member_name: String,
    pub channel_id: u64,
    pub webhook_url: String,
}

impl TimesData {
    pub fn from(member_id: u64, member_name: &str, channel_id: u64, webhook_url: &str) -> (r: Self)
        ensures
            r.member_id == member_id,
            r.member_name@ == member_name@,
            r.channel_id == channel_id,
            r.webhook_url@ == webhook_url@,
    {
        Self {
            member_id,
            member_name: member_name.to_owned(),
            channel_id,
            webhook_url: webhook_url.to_owned(),
        }
    }

    /// Reads a row whose ids are decimal text; the first id that does not
    /// parse decides the error.
    pub fn from_row(member_id: &str, member_name: &str, channel_id: &str, webhook_url: &str) -> (r: Result<Self, ParseIntError>)
        ensures
            match (spec_parse_u64(member_id@), spec_parse_u64(channel_id@)) {
                (Err(e), _) => r == Err::<Self, ParseIntError>(e),
                (Ok(_), Err(e)) => r == Err::<Self, ParseIntError>(e),
                (Ok(m), Ok(c)) => r matches Ok(t) && t.member_id == m && t.channel_id == c
                    && t.member_name@ == member_name@ && t.webhook_url@ == webhook_url@,
            },
    {
        let member_id = parse_u64(member_id)?;
        let channel_id = parse_u64(channel_id)?;
        Ok(Self::from(member_id, member_name, channel_id, webhook_url))
    }
}

} // verus!
