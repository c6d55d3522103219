//! The row of another server's webhook registered by hand.

use vstd::prelude::*;
use crate::decimal::{parse_u64, spec_parse_u64, ParseIntError};

verus! {

/// Another server's one webhook, as registered by hand. The row id is never
/// kept: it is `None` whatever id the row had.
#[derive(Debug, Clone, PartialEq, Eq)]
pub struct MasterWebhook {
    pub id: Option<u64>,
    pub server_name: String,
    pub guild_id: u64,
    pub webhook_url: String,
}

impl MasterWebhook {
    pub fn from(_id: Option<i64>, server_name: &str, guild_id: u64, webhook_url: &str) -> (r: Self)
        ensures
            r.id is None,
            r.server_name@ == server_name@,
            r.guild_id == guild_id,
            r.webhook_url@ == webhook_url@,
    {
        Self {
            id: None,
            server_name: server_name.to_owned(),
            guild_id,
            webhook_url: webhook_url.to_owned(),
        }
    }

    /// Reads a row whose guild id is decimal text.
    pub fn from_row(_id: Option<i64>, server_name: &str, guild_id: &str, webhook_url: &str) -> (r: Result<Self, ParseIntError>)
        ensures
            match spec_parse_u64(guild_id@) {
                Err(e) => r == Err::<Self, ParseIntError>(e),
                Ok(g) => r matches Ok(w) && w.id is None && w.guild_id == g && w.server_name@ == server_name@
                    && w.webhook_url@ == webhook_url@,
            },
    {
        let guild_id = parse_u64(guild_id)?;
        Ok(Self::from(None, server_name, guild_id, webhook_url))
    }
}

} // verus!
