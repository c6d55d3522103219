//! The one webhook of another server, with the key that checks its requests.

use vstd::prelude::*;
use crate::decimal::{parse_u64, spec_parse_u64, ParseIntError};

verus! {

/// The one webhook of another server, with its public key.
#[derive(Debug, Clone, PartialEq, Eq)]
pub struct MasterWebhook {
    pub guild_id: u64,
    pub server_name: String,
    pub webhook_url: String,
    pub public_key_pem: String,
}

impl MasterWebhook {
    pub fn new(guild_id: u64, server_name: &str, webhook_url: &str, public_key_pem: &str) -> (r: Self)
        ensures
            r.guild_id == guild_id,
            r.server_name@ == server_name@,
            r.webhook_url@ == webhook_url@,
            r.public_key_pem@ == public_key_pem@,
    {
        Self {
            guild_id,
            server_name: server_name.to_owned(),
            webhook_url: webhook_url.to_owned(),
            public_key_pem: public_key_pem.to_owned(),
        }
    }

    /// Reads a row whose guild id is decimal text.
    pub fn from_row(guild_id: &str, server_name: &str, webhook_url: &str, public_key_pem: &str) -> (r: Result<Self, ParseIntError>)
        ensures
            match spec_parse_u64(guild_id@) {
                Err(e) => r == Err::<Self, ParseIntError>(e),
                Ok(g) => r matches Ok(w) && w.guild_id == g && w.server_name@ == server_name@
                    && w.webhook_url@ == webhook_url@ && w.public_key_pem@ == public_key_pem@,
            },
    {
        let guild_id = parse_u64(guild_id)?;
        Ok(Self::new(guild_id, server_name, webhook_url, public_key_pem))
    }
}

} // verus!
