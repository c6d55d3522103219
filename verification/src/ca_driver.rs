//! The certificate authority the bot asks for another server's public key
//! and manage webhook.

use vstd::prelude::*;
use crate::decimal::{lemma_parse_decimal, push_decimal, spec_decimal, spec_parse_u64, ParseIntError};

verus! {

/// Where the authority answers `GET {BASE_URL}{guild_id}`.
pub const BASE_URL: &'static str = "https://steel-borne.shuttleapp.rs/ubiquitimes/v1/oreoreca/get/";

/// What the authority knows about a server.
#[derive(Debug, Clone, PartialEq, Eq)]
pub struct KeyAndWebhook {
    pub guild_id: u64,
    pub public_key: String,
    pub manage_webhook: String,
}

/// The URL that asks the authority about `guild_id`.
pub open spec fn spec_key_webhook_url(guild_id: u64) -> Seq<char> {
    BASE_URL@ + spec_decimal(guild_id as nat)
}

/// The URL that asks the authority about a guild is [`BASE_URL`] followed by
/// a text that reads back as exactly that guild id; so different guilds are
/// asked about at different URLs.
pub proof fn law_key_webhook_url_names_guild(guild_id: u64)
    ensures
        spec_key_webhook_url(guild_id).take(BASE_URL@.len() as int) == BASE_URL@,
        spec_parse_u64(spec_key_webhook_url(guild_id).skip(BASE_URL@.len() as int))
            == Ok::<u64, ParseIntError>(guild_id),
{
    let url = spec_key_webhook_url(guild_id);
    assert(url.take(BASE_URL@.len() as int) =~= BASE_URL@);
    assert(url.skip(BASE_URL@.len() as int) =~= spec_decimal(guild_id as nat));
    lemma_parse_decimal(guild_id);
}

/// The client of the authority.
pub struct MyCaDriver;

impl MyCaDriver {
    pub fn new() -> (r: Self) {
        MyCaDriver
    }

    /// The URL of the request that fetches the key and webhook of `guild_id`.
    pub fn key_webhook_url(&self, guild_id: u64) -> (r: String)
        ensures
            r@ == spec_key_webhook_url(guild_id),
            r@.take(BASE_URL@.len() as int) == BASE_URL@,
            spec_parse_u64(r@.skip(BASE_URL@.len() as int)) == Ok::<u64, ParseIntError>(guild_id),
    {
        let mut url = String::new();
        url.append(BASE_URL);
        push_decimal(&mut url, guild_id);
        assert(url@ =~= spec_key_webhook_url(guild_id));
        proof {
            law_key_webhook_url_names_guild(guild_id);
        }
        url
    }
}

} // verus!
