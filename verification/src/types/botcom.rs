//! Bot-to-bot messages of the earlier format, addressed by server name.

use vstd::prelude::*;

verus! {

/// How many hops a message may still travel when it is created.
pub const BOT_COM_TTL: usize = 4;

/// The expiry written into the earlier claims.
pub const BOT_COM_CLAIMS_EXP: u64 = 10000000000;

/// A message from the server named `src` to the server named `dst`.
#[derive(Debug, Clone, PartialEq, Eq)]
pub struct BotComMessage {
    pub src: String,
    pub dst: String,
    pub cmd: CmdKind,
    pub ttl: usize,
}

/// The claims of the earlier format.
#[derive(Debug, Clone, PartialEq, Eq)]
pub struct Claims {
    pub iss: String,
    pub sub: String,
    pub aud: String,
    pub exp: u64,
    pub cmdind: CmdKind,
}

impl Claims {
    pub fn new(iss: &str, sub: &str, aud: &str, cmdind: CmdKind) -> (r: Claims)
        ensures
            r.iss@ == iss@,
            r.sub@ == sub@,
            r.aud@ == aud@,
            r.exp == BOT_COM_CLAIMS_EXP,
            r.cmdind == cmdind,
    {
        Self { iss: iss.to_owned(), sub: sub.to_owned(), aud: aud.to_owned(), exp: BOT_COM_CLAIMS_EXP, cmdind }
    }
}

impl BotComMessage {
    /// A new message, with the full number of hops.
    pub fn from(src: &str, dst: &str, cmd: CmdKind) -> (r: BotComMessage)
        ensures
            r.src@ == src@,
            r.dst@ == dst@,
            r.cmd == cmd,
            r.ttl == BOT_COM_TTL,
    {
        Self { src: src.to_owned(), dst: dst.to_owned(), cmd, ttl: BOT_COM_TTL }
    }
}

/// What a message asks for.
#[derive(Debug, Clone, PartialEq, Eq)]
pub enum CmdKind {
    TimesUbiquiSettingSend(TimesUbiquiSettingSend),
    TimesUbiquiSettingRecv(TimesUbiquiSettingRecv),
    NoCommand,
}

/// A member's request to have their `times` spread.
#[derive(Debug, Clone, PartialEq, Eq)]
pub struct TimesUbiquiSettingSend {
    pub src_member_id: u64,
    pub src_master_webhook_url: String,
    pub src_channel_id: u64,
    pub src_member_webhook_url: String,
}

/// The answer: where the member's `times` lives on the answering server.
#[derive(Debug, Clone, PartialEq, Eq)]
pub struct TimesUbiquiSettingRecv {
    pub src_member_id: u64,
    pub dst_guild_id: u64,
    pub dst_channel_id: u64,
    pub dst_webhook_url: String,
}

} // verus!
