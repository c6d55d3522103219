//! Bot-to-bot messages of the earlier format, addressed by guild id.

use vstd::prelude::*;
use crate::own_server::{OwnServer, OwnTimes};

verus! {

/// A message carrying signed claims from `src_guild_id` to `dst_guild_id`.
#[derive(Debug, Clone, PartialEq, Eq)]
pub struct SendBotComMessage {
    pub src_guild_id: u64,
    pub dst_guild_id: u64,
    pub token: String,
}

impl SendBotComMessage {
    pub fn new(src_guild_id: u64, dst_guild_id: u64, token: String) -> (r: SendBotComMessage)
        ensures
            r.src_guild_id == src_guild_id,
            r.dst_guild_id == dst_guild_id,
            r.token == token,
    {
        Self { src_guild_id, dst_guild_id, token }
    }
}

/// A message received from `src_guild_id`, addressed to `dst_guild_id`.
#[derive(Debug, Clone, PartialEq, Eq)]
pub struct RecievedBotComMessage {
    pub src_guild_id: u64,
    pub dst_guild_id: u64,
    pub cmd_kind: CmdKind,
}

impl RecievedBotComMessage {
    pub fn new(src_guild_id: u64, dst_guild_id: u64, cmd_kind: CmdKind) -> (r: RecievedBotComMessage)
        ensures
            r.src_guild_id == src_guild_id,
            r.dst_guild_id == dst_guild_id,
            r.cmd_kind == cmd_kind,
    {
        Self { src_guild_id, dst_guild_id, cmd_kind }
    }
}

/// What a message asks for.
#[derive(Debug, Clone, PartialEq, Eq)]
pub enum CmdKind {
    TimesUbiquiSettingSend(TimesUbiquiSettingSend),
    TimesUbiquiSettingRecv(TimesUbiquiSettingRecv),
    NoCommand,
}

/// A member's request to have their `times` spread.
#[derive(Debug, Clone, PartialEq, Eq)]
pub struct TimesUbiquiSettingSend {
    pub src_member_id: u64,
    pub src_master_webhook_url: String,
    pub src_channel_id: u64,
    pub src_member_webhook_url: String,
}

/// The answer: where the member's `times` lives on the answering server.
#[derive(Debug, Clone, PartialEq, Eq)]
pub struct TimesUbiquiSettingRecv {
    pub src_member_id: u64,
    pub dst_guild_id: u64,
    pub dst_channel_id: u64,
    pub dst_webhook_url: String,
}

/// The answer to a spreading-setting request that came from `msg_src` and is
/// addressed to `msg_dst`: none when this server is not `msg_dst`; otherwise
/// a message from this server back to `msg_src` telling where the member's
/// `times` lives here.
pub fn answer_setting_request(own_server: &OwnServer, own_times: &OwnTimes, msg_src: u64, msg_dst: u64) -> (r: Option<RecievedBotComMessage>)
    ensures
        r is None <==> own_server.guild_id != msg_dst,
        r matches Some(m) ==> {
            &&& m.src_guild_id == own_server.guild_id
            &&& m.dst_guild_id == msg_src
            &&& m.cmd_kind matches CmdKind::TimesUbiquiSettingRecv(recv)
            &&& recv.src_member_id == own_times.member_id
            &&& recv.dst_guild_id == own_server.guild_id
            &&& recv.dst_channel_id == own_times.channel_id
            &&& recv.dst_webhook_url == own_times.times_webhook_url
        },
{
    if own_server.guild_id != msg_dst {
        return None;
    }
    let recv = TimesUbiquiSettingRecv {
        src_member_id: own_times.member_id,
        dst_guild_id: own_server.guild_id,
        dst_channel_id: own_times.channel_id,
        dst_webhook_url: own_times.times_webhook_url.clone(),
    };
    Some(RecievedBotComMessage::new(own_server.guild_id, msg_src, CmdKind::TimesUbiquiSettingRecv(recv)))
}

} // verus!
