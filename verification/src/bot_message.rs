//! The messages two bots exchange to set up spreading of a member's `times`.

use vstd::prelude::*;
use crate::own_server::OwnTimes;

verus! {

/// A request from the server `src_guild_id` to the server `dst_guild_id`,
/// carrying signed claims (a JWS in compact form).
#[derive(Debug, Clone, PartialEq, Eq)]
pub struct RequestMessage {
    pub src_guild_id: u64,
    pub dst_guild_id: u64,
    pub jws_times_setting_request: String,
}

impl RequestMessage {
    pub fn new(src_guild_id: u64, dst_guild_id: u64, jws_times_setting_request: String) -> (r: Self)
        ensures
            r.src_guild_id == src_guild_id,
            r.dst_guild_id == dst_guild_id,
            r.jws_times_setting_request == jws_times_setting_request,
    {
        Self { src_guild_id, dst_guild_id, jws_times_setting_request }
    }
}

/// The answer to a request.
#[derive(Debug, Clone, PartialEq, Eq)]
pub struct ResponseMessage {
    pub src_guild_id: u64,
    pub dst_guild_id: u64,
    pub times_setting_response: TimesSettingResponse,
}

impl ResponseMessage {
    pub fn new(src_guild_id: u64, dst_guild_id: u64, times_setting_response: TimesSettingResponse) -> (r: Self)
        ensures
            r.src_guild_id == src_guild_id,
            r.dst_guild_id == dst_guild_id,
            r.times_setting_response == times_setting_response,
    {
        Self { src_guild_id, dst_guild_id, times_setting_response }
    }
}

/// What a member asks another server for: their identity and where their own
/// `times` lives on the requesting server.
#[derive(Debug, Clone, PartialEq, Eq)]
pub struct TimesSettingRequest {
    pub req_src_member_id: u64,
    pub req_src_manage_webhook_url: String,
    pub req_src_channel_id: u64,
    pub req_src_member_webhook_url: String,
}

impl TimesSettingRequest {
    pub fn new(
        req_src_member_id: u64,
        req_src_manage_webhook_url: String,
        req_src_channel_id: u64,
        req_src_member_webhook_url: String,
    ) -> (r: Self)
        ensures
            r.req_src_member_id == req_src_member_id,
            r.req_src_manage_webhook_url == req_src_manage_webhook_url,
            r.req_src_channel_id == req_src_channel_id,
            r.req_src_member_webhook_url == req_src_member_webhook_url,
    {
        Self {
            req_src_member_id,
            req_src_manage_webhook_url,
            req_src_channel_id,
            req_src_member_webhook_url,
        }
    }
}

/// The answer: the responding server's `times` channel for the requesting
/// member. The requesting side is always `src`, the answering side `dst`.
#[derive(Debug, Clone, PartialEq, Eq)]
pub struct TimesSettingResponse {
    pub req_src_member_id: u64,
    pub req_dst_guild_id: u64,
    pub req_dst_member_channel_id: u64,
    pub req_dst_member_webhook_url: String,
}

impl TimesSettingResponse {
    /// The answer to `req` from the server `own_guild_id` whose `times` for the
    /// member is `own_times`.
    pub fn from_req(req: &TimesSettingRequest, own_guild_id: u64, own_times: &OwnTimes) -> (r: Self)
        ensures
            r.req_src_member_id == req.req_src_member_id,
            r.req_dst_guild_id == own_guild_id,
            r.req_dst_member_channel_id == own_times.channel_id,
            r.req_dst_member_webhook_url == own_times.times_webhook_url,
    {
        Self {
            req_src_member_id: req.req_src_member_id,
            req_dst_guild_id: own_guild_id,
            req_dst_member_channel_id: own_times.channel_id,
            req_dst_member_webhook_url: own_times.times_webhook_url.clone(),
        }
    }
}

} // verus!
