//! The protocol by which a server asks another to spread a member's `times`:
//! which requests it records as sent, which responses it accepts, and the
//! messages each side builds.

use std::collections::HashMap;
use std::collections::HashSet;
use vstd::prelude::*;
use crate::bot_message::{RequestMessage, ResponseMessage, TimesSettingRequest, TimesSettingResponse};
use crate::ca_driver::KeyAndWebhook;
use crate::other_server::{OtherServer, OtherTimes};
use crate::own_server::{OwnServer, OwnTimes};
use crate::sign::{Claims, CLAIMS_EXP};

verus! {

broadcast use vstd::std_specs::hash::group_hash_axioms;

/// The record, per member, of the guilds a request was sent to and whose
/// response has not come back yet.
pub open spec fn spec_record_sent(v: Map<u64, Set<u64>>, member_id: u64, guild_id: u64) -> Map<u64, Set<u64>> {
    let before = if v.contains_key(member_id) { v[member_id] } else { Set::empty() };
    v.insert(member_id, before.insert(guild_id))
}

/// Whether a response for `member_id` from `guild_id` answers a recorded request.
pub open spec fn spec_is_awaited(v: Map<u64, Set<u64>>, member_id: u64, guild_id: u64) -> bool {
    v.contains_key(member_id) && v[member_id].contains(guild_id)
}

/// The record after a response for `member_id` from `guild_id` was checked:
/// the answered request is no longer awaited.
pub open spec fn spec_after_response(v: Map<u64, Set<u64>>, member_id: u64, guild_id: u64) -> Map<u64, Set<u64>> {
    if v.contains_key(member_id) {
        v.insert(member_id, v[member_id].remove(guild_id))
    } else {
        v
    }
}

/// For each member, the guilds to which a request was sent and not yet answered.
pub struct SentGuildIds {
    sent: HashMap<u64, HashSet<u64>>,
}

impl View for SentGuildIds {
    type V = Map<u64, Set<u64>>;

    closed spec fn view(&self) -> Map<u64, Set<u64>> {
        self.sent@.map_values(|s: HashSet<u64>| s@)
    }
}

impl SentGuildIds {
    /// No request sent yet.
    pub fn new() -> (r: Self)
        ensures
            r@ == Map::<u64, Set<u64>>::empty(),
    {
        let r = SentGuildIds { sent: HashMap::new() };
        assert(r@ =~= Map::<u64, Set<u64>>::empty());
        r
    }

    /// Records that a request on behalf of `member_id` was sent to `guild_id`.
    pub fn save_sent_guild_id(&mut self, member_id: u64, guild_id: u64)
        ensures
            final(self)@ == spec_record_sent(old(self)@, member_id, guild_id),
    {
        let ghost before = self@;
        let mut guilds = match self.sent.remove(&member_id) {
            Some(g) => g,
            None => HashSet::new(),
        };
        assert(guilds@ == (if before.contains_key(member_id) { before[member_id] } else { Set::<u64>::empty() }));
        guilds.insert(guild_id);
        self.sent.insert(member_id, guilds);
        assert(self@ =~= spec_record_sent(before, member_id, guild_id));
    }

    /// Starts a new round of requests for `member_id`: what is awaited from
    /// them becomes exactly the guilds of `guilds`.
    pub fn reset_member(&mut self, member_id: u64, guilds: &Vec<u64>)
        ensures
            final(self)@ == old(self)@.insert(member_id, guilds@.to_set()),
    {
        let ghost before = self@;
        let mut set: HashSet<u64> = HashSet::new();
        let mut i: usize = 0;
        assert(guilds@.take(0) =~= Seq::<u64>::empty());
        assert(Seq::<u64>::empty().to_set() =~= Set::<u64>::empty());
        while i < guilds.len()
            invariant
                i <= guilds.len(),
                set@ == guilds@.take(i as int).to_set(),
            decreases guilds.len() - i,
        {
            proof {
                assert(guilds@.take(i + 1) =~= guilds@.take(i as int).push(guilds@[i as int]));
                guilds@.take(i as int).lemma_push_to_set_commute(guilds@[i as int]);
            }
            set.insert(guilds[i]);
            i = i + 1;
        }
        assert(guilds@.take(guilds.len() as int) =~= guilds@);
        self.sent.insert(member_id, set);
        assert(self@ =~= before.insert(member_id, guilds@.to_set()));
    }

    /// Whether a response for `member_id` coming from `guild_id` answers a
    /// recorded request; the record of that request is dropped, so a request
    /// is answered at most once.
    pub fn is_response_from_sent_guild(&mut self, member_id: u64, guild_id: u64) -> (r: bool)
        ensures
            r == spec_is_awaited(old(self)@, member_id, guild_id),
            final(self)@ == spec_after_response(old(self)@, member_id, guild_id),
    {
        let ghost before = self@;
        match self.sent.remove(&member_id) {
            None => {
                assert(self@ =~= before);
                false
            },
            Some(mut guilds) => {
                assert(guilds@ == before[member_id]);
                let was_sent = guilds.remove(&guild_id);
                self.sent.insert(member_id, guilds);
                assert(self@ =~= spec_after_response(before, member_id, guild_id));
                was_sent
            },
        }
    }
}

/// A response to a recorded request is accepted, and only once: once it has
/// been checked, the same response is refused.
pub proof fn law_response_accepted_once(v: Map<u64, Set<u64>>, member_id: u64, guild_id: u64)
    ensures
        spec_is_awaited(spec_record_sent(v, member_id, guild_id), member_id, guild_id),
        !spec_is_awaited(
            spec_after_response(spec_record_sent(v, member_id, guild_id), member_id, guild_id),
            member_id,
            guild_id,
        ),
{
}

/// A response that answers no recorded request is refused and changes nothing.
pub proof fn law_unrequested_response_refused(v: Map<u64, Set<u64>>, member_id: u64, guild_id: u64)
    requires
        !spec_is_awaited(v, member_id, guild_id),
    ensures
        spec_after_response(v, member_id, guild_id) == v,
{
    if v.contains_key(member_id) {
        assert(v[member_id].remove(guild_id) =~= v[member_id]);
        assert(v.insert(member_id, v[member_id]) =~= v);
    }
}

/// Recording a request, or checking a response, for one member and guild
/// leaves what is awaited from every other member or guild as it was.
pub proof fn law_record_is_per_member_and_guild(
    v: Map<u64, Set<u64>>,
    member_id: u64,
    guild_id: u64,
    other_member: u64,
    other_guild: u64,
)
    requires
        member_id != other_member || guild_id != other_guild,
    ensures
        spec_is_awaited(spec_record_sent(v, member_id, guild_id), other_member, other_guild)
            == spec_is_awaited(v, other_member, other_guild),
        spec_is_awaited(spec_after_response(v, member_id, guild_id), other_member, other_guild)
            == spec_is_awaited(v, other_member, other_guild),
{
}

/// The round trip: the requesting server records the request under the guild
/// `dst_guild` it was sent to, and the answering server's response names that
/// same guild as its `dst_guild_id`, the responder. Such a response is
/// accepted; one naming any other responder is accepted only if a request to
/// that guild was already awaited.
pub proof fn law_round_trip_acceptance(v: Map<u64, Set<u64>>, member_id: u64, dst_guild: u64, responder: u64)
    ensures
        spec_is_awaited(spec_record_sent(v, member_id, dst_guild), member_id, dst_guild),
        spec_is_awaited(spec_record_sent(v, member_id, dst_guild), member_id, responder)
            == (responder == dst_guild || spec_is_awaited(v, member_id, responder)),
{
}

/// After a new round of requests for a member, a response from a guild is
/// awaited exactly when the guild was among those the round was sent to.
pub proof fn law_round_awaits_exactly_its_guilds(v: Map<u64, Set<u64>>, member_id: u64, guilds: Seq<u64>, guild_id: u64)
    ensures
        spec_is_awaited(v.insert(member_id, guilds.to_set()), member_id, guild_id) == guilds.contains(guild_id),
{
}

/// What the protocol itself refuses.
#[derive(Debug, Clone, PartialEq, Eq)]
pub enum TimesSettingCommunicatorError {
    /// The response answers no request recorded as sent.
    ResponseNotFromSentGuild,
    /// No other server with this guild id is known.
    OtherServerNotFound(u64),
}

/// Whether a message comes from a bot: only those are looked at as requests.
pub open spec fn spec_check(author_is_bot: bool) -> bool {
    author_is_bot
}

/// Sends requests, learning the receiving server from the certificate authority.
pub struct WebhookReqSender;

impl WebhookReqSender {
    pub fn new() -> (r: Self) {
        Self
    }

    /// The receiving server as the authority describes it.
    pub fn get_other_server(&self, dst_guild_id: u64, dst_guild_name: &str, key_and_webhook: &KeyAndWebhook) -> (r: OtherServer)
        ensures
            r.guild_id == dst_guild_id,
            r.server_name@ == dst_guild_name@,
            r.webhook_url@ == key_and_webhook.manage_webhook@,
            r.public_key_pem@ == key_and_webhook.public_key@,
    {
        OtherServer::new(
            dst_guild_id,
            dst_guild_name,
            key_and_webhook.manage_webhook.as_str(),
            key_and_webhook.public_key.as_str(),
        )
    }

    /// The claims this server signs for a request to `dst_server`.
    pub fn request_claims(&self, own_server: &OwnServer, dst_server: &OtherServer, req: TimesSettingRequest) -> (r: Claims)
        ensures
            r.iss == own_server.server_name,
            r.sub == own_server.guild_id,
            r.aud == dst_server.server_name,
            r.exp == CLAIMS_EXP,
            r.times_setting_req == req,
    {
        Claims::from_servers_for_req(own_server, dst_server, req)
    }

    /// The request message from `own_guild_id` to `dst_server`, carrying the
    /// signed claims `token`.
    pub fn create_req_message(&self, own_guild_id: u64, dst_server: &OtherServer, token: String) -> (r: RequestMessage)
        ensures
            r.src_guild_id == own_guild_id,
            r.dst_guild_id == dst_server.guild_id,
            r.jws_times_setting_request == token,
    {
        RequestMessage::new(own_guild_id, dst_server.guild_id, token)
    }

    /// Records that `member_id`'s request went to `dst_guild_id`.
    pub fn save_sent(&self, sent: &mut SentGuildIds, member_id: u64, dst_guild_id: u64)
        ensures
            final(sent)@ == spec_record_sent(old(sent)@, member_id, dst_guild_id),
    {
        sent.save_sent_guild_id(member_id, dst_guild_id);
    }
}

/// Sends requests, learning the receiving server from the local store.
pub struct WebhookSender;

impl WebhookSender {
    pub fn new() -> (r: Self) {
        Self
    }

    /// The receiving server found in the store by its guild id, or the error
    /// that none is known.
    pub fn get_other_server(&self, found: Option<OtherServer>, dst_guild_id: u64) -> (r: Result<OtherServer, TimesSettingCommunicatorError>)
        ensures
            match found {
                Some(s) => r == Ok::<OtherServer, TimesSettingCommunicatorError>(s),
                None => r == Err::<OtherServer, TimesSettingCommunicatorError>(TimesSettingCommunicatorError::OtherServerNotFound(dst_guild_id)),
            },
    {
        match found {
            Some(s) => Ok(s),
            None => Err(TimesSettingCommunicatorError::OtherServerNotFound(dst_guild_id)),
        }
    }

    /// The request message from `own_guild_id` to `dst_server`.
    pub fn create_req_message(&self, own_guild_id: u64, dst_server: &OtherServer, token: String) -> (r: RequestMessage)
        ensures
            r.src_guild_id == own_guild_id,
            r.dst_guild_id == dst_server.guild_id,
            r.jws_times_setting_request == token,
    {
        RequestMessage::new(own_guild_id, dst_server.guild_id, token)
    }

    /// Records that `member_id`'s request went to `dst_guild_id`.
    pub fn save_sent(&self, sent: &mut SentGuildIds, member_id: u64, dst_guild_id: u64)
        ensures
            final(sent)@ == spec_record_sent(old(sent)@, member_id, dst_guild_id),
    {
        sent.save_sent_guild_id(member_id, dst_guild_id);
    }
}

/// Answers requests from other servers.
#[derive(Debug)]
pub struct WebhookReqReceiver;

impl WebhookReqReceiver {
    /// Only messages written by a bot are taken as requests.
    pub fn check(author_is_bot: bool) -> (r: bool)
        ensures
            r == spec_check(author_is_bot),
    {
        author_is_bot
    }

    /// The response to `req`, whose verified claims are `claim`, from this
    /// server, where the requesting member's `times` is `own_times`.
    pub fn create_res_message(
        &self,
        req: &RequestMessage,
        claim: &Claims,
        own_server: &OwnServer,
        own_times: &OwnTimes,
    ) -> (r: ResponseMessage)
        ensures
            r.src_guild_id == req.src_guild_id,
            r.dst_guild_id == req.dst_guild_id,
            r.times_setting_response.req_src_member_id == claim.times_setting_req.req_src_member_id,
            r.times_setting_response.req_dst_guild_id == own_server.guild_id,
            r.times_setting_response.req_dst_member_channel_id == own_times.channel_id,
            r.times_setting_response.req_dst_member_webhook_url == own_times.times_webhook_url,
    {
        let setting_res = TimesSettingResponse::from_req(&claim.times_setting_req, own_server.guild_id, own_times);
        ResponseMessage::new(req.src_guild_id, req.dst_guild_id, setting_res)
    }
}

/// What a member asks every server for: their identity and where their
/// `times` lives on this server.
pub open spec fn spec_setting_request(own_server: OwnServer, own_times: OwnTimes) -> TimesSettingRequest {
    TimesSettingRequest {
        req_src_member_id: own_times.member_id,
        req_src_manage_webhook_url: own_server.manage_webhook_url,
        req_src_channel_id: own_times.channel_id,
        req_src_member_webhook_url: own_times.times_webhook_url,
    }
}

/// A member's request names that member, unchanged, and where their `times`
/// and the server's manage webhook are; the claims signed for each target
/// carry that request, from this server to the target.
pub proof fn law_setting_request_carries_member(own_server: OwnServer, own_times: OwnTimes)
    ensures
        spec_setting_request(own_server, own_times).req_src_member_id == own_times.member_id,
        spec_setting_request(own_server, own_times).req_src_manage_webhook_url == own_server.manage_webhook_url,
        spec_setting_request(own_server, own_times).req_src_channel_id == own_times.channel_id,
        spec_setting_request(own_server, own_times).req_src_member_webhook_url == own_times.times_webhook_url,
        forall|target: OtherServer| {
            let c = #[trigger] spec_setting_claims(own_server, own_times, target);
            &&& c.iss == own_server.server_name
            &&& c.sub == own_server.guild_id
            &&& c.aud == target.server_name
            &&& c.times_setting_req.req_src_member_id == own_times.member_id
            &&& c.times_setting_req.req_src_manage_webhook_url == own_server.manage_webhook_url
            &&& c.times_setting_req.req_src_channel_id == own_times.channel_id
            &&& c.times_setting_req.req_src_member_webhook_url == own_times.times_webhook_url
        },
{
}

/// The request a member of `own_server`, whose `times` is `own_times`, sends.
pub fn setting_request(own_server: &OwnServer, own_times: &OwnTimes) -> (r: TimesSettingRequest)
    ensures
        r == spec_setting_request(*own_server, *own_times),
        r.req_src_member_id == own_times.member_id,
        r.req_src_manage_webhook_url == own_server.manage_webhook_url,
        r.req_src_channel_id == own_times.channel_id,
        r.req_src_member_webhook_url == own_times.times_webhook_url,
{
    proof {
        law_setting_request_carries_member(*own_server, *own_times);
    }
    TimesSettingRequest::new(
        own_times.member_id,
        own_server.manage_webhook_url.clone(),
        own_times.channel_id,
        own_times.times_webhook_url.clone(),
    )
}

/// The claims of a request from `own_server` to `target` for a member whose
/// `times` is `own_times`.
pub open spec fn spec_setting_claims(own_server: OwnServer, own_times: OwnTimes, target: OtherServer) -> Claims {
    Claims {
        iss: own_server.server_name,
        sub: own_server.guild_id,
        aud: target.server_name,
        exp: CLAIMS_EXP,
        times_setting_req: spec_setting_request(own_server, own_times),
    }
}

/// Sending the spreading-setting request to every registered server: for each
/// target, in order, its guild id and the claims to sign for it.
pub fn plan_setting_requests(own_server: &OwnServer, own_times: &OwnTimes, targets: &Vec<OtherServer>) -> (r: Vec<(u64, Claims)>)
    ensures
        r.len() == targets.len(),
        forall|i: int| 0 <= i < r.len() ==> (#[trigger] r@[i]).0 == targets@[i].guild_id
            && r@[i].1 == spec_setting_claims(*own_server, *own_times, targets@[i]),
{
    let mut out: Vec<(u64, Claims)> = Vec::new();
    let mut i: usize = 0;
    while i < targets.len()
        invariant
            i <= targets.len(),
            out.len() == i,
            forall|j: int| 0 <= j < i ==> (#[trigger] out@[j]).0 == targets@[j].guild_id
                && out@[j].1 == spec_setting_claims(*own_server, *own_times, targets@[j]),
        decreases targets.len() - i,
    {
        let claims = Claims::from_servers_for_req(own_server, &targets[i], setting_request(own_server, own_times));
        out.push((targets[i].guild_id, claims));
        i = i + 1;
    }
    out
}

/// The guild ids of a round of requests, in order.
pub fn planned_guilds(plan: &Vec<(u64, Claims)>) -> (r: Vec<u64>)
    ensures
        r.len() == plan.len(),
        forall|i: int| 0 <= i < r.len() ==> #[trigger] r@[i] == plan@[i].0,
{
    let mut out: Vec<u64> = Vec::new();
    let mut i: usize = 0;
    while i < plan.len()
        invariant
            i <= plan.len(),
            out.len() == i,
            forall|j: int| 0 <= j < i ==> #[trigger] out@[j] == plan@[j].0,
        decreases plan.len() - i,
    {
        out.push(plan[i].0);
        i = i + 1;
    }
    out
}

/// Answers requests from other servers (the variant that looks the requesting
/// server up in the local store).
pub struct WebhookReceiver;

impl WebhookReceiver {
    /// Only messages written by a bot are taken as requests.
    pub fn check(author_is_bot: bool) -> (r: bool)
        ensures
            r == spec_check(author_is_bot),
    {
        author_is_bot
    }
}

/// Takes responses to this server's requests.
pub struct WebhookResReceiver;

impl WebhookResReceiver {
    /// Checks a response against the requests recorded as sent, under the
    /// requesting member and the responding guild (`dst_guild_id`; the
    /// requesting side is always `src`). One that answers no recorded request
    /// is refused. One that does is taken off the record, and the responding
    /// server, `responder` as found in the store by that guild id, is
    /// registered as a spreading target of the member: the answer is the
    /// `times` record to store.
    pub fn times_setting_response_receive(
        &self,
        sent: &mut SentGuildIds,
        res: &ResponseMessage,
        responder: Option<OtherServer>,
    ) -> (r: Result<OtherTimes, TimesSettingCommunicatorError>)
        ensures
            final(sent)@ == spec_after_response(old(sent)@, res.times_setting_response.req_src_member_id, res.dst_guild_id),
            !spec_is_awaited(old(sent)@, res.times_setting_response.req_src_member_id, res.dst_guild_id)
                ==> r == Err::<OtherTimes, TimesSettingCommunicatorError>(TimesSettingCommunicatorError::ResponseNotFromSentGuild),
            spec_is_awaited(old(sent)@, res.times_setting_response.req_src_member_id, res.dst_guild_id) ==> match responder {
                None => r == Err::<OtherTimes, TimesSettingCommunicatorError>(
                    TimesSettingCommunicatorError::OtherServerNotFound(res.dst_guild_id)),
                Some(server) => r matches Ok(t) && spec_registered_times(t, *res, server)
                    && t.src_member_id == res.times_setting_response.req_src_member_id
                    && t.dst_server_name@ == server.server_name@
                    && t.dst_guild_id == res.times_setting_response.req_dst_guild_id
                    && t.dst_channel_id == res.times_setting_response.req_dst_member_channel_id
                    && t.dst_webhook_url@ == res.times_setting_response.req_dst_member_webhook_url@,
            },
    {
        let member_id = res.times_setting_response.req_src_member_id;
        let guild_id = res.dst_guild_id;
        if !sent.is_response_from_sent_guild(member_id, guild_id) {
            return Err(TimesSettingCommunicatorError::ResponseNotFromSentGuild);
        }
        match responder {
            None => Err(TimesSettingCommunicatorError::OtherServerNotFound(guild_id)),
            Some(server) => Ok(OtherTimes::new(
                member_id,
                server.server_name.as_str(),
                res.times_setting_response.req_dst_guild_id,
                res.times_setting_response.req_dst_member_channel_id,
                res.times_setting_response.req_dst_member_webhook_url.as_str(),
            )),
        }
    }
}

/// The record a response registers belongs to the member the response
/// answers, and points at the responding server's `times` channel for them:
/// that member's posts are spread there.
pub proof fn law_registered_times_belongs_to_member(t: OtherTimes, res: ResponseMessage, server: OtherServer)
    requires
        spec_registered_times(t, res, server),
    ensures
        t.src_member_id == res.times_setting_response.req_src_member_id,
        t.dst_server_name@ == server.server_name@,
        t.dst_guild_id == res.times_setting_response.req_dst_guild_id,
        t.dst_channel_id == res.times_setting_response.req_dst_member_channel_id,
        t.dst_webhook_url@ == res.times_setting_response.req_dst_member_webhook_url@,
{
}

/// The `times` record that registers the responding server `server` as a
/// spreading target of the member a response answers.
pub open spec fn spec_registered_times(t: OtherTimes, res: ResponseMessage, server: OtherServer) -> bool {
    &&& t.src_member_id == res.times_setting_response.req_src_member_id
    &&& t.dst_server_name@ == server.server_name@
    &&& t.dst_guild_id == res.times_setting_response.req_dst_guild_id
    &&& t.dst_channel_id == res.times_setting_response.req_dst_member_channel_id
    &&& t.dst_webhook_url@ == res.times_setting_response.req_dst_member_webhook_url@
}

} // verus!
