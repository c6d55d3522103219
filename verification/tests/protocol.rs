use ubiquitimes::bot_message::{RequestMessage, ResponseMessage, TimesSettingRequest, TimesSettingResponse};
use ubiquitimes::bot_communicate::{answer_setting_request, CmdKind, RecievedBotComMessage, TimesUbiquiSettingRecv};
use ubiquitimes::bot_message_communicator::{
    plan_setting_requests, planned_guilds, SentGuildIds, TimesSettingCommunicatorError, WebhookReceiver, WebhookReqReceiver, WebhookReqSender,
    WebhookResReceiver, WebhookSender,
};
use ubiquitimes::ca_driver::{KeyAndWebhook, MyCaDriver};
use ubiquitimes::other_server::{OtherServer, OtherTimes};
use ubiquitimes::own_server::{OwnServer, OwnTimes};
use ubiquitimes::sign::{Claims, CLAIMS_EXP};

fn request() -> TimesSettingRequest {
    TimesSettingRequest::new(7, "https://manage".to_string(), 8, "https://member".to_string())
}

#[test]
fn sent_record_answers_once() {
    let mut sent = SentGuildIds::new();
    sent.save_sent_guild_id(1, 100);
    sent.save_sent_guild_id(1, 200);
    assert!(sent.is_response_from_sent_guild(1, 100));
    assert!(!sent.is_response_from_sent_guild(1, 100));
    assert!(sent.is_response_from_sent_guild(1, 200));
    assert!(!sent.is_response_from_sent_guild(2, 100));
}

#[test]
fn response_receiver_checks_record() {
    let mut sent = SentGuildIds::new();
    let receiver = WebhookResReceiver;
    let answer = TimesSettingResponse { req_src_member_id: 7, req_dst_guild_id: 2, req_dst_member_channel_id: 3, req_dst_member_webhook_url: "u".to_string() };
    let res = ResponseMessage::new(1, 2, answer);
    let beta = OtherServer::new(2, "beta", "https://beta", "pem");
    assert_eq!(
        receiver.times_setting_response_receive(&mut sent, &res, Some(beta.clone())),
        Err(TimesSettingCommunicatorError::ResponseNotFromSentGuild)
    );
    sent.save_sent_guild_id(7, 2);
    assert_eq!(
        receiver.times_setting_response_receive(&mut sent, &res, Some(beta.clone())),
        Ok(OtherTimes::new(7, "beta", 2, 3, "u"))
    );
    assert_eq!(
        receiver.times_setting_response_receive(&mut sent, &res, Some(beta)),
        Err(TimesSettingCommunicatorError::ResponseNotFromSentGuild)
    );
    sent.save_sent_guild_id(7, 2);
    assert_eq!(
        receiver.times_setting_response_receive(&mut sent, &res, None),
        Err(TimesSettingCommunicatorError::OtherServerNotFound(2))
    );
}

#[test]
fn response_from_requester_guild_is_refused() {
    let mut sent = SentGuildIds::new();
    sent.save_sent_guild_id(7, 1);
    let answer = TimesSettingResponse { req_src_member_id: 7, req_dst_guild_id: 2, req_dst_member_channel_id: 3, req_dst_member_webhook_url: "u".to_string() };
    let res = ResponseMessage::new(1, 2, answer);
    assert_eq!(
        WebhookResReceiver.times_setting_response_receive(&mut sent, &res, None),
        Err(TimesSettingCommunicatorError::ResponseNotFromSentGuild)
    );
}

#[test]
fn round_trip_as_built_is_accepted() {
    let own = OwnServer::new(1, "alpha", 11, "https://alpha", "priv", "pub");
    let dst = OtherServer::new(2, "beta", "https://beta", "pem");
    let sender = WebhookReqSender::new();
    let mut sent = SentGuildIds::new();
    let req_msg = sender.create_req_message(own.guild_id, &dst, "token".to_string());
    sender.save_sent(&mut sent, 7, req_msg.dst_guild_id);
    let claims = sender.request_claims(&own, &dst, request());
    let beta = OwnServer::new(2, "beta", 22, "https://beta", "priv", "pub");
    let beta_times = OwnTimes::new(7, "m", 33, "https://beta-times");
    let res = WebhookReqReceiver.create_res_message(&req_msg, &claims, &beta, &beta_times);
    assert_eq!(res.src_guild_id, 1);
    assert_eq!(res.dst_guild_id, 2);
    assert_eq!(res.times_setting_response.req_dst_guild_id, 2);
    assert_eq!(res.times_setting_response.req_dst_member_channel_id, 33);
    assert_eq!(
        WebhookResReceiver.times_setting_response_receive(&mut sent, &res, Some(dst)),
        Ok(OtherTimes::new(7, "beta", 2, 33, "https://beta-times"))
    );
}

#[test]
fn broadcast_plan_and_round() {
    let own = OwnServer::new(1, "alpha", 11, "https://alpha-manage", "priv", "pub");
    let own_times = OwnTimes::new(7, "taro", 8, "https://alpha-times");
    let targets = vec![OtherServer::new(2, "beta", "wb", "pb"), OtherServer::new(3, "gamma", "wg", "pg")];
    let plan = plan_setting_requests(&own, &own_times, &targets);
    assert_eq!(plan.len(), 2);
    let expected_req = TimesSettingRequest::new(7, "https://alpha-manage".to_string(), 8, "https://alpha-times".to_string());
    assert_eq!(plan[0], (2, Claims::new("alpha", 1, "beta", expected_req.clone())));
    assert_eq!(plan[1], (3, Claims::new("alpha", 1, "gamma", expected_req)));
    let guilds = planned_guilds(&plan);
    assert_eq!(guilds, vec![2, 3]);
    let mut sent = SentGuildIds::new();
    sent.save_sent_guild_id(7, 9);
    sent.reset_member(7, &guilds);
    assert!(!sent.is_response_from_sent_guild(7, 9));
    assert!(sent.is_response_from_sent_guild(7, 3));
    assert!(sent.is_response_from_sent_guild(7, 2));
    assert!(!sent.is_response_from_sent_guild(7, 2));
}

#[test]
fn earlier_format_answer() {
    let own = OwnServer::new(2, "beta", 22, "https://beta", "priv", "pub");
    let own_times = OwnTimes::new(7, "m", 33, "https://beta-times");
    assert!(answer_setting_request(&own, &own_times, 1, 5).is_none());
    let m = answer_setting_request(&own, &own_times, 1, 2).unwrap();
    let recv = TimesUbiquiSettingRecv { src_member_id: 7, dst_guild_id: 2, dst_channel_id: 33, dst_webhook_url: "https://beta-times".to_string() };
    assert_eq!(m, RecievedBotComMessage::new(2, 1, CmdKind::TimesUbiquiSettingRecv(recv)));
}

#[test]
fn sender_builds_claims_and_request() {
    let own = OwnServer::new(1, "alpha", 11, "https://alpha", "priv", "pub");
    let dst = OtherServer::new(2, "beta", "https://beta", "pem");
    let sender = WebhookReqSender::new();
    let claims = sender.request_claims(&own, &dst, request());
    assert_eq!(claims.iss, "alpha");
    assert_eq!(claims.sub, 1);
    assert_eq!(claims.aud, "beta");
    assert_eq!(claims.exp, 10000000000);
    assert_eq!(claims.times_setting_req, request());
    let msg: RequestMessage = sender.create_req_message(1, &dst, "jws".to_string());
    assert_eq!((msg.src_guild_id, msg.dst_guild_id, msg.jws_times_setting_request.as_str()), (1, 2, "jws"));
    let kw = KeyAndWebhook { guild_id: 2, public_key: "pem-b".to_string(), manage_webhook: "https://m".to_string() };
    let other = sender.get_other_server(2, "beta", &kw);
    assert_eq!(other, OtherServer::new(2, "beta", "https://m", "pem-b"));
}

#[test]
fn db_sender_needs_known_server() {
    let sender = WebhookSender::new();
    let dst = OtherServer::new(2, "beta", "https://beta", "pem");
    assert_eq!(sender.get_other_server(Some(dst.clone()), 2), Ok(dst.clone()));
    assert_eq!(sender.get_other_server(None, 5), Err(TimesSettingCommunicatorError::OtherServerNotFound(5)));
    let msg = sender.create_req_message(1, &dst, "t".to_string());
    assert_eq!(msg.dst_guild_id, 2);
}

#[test]
fn claims_new() {
    let c = Claims::new("iss", 3, "aud", request());
    assert_eq!((c.iss.as_str(), c.sub, c.aud.as_str(), c.exp), ("iss", 3, "aud", CLAIMS_EXP));
}

#[test]
fn only_bots_are_heard() {
    assert!(WebhookReqReceiver::check(true));
    assert!(!WebhookReqReceiver::check(false));
    assert!(WebhookReceiver::check(true));
    assert!(!WebhookReceiver::check(false));
}

#[test]
fn ca_url() {
    assert_eq!(
        MyCaDriver::new().key_webhook_url(1234),
        "https://steel-borne.shuttleapp.rs/ubiquitimes/v1/oreoreca/get/1234"
    );
}
