use ubiquitimes::bot_communicate::{CmdKind, RecievedBotComMessage, SendBotComMessage};
use ubiquitimes::bot_message::{TimesSettingRequest, TimesSettingResponse};
use ubiquitimes::decimal::ParseIntError;
use ubiquitimes::manual_commands::master_webhook::MasterWebhook as ManualMasterWebhook;
use ubiquitimes::master_webhook::MasterWebhook;
use ubiquitimes::own_server::OwnTimes;
use ubiquitimes::types::botcom::{BotComMessage, Claims as BotComClaims, CmdKind as BotComCmdKind, BOT_COM_TTL};
use ubiquitimes::types::own_server_data::{ServerData, TimesData};
use ubiquitimes::types::webhook::{MasterWebhook as RowMasterWebhook, MemberWebhook};

#[test]
fn rows_parse_ids() {
    let s = ServerData::from_row("10", "srv", "20", "https://w").unwrap();
    assert_eq!(s, ServerData::from(10, "srv", 20, "https://w"));
    assert_eq!(ServerData::from_row("x", "srv", "", "w"), Err(ParseIntError::InvalidDigit));
    assert_eq!(ServerData::from_row("1", "srv", "", "w"), Err(ParseIntError::Empty));
    let t = TimesData::from_row("5", "taro", "6", "u").unwrap();
    assert_eq!(t, TimesData::from(5, "taro", 6, "u"));
    assert_eq!(TimesData::from_row("99999999999999999999", "t", "1", "u"), Err(ParseIntError::PosOverflow));
    let m = MemberWebhook::from_row("1", "srv", "2", "3", "u").unwrap();
    assert_eq!(m, MemberWebhook::from(1, "srv", 2, 3, "u"));
    assert_eq!(MemberWebhook::from_row("1", "srv", "2", "c", "u"), Err(ParseIntError::InvalidDigit));
}

#[test]
fn master_webhooks() {
    let w = MasterWebhook::from_row("12", "srv", "https://w", "PEM").unwrap();
    assert_eq!(w, MasterWebhook::new(12, "srv", "https://w", "PEM"));
    assert_eq!(MasterWebhook::from_row("-1", "srv", "w", "p"), Err(ParseIntError::InvalidDigit));
    let r = RowMasterWebhook::new(3, "srv", "w", "PUB");
    assert_eq!(r.private_key_pem, "PUB");
    assert_eq!(RowMasterWebhook::from_row("3", "srv", "w", "PUB").unwrap(), r);
    let m = ManualMasterWebhook::from(Some(9), "srv", 4, "w");
    assert_eq!(m.id, None);
    assert_eq!(ManualMasterWebhook::from_row(Some(9), "srv", "4", "w").unwrap(), m);
}

#[test]
fn bot_com_messages() {
    let b = BotComMessage::from("a", "b", BotComCmdKind::NoCommand);
    assert_eq!((b.src.as_str(), b.dst.as_str(), b.ttl), ("a", "b", 4));
    assert_eq!(BOT_COM_TTL, 4);
    let c = BotComClaims::new("i", "s", "a", BotComCmdKind::NoCommand);
    assert_eq!((c.iss.as_str(), c.sub.as_str(), c.aud.as_str(), c.exp), ("i", "s", "a", 10000000000));
    let s = SendBotComMessage::new(1, 2, "tok".to_string());
    assert_eq!((s.src_guild_id, s.dst_guild_id, s.token.as_str()), (1, 2, "tok"));
    let r = RecievedBotComMessage::new(3, 4, CmdKind::NoCommand);
    assert_eq!((r.src_guild_id, r.dst_guild_id, r.cmd_kind), (3, 4, CmdKind::NoCommand));
}

#[test]
fn response_from_request() {
    let req = TimesSettingRequest::new(7, "m".to_string(), 8, "w".to_string());
    let own = OwnTimes::new(7, "taro", 99, "https://times");
    let res = TimesSettingResponse::from_req(&req, 55, &own);
    assert_eq!(res, TimesSettingResponse {
        req_src_member_id: 7,
        req_dst_guild_id: 55,
        req_dst_member_channel_id: 99,
        req_dst_member_webhook_url: "https://times".to_string(),
    });
}
