use ubiquitimes::other_server::{OtherServer, OtherTimes};
use ubiquitimes::own_server::OwnTimes;
use ubiquitimes::poise_commands::{
    command_check, create_member_webhook_name, find_member_webhook, get_register_tmplate_str, initialize_reply,
    release_username, release_webhook_urls, server_list_text, spread_list_text, times_show_text,
};
use ubiquitimes::poise_commands::{deleted_server_reply, master_hook_reply, get_prefix_register_template_str, plan_member_webhook, registered_server_reply, MemberWebhookPlan};

#[test]
fn command_check_needs_exact_word() {
    assert_eq!(command_check("untimes", "untimes"), Ok(()));
    assert_eq!(command_check("untime", "untimes"), Err("untimesと入力してください".to_string()));
    assert_eq!(command_check("", "release"), Err("releaseと入力してください".to_string()));
}

#[test]
fn member_webhook_name_and_lookup() {
    assert_eq!(create_member_webhook_name(123), "UT-123");
    let names = vec![None, Some("UT-1".to_string()), Some("UT-123".to_string()), Some("UT-123".to_string())];
    assert_eq!(find_member_webhook(&names, 123), Some(2));
    assert_eq!(find_member_webhook(&names, 1), Some(1));
    assert_eq!(find_member_webhook(&names, 12), None);
}

#[test]
fn list_texts() {
    let times = vec![
        OtherTimes::new(1, "alpha", 2, 3, "u1"),
        OtherTimes::new(1, "beta", 4, 5, "u2"),
    ];
    assert_eq!(spread_list_text(&times), "拡散先リスト\n --------- \n```alpha\nbeta\n```");
    assert_eq!(spread_list_text(&Vec::new()), "拡散先リスト\n --------- \n``````");
    let servers = vec![OtherServer::new(1, "a", "w", "p"), OtherServer::new(2, "b", "w", "p")];
    assert_eq!(server_list_text(&servers), "a\nb\n");
    let own = vec![OwnTimes::new(5, "taro", 6, "u"), OwnTimes::new(7, "hana", 8, "v")];
    assert_eq!(times_show_text(&own), "taro: times_channel_id: 5\nhana: times_channel_id: 7\n");
    assert_eq!(release_webhook_urls(&times, 1), vec!["u1".to_string(), "u2".to_string()]);
    let mixed = vec![
        OtherTimes::new(1, "alpha", 2, 3, "u1"),
        OtherTimes::new(9, "alpha", 2, 3, "x"),
        OtherTimes::new(1, "beta", 4, 5, "u2"),
    ];
    assert_eq!(release_webhook_urls(&mixed, 1), vec!["u1".to_string(), "u2".to_string()]);
    assert_eq!(release_webhook_urls(&mixed, 9), vec!["x".to_string()]);
    assert!(release_webhook_urls(&mixed, 4).is_empty());
}

#[test]
fn reply_texts() {
    assert_eq!(release_username("taro"), "UT-taro");
    assert_eq!(initialize_reply("https://w", "PEM"), "manage_webhookのURL: https://w\n公開鍵のPEM: PEM");
    assert_eq!(
        get_register_tmplate_str("srv", "https://w", 42, "PEM"),
        "/ut_set_other_server_data server_name:srv master_webhook_url:https://w guild_id:42 public_key_pem:PEM"
    );
}

#[test]
fn registration_replies() {
    assert_eq!(
        registered_server_reply("srv", "https://w", 7),
        "登録しました．```\nserver_name: srv, webhook_url: https://w, guild_id: 7```"
    );
    assert_eq!(deleted_server_reply("srv"), "srvを削除しました");
}

#[test]
fn member_webhook_plan() {
    let names = vec![Some("other".to_string()), Some("UT-5".to_string())];
    assert_eq!(plan_member_webhook(&names, 5), MemberWebhookPlan::UseExisting(1));
    assert_eq!(plan_member_webhook(&names, 6), MemberWebhookPlan::Create("UT-6".to_string()));
}

#[test]
fn prefix_register_template() {
    assert_eq!(get_prefix_register_template_str("srv", "https://w", 42, "PEM"), "~UtOtherServerHook srv https://w 42 PEM");
}

#[test]
fn master_hook_reply_shows_url() {
    let srv = OtherServer::new(1, "srv", "https://hook", "pem");
    assert_eq!(master_hook_reply(Some(srv)), "master_webhook: \"https://hook\"");
    assert_eq!(master_hook_reply(None), format!("master_webhook: {:?}", "指定したサーバ名は登録されていません"));
}
