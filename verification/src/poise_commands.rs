//! What the bot's commands compute before they talk to Discord: the checks
//! on what a member typed, the names and texts they build, and which
//! webhooks they use.

use vstd::prelude::*;
use crate::decimal::{lemma_parse_decimal, push_decimal, spec_decimal, spec_parse_u64, ParseIntError};
use crate::other_server::{OtherServer, OtherTimes};
use crate::own_server::OwnTimes;

verus! {

/// The text that asks a member to type `sign_str`.
pub open spec fn spec_command_check_text(sign_str: Seq<char>) -> Seq<char> {
    sign_str + "と入力してください"@
}

/// A guard against slips: a command that needs the member to type a word
/// goes on only when `enter_str` is exactly `sign_str`; otherwise it answers
/// the text that asks for that word.
pub fn command_check(enter_str: &str, sign_str: &str) -> (r: Result<(), String>)
    ensures
        r is Ok <==> enter_str@ == sign_str@,
        r matches Err(t) ==> t@ == spec_command_check_text(sign_str@),
{
    let entered = enter_str.to_owned();
    let expected = sign_str.to_owned();
    if entered == expected {
        Ok(())
    } else {
        let mut text = sign_str.to_owned();
        text.append("と入力してください");
        Err(text)
    }
}

/// The name of the webhook the bot keeps in a member's `times` channel.
pub open spec fn spec_member_webhook_name(member_id: u64) -> Seq<char> {
    "UT-"@ + spec_decimal(member_id as nat)
}

/// The name of the webhook the bot keeps in a member's `times` channel:
/// `UT-` and the member id.
pub fn create_member_webhook_name(member_id: u64) -> (r: String)
    ensures
        r@ == spec_member_webhook_name(member_id),
        r@.take("UT-"@.len() as int) == "UT-"@,
        spec_parse_u64(r@.skip("UT-"@.len() as int)) == Ok::<u64, ParseIntError>(member_id),
{
    let mut s = String::new();
    s.append("UT-");
    push_decimal(&mut s, member_id);
    assert(s@ =~= spec_member_webhook_name(member_id));
    proof {
        law_member_webhook_name_names_member(member_id);
    }
    s
}

/// A member's webhook name is `UT-` followed by a text that reads back as
/// exactly that member's id; so no two members share a webhook name.
pub proof fn law_member_webhook_name_names_member(member_id: u64)
    ensures
        spec_member_webhook_name(member_id).take("UT-"@.len() as int) == "UT-"@,
        spec_parse_u64(spec_member_webhook_name(member_id).skip("UT-"@.len() as int))
            == Ok::<u64, ParseIntError>(member_id),
{
    let name = spec_member_webhook_name(member_id);
    assert(name.take("UT-"@.len() as int) =~= "UT-"@);
    assert(name.skip("UT-"@.len() as int) =~= spec_decimal(member_id as nat));
    lemma_parse_decimal(member_id);
}

/// Two members' webhook names are the same only for the same member.
pub proof fn law_member_webhook_names_distinct(a: u64, b: u64)
    ensures
        spec_member_webhook_name(a) == spec_member_webhook_name(b) ==> a == b,
{
    law_member_webhook_name_names_member(a);
    law_member_webhook_name_names_member(b);
}

/// Whether a webhook's (optional) name is the member's webhook name.
pub open spec fn is_member_webhook(name: Option<String>, member_id: u64) -> bool {
    name matches Some(n) && n@ == spec_member_webhook_name(member_id)
}

/// Among the webhooks of a channel, given by their names, the first that is
/// the member's webhook.
pub fn find_member_webhook(webhook_names: &Vec<Option<String>>, member_id: u64) -> (r: Option<usize>)
    ensures
        match r {
            Some(i) => i < webhook_names.len() && is_member_webhook(webhook_names@[i as int], member_id)
                && forall|j: int| 0 <= j < i ==> !is_member_webhook(#[trigger] webhook_names@[j], member_id),
            None => forall|j: int| 0 <= j < webhook_names.len() ==> !is_member_webhook(#[trigger] webhook_names@[j], member_id),
        },
{
    let wanted = create_member_webhook_name(member_id);
    let mut i: usize = 0;
    while i < webhook_names.len()
        invariant
            i <= webhook_names.len(),
            wanted@ == spec_member_webhook_name(member_id),
            forall|j: int| 0 <= j < i ==> !is_member_webhook(#[trigger] webhook_names@[j], member_id),
        decreases webhook_names.len() - i,
    {
        match &webhook_names[i] {
            Some(name) => {
                if *name == wanted {
                    return Some(i);
                }
            },
            None => {},
        }
        i = i + 1;
    }
    None
}

/// What setting a member's `times` does about the webhook: use the one the
/// channel already has under the member's webhook name, or create one with
/// that name.
#[derive(Debug, Clone, PartialEq, Eq)]
pub enum MemberWebhookPlan {
    UseExisting(usize),
    Create(String),
}

/// Decides, from the names of a channel's webhooks, whether the member's
/// webhook is reused (the first one with its name) or created.
pub fn plan_member_webhook(webhook_names: &Vec<Option<String>>, member_id: u64) -> (r: MemberWebhookPlan)
    ensures
        match r {
            MemberWebhookPlan::UseExisting(i) => i < webhook_names.len()
                && is_member_webhook(webhook_names@[i as int], member_id)
                && forall|j: int| 0 <= j < i ==> !is_member_webhook(#[trigger] webhook_names@[j], member_id),
            MemberWebhookPlan::Create(name) => name@ == spec_member_webhook_name(member_id)
                && forall|j: int| 0 <= j < webhook_names.len() ==> !is_member_webhook(#[trigger] webhook_names@[j], member_id),
        },
{
    match find_member_webhook(webhook_names, member_id) {
        Some(i) => MemberWebhookPlan::UseExisting(i),
        None => MemberWebhookPlan::Create(create_member_webhook_name(member_id)),
    }
}

/// The lines of the spreading list: each target server's name on a line.
pub open spec fn spec_spread_lines(times: Seq<OtherTimes>) -> Seq<char>
    decreases times.len(),
{
    if times.len() == 0 {
        Seq::empty()
    } else {
        spec_spread_lines(times.drop_last()) + times.last().dst_server_name@ + seq!['\n']
    }
}

/// The spreading list grows by one line per target: the target server's
/// name, then a line break; an empty list has no lines.
pub proof fn law_spread_lines_one_per_target(times: Seq<OtherTimes>, t: OtherTimes)
    ensures
        spec_spread_lines(Seq::empty()) == Seq::<char>::empty(),
        spec_spread_lines(times.push(t)) == spec_spread_lines(times) + t.dst_server_name@ + seq!['\n'],
{
    assert(times.push(t).drop_last() =~= times);
}

/// The reply that lists where a member's `times` is spread to.
pub open spec fn spec_spread_list_text(times: Seq<OtherTimes>) -> Seq<char> {
    "拡散先リスト\n --------- \n```"@ + spec_spread_lines(times) + "```"@
}

/// The reply that lists where a member's `times` is spread to: a header,
/// then the name of each target server on its own line, in a code block.
pub fn spread_list_text(times: &Vec<OtherTimes>) -> (r: String)
    ensures
        r@ == spec_spread_list_text(times@),
{
    let mut response = String::new();
    response.append("拡散先リスト\n --------- \n```");
    let ghost head = response@;
    let mut i: usize = 0;
    assert(times@.take(0) =~= Seq::<OtherTimes>::empty());
    while i < times.len()
        invariant
            i <= times.len(),
            head == "拡散先リスト\n --------- \n```"@,
            response@ =~= head + spec_spread_lines(times@.take(i as int)),
        decreases times.len() - i,
    {
        assert(times@.take(i + 1).drop_last() =~= times@.take(i as int));
        response.append(times[i].dst_server_name.as_str());
        response.append("\n");
        proof {
            reveal_strlit("\n");
        }
        i = i + 1;
    }
    assert(times@.take(times.len() as int) =~= times@);
    response.append("```");
    response
}

/// The lines listing servers: each name on a line.
pub open spec fn spec_server_lines(servers: Seq<OtherServer>) -> Seq<char>
    decreases servers.len(),
{
    if servers.len() == 0 {
        Seq::empty()
    } else {
        spec_server_lines(servers.drop_last()) + servers.last().server_name@ + seq!['\n']
    }
}

/// The server list grows by one line per server: its name, then a line
/// break; an empty list has no lines.
pub proof fn law_server_lines_one_per_server(servers: Seq<OtherServer>, s: OtherServer)
    ensures
        spec_server_lines(Seq::empty()) == Seq::<char>::empty(),
        spec_server_lines(servers.push(s)) == spec_server_lines(servers) + s.server_name@ + seq!['\n'],
{
    assert(servers.push(s).drop_last() =~= servers);
}

/// The reply that lists the servers `times` can be spread to: each name on
/// its own line.
pub fn server_list_text(servers: &Vec<OtherServer>) -> (r: String)
    ensures
        r@ == spec_server_lines(servers@),
{
    let mut response = String::new();
    let mut i: usize = 0;
    assert(servers@.take(0) =~= Seq::<OtherServer>::empty());
    while i < servers.len()
        invariant
            i <= servers.len(),
            response@ =~= spec_server_lines(servers@.take(i as int)),
        decreases servers.len() - i,
    {
        assert(servers@.take(i + 1).drop_last() =~= servers@.take(i as int));
        response.append(servers[i].server_name.as_str());
        response.append("\n");
        proof {
            reveal_strlit("\n");
        }
        i = i + 1;
    }
    assert(servers@.take(servers.len() as int) =~= servers@);
    response
}

/// One line per member `times`: the member's name and id.
pub open spec fn spec_times_show_lines(all: Seq<OwnTimes>) -> Seq<char>
    decreases all.len(),
{
    if all.len() == 0 {
        Seq::empty()
    } else {
        spec_times_show_lines(all.drop_last()) + all.last().member_name@ + ": times_channel_id: "@
            + spec_decimal(all.last().member_id as nat) + seq!['\n']
    }
}

/// The list of member `times` grows by one line per record: the member's
/// name, `: times_channel_id: `, and a number that reads back as exactly the
/// member's id, then a line break.
pub proof fn law_times_show_one_line_per_member(all: Seq<OwnTimes>, t: OwnTimes)
    ensures
        spec_times_show_lines(Seq::empty()) == Seq::<char>::empty(),
        spec_times_show_lines(all.push(t)) == spec_times_show_lines(all) + t.member_name@ + ": times_channel_id: "@
            + spec_decimal(t.member_id as nat) + seq!['\n'],
        spec_parse_u64(spec_decimal(t.member_id as nat)) == Ok::<u64, ParseIntError>(t.member_id),
{
    assert(all.push(t).drop_last() =~= all);
    lemma_parse_decimal(t.member_id);
}

/// The reply that shows every member `times` registered on this server.
pub fn times_show_text(all: &Vec<OwnTimes>) -> (r: String)
    ensures
        r@ == spec_times_show_lines(all@),
{
    let mut response = String::new();
    let mut i: usize = 0;
    assert(all@.take(0) =~= Seq::<OwnTimes>::empty());
    while i < all.len()
        invariant
            i <= all.len(),
            response@ =~= spec_times_show_lines(all@.take(i as int)),
        decreases all.len() - i,
    {
        assert(all@.take(i + 1).drop_last() =~= all@.take(i as int));
        response.append(all[i].member_name.as_str());
        response.append(": times_channel_id: ");
        push_decimal(&mut response, all[i].member_id);
        response.append("\n");
        proof {
            reveal_strlit("\n");
        }
        i = i + 1;
    }
    assert(all@.take(all.len() as int) =~= all@);
    response
}

/// The name a spread post is shown under: `UT-` and the member's name.
pub fn release_username(member_name: &str) -> (r: String)
    ensures
        r@ == "UT-"@ + member_name@,
{
    let mut s = String::new();
    s.append("UT-");
    s.append(member_name);
    s
}

/// The webhooks of `member_id`'s spreading targets among `all`, in order.
pub open spec fn spec_release_urls(all: Seq<OtherTimes>, member_id: u64) -> Seq<String>
    decreases all.len(),
{
    if all.len() == 0 {
        Seq::empty()
    } else {
        let rest = spec_release_urls(all.drop_last(), member_id);
        if all.last().src_member_id == member_id {
            rest.push(all.last().dst_webhook_url)
        } else {
            rest
        }
    }
}

/// The webhooks a member's spread post is sent to: those of every stored
/// `times` of that member on another server, in store order.
pub fn release_webhook_urls(all: &Vec<OtherTimes>, member_id: u64) -> (r: Vec<String>)
    ensures
        r@ == spec_release_urls(all@, member_id),
        r@ == all@.filter(|t: OtherTimes| t.src_member_id == member_id).map_values(|t: OtherTimes| t.dst_webhook_url),
{
    let mut out: Vec<String> = Vec::new();
    let mut i: usize = 0;
    assert(all@.take(0) =~= Seq::<OtherTimes>::empty());
    while i < all.len()
        invariant
            i <= all.len(),
            out@ == spec_release_urls(all@.take(i as int), member_id),
        decreases all.len() - i,
    {
        assert(all@.take(i + 1).drop_last() =~= all@.take(i as int));
        if all[i].src_member_id == member_id {
            out.push(all[i].dst_webhook_url.clone());
        }
        i = i + 1;
    }
    assert(all@.take(all.len() as int) =~= all@);
    proof {
        law_release_urls_are_member_targets(all@, member_id);
    }
    out
}

/// A post is spread to exactly the webhooks of the member's own stored
/// `times`, in store order: every one of them, and no other.
pub proof fn law_release_urls_are_member_targets(all: Seq<OtherTimes>, member_id: u64)
    ensures
        spec_release_urls(all, member_id)
            == all.filter(|t: OtherTimes| t.src_member_id == member_id).map_values(|t: OtherTimes| t.dst_webhook_url),
    decreases all.len(),
{
    reveal(Seq::filter);
    let pred = |t: OtherTimes| t.src_member_id == member_id;
    let f = |t: OtherTimes| t.dst_webhook_url;
    if all.len() > 0 {
        law_release_urls_are_member_targets(all.drop_last(), member_id);
        let rest = all.drop_last().filter(pred);
        if pred(all.last()) {
            assert(rest.push(all.last()).map_values(f) =~= rest.map_values(f).push(f(all.last())));
        }
    } else {
        assert(all.filter(pred).map_values(f) =~= Seq::<String>::empty());
    }
}

/// The reply after setting the server up: its manage webhook and public key.
pub fn initialize_reply(manage_webhook_url: &str, public_key_pem: &str) -> (r: String)
    ensures
        r@ == "manage_webhookのURL: "@ + manage_webhook_url@ + "\n公開鍵のPEM: "@ + public_key_pem@,
{
    let mut s = String::new();
    s.append("manage_webhookのURL: ");
    s.append(manage_webhook_url);
    s.append("\n公開鍵のPEM: ");
    s.append(public_key_pem);
    s
}

/// The command another server's admin can paste to register this server as
/// a spreading target.
pub fn get_register_tmplate_str(server_name: &str, master_webhook_url: &str, guild_id: u64, public_key_pem: &str) -> (r: String)
    ensures
        r@ == "/ut_set_other_server_data server_name:"@ + server_name@ + " master_webhook_url:"@
            + master_webhook_url@ + " guild_id:"@ + spec_decimal(guild_id as nat) + " public_key_pem:"@
            + public_key_pem@,
{
    let mut s = String::new();
    s.append("/ut_set_other_server_data server_name:");
    s.append(server_name);
    s.append(" master_webhook_url:");
    s.append(master_webhook_url);
    s.append(" guild_id:");
    push_decimal(&mut s, guild_id);
    s.append(" public_key_pem:");
    s.append(public_key_pem);
    s
}

/// The prefix command another server's admin can paste to register this
/// server as a spreading target (the earlier form of the template).
pub fn get_prefix_register_template_str(server_name: &str, master_webhook_url: &str, guild_id: u64, public_key_pem: &str) -> (r: String)
    ensures
        r@ == "~UtOtherServerHook "@ + server_name@ + " "@ + master_webhook_url@ + " "@
            + spec_decimal(guild_id as nat) + " "@ + public_key_pem@,
{
    let mut s = String::new();
    s.append("~UtOtherServerHook ");
    s.append(server_name);
    s.append(" ");
    s.append(master_webhook_url);
    s.append(" ");
    push_decimal(&mut s, guild_id);
    s.append(" ");
    s.append(public_key_pem);
    s
}

/// The reply after registering another server as a spreading target.
pub fn registered_server_reply(server_name: &str, webhook_url: &str, guild_id: u64) -> (r: String)
    ensures
        r@ == "登録しました．```\nserver_name: "@ + server_name@ + ", webhook_url: "@ + webhook_url@
            + ", guild_id: "@ + spec_decimal(guild_id as nat) + "```"@,
{
    let mut s = String::new();
    s.append("登録しました．```\nserver_name: ");
    s.append(server_name);
    s.append(", webhook_url: ");
    s.append(webhook_url);
    s.append(", guild_id: ");
    push_decimal(&mut s, guild_id);
    s.append("```");
    s
}

/// What the reply about a server's master webhook shows: its webhook URL,
/// or that no server of that name is registered.
pub open spec fn spec_master_hook_shown(found: Option<OtherServer>) -> Seq<char> {
    match found {
        Some(s) => s.webhook_url@,
        None => "指定したサーバ名は登録されていません"@,
    }
}

/// The reply about a server shows that server's own webhook URL; about no
/// server, that none of that name is registered.
pub proof fn law_master_hook_shows_found_url(found: Option<OtherServer>)
    ensures
        found matches Some(s) ==> spec_master_hook_shown(found) == s.webhook_url@,
        found is None ==> spec_master_hook_shown(found) == "指定したサーバ名は登録されていません"@,
{
}

/// The reply that shows the master webhook of a server looked up by name:
/// `master_webhook: ` and, in double quotes, its webhook URL or that no
/// server of that name is registered.
pub fn master_hook_reply(found: Option<OtherServer>) -> (r: String)
    ensures
        r@ == "master_webhook: \""@ + spec_master_hook_shown(found) + "\""@,
{
    let mut t = String::new();
    t.append("master_webhook: \"");
    match found {
        Some(s) => t.append(s.webhook_url.as_str()),
        None => t.append("指定したサーバ名は登録されていません"),
    }
    t.append("\"");
    t
}

/// The reply after removing a spreading target.
pub fn deleted_server_reply(server_name: &str) -> (r: String)
    ensures
        r@ == server_name@ + "を削除しました"@,
{
    let mut s = server_name.to_owned();
    s.append("を削除しました");
    s
}

} // verus!
