use ubiquitimes::other_server::{OtherServer, OtherTimes};
use ubiquitimes::other_server_repository::{
    other_server_from_delete, OtherServerRepositoryError,
    other_server_key, other_times_key, plan_other_times_delete, select_by_guild_id, select_other_times,
    times_data, times_matching, times_of_member, OtherTimesKv,
};
use ubiquitimes::own_server::{OwnServer, OwnTimes};
use ubiquitimes::own_server_repository::{
    own_server_from_delete, own_server_from_read, own_times_key, own_times_record_key, OwnServerRepositoryError,
    OWN_SERVER_KEY,
};

fn kv(t: &OtherTimes) -> OtherTimesKv {
    OtherTimesKv::from_other_times(t.clone())
}

#[test]
fn sled_other_times_repository_upsert_get() {
    let other_times = OtherTimes::new(1, "server_name", 2, 3, "webhook_url");
    let table = vec![kv(&other_times)];
    let get = select_other_times(&table, "server_name", 1).unwrap();
    assert_eq!(other_times, get);
}

#[test]
fn sled_other_times_repository_upsert_get_all() {
    let other_times1 = OtherTimes::new(1, "server_name", 2, 3, "webhook_url");
    let other_times2 = OtherTimes::new(4, "server_name2", 5, 6, "webhook_url2");
    let table = vec![kv(&other_times1), kv(&other_times2)];
    let get = times_data(&table);
    assert_eq!(vec![other_times1, other_times2], get);
}

#[test]
fn other_times_keys() {
    assert_eq!(other_times_key(1, 2), "1_2");
    assert_eq!(other_times_key(12, 3), "12_3");
    assert_ne!(other_times_key(1, 23), other_times_key(12, 3));
    let t = OtherTimes::new(42, "s", 7, 8, "u");
    assert_eq!(kv(&t).key, "42_7");
    assert_eq!(kv(&t).other_times_data, t);
}

#[test]
fn lookup_takes_first_match_in_table_order() {
    let a = OtherTimes::new(1, "srv", 2, 3, "url-a");
    let b = OtherTimes::new(1, "srv", 9, 4, "url-b");
    let c = OtherTimes::new(5, "srv", 2, 6, "url-c");
    let d = OtherTimes::new(1, "other", 2, 7, "url-d");
    let table = vec![kv(&a), kv(&b), kv(&c), kv(&d)];
    assert_eq!(select_other_times(&table, "srv", 1), Some(a.clone()));
    assert_eq!(times_matching(&table, "srv", 1), vec![a.clone(), b.clone()]);
    assert_eq!(times_of_member(&table, 1), vec![a.clone(), b.clone(), d.clone()]);
    assert_eq!(select_other_times(&table, "nothing", 1), None);
    assert_eq!(select_other_times(&table, "srv", 77), None);
}

#[test]
fn delete_plans_first_match() {
    let a = OtherTimes::new(1, "srv", 2, 3, "url-a");
    let b = OtherTimes::new(1, "srv", 9, 4, "url-b");
    let table = vec![kv(&a), kv(&b)];
    let planned = plan_other_times_delete(&table, "srv", 1).unwrap();
    assert_eq!(planned.key, "1_2");
    assert_eq!(planned.other_times_data, a);
    assert_eq!(plan_other_times_delete(&table, "srv", 2), None);
}

#[test]
fn servers_by_guild_id() {
    let a = OtherServer::new(10, "a", "https://a", "pem-a");
    let b = OtherServer::new(20, "b", "https://b", "pem-b");
    let c = OtherServer::new(10, "c", "https://c", "pem-c");
    let all = vec![a.clone(), b.clone(), c.clone()];
    assert_eq!(select_by_guild_id(&all, 10), Some(a.clone()));
    assert_eq!(select_by_guild_id(&all, 20), Some(b.clone()));
    assert_eq!(select_by_guild_id(&all, 30), None);
    assert_eq!(select_by_guild_id(&Vec::new(), 10), None);
    assert_eq!(other_server_key(&a), "a");
}

#[test]
fn own_server_single_record() {
    let s = OwnServer::new(1, "name", 2, "https://w", "priv", "pub");
    assert_eq!(own_server_from_read(Some(s.clone())), Ok(s.clone()));
    assert_eq!(own_server_from_read(None), Err(OwnServerRepositoryError::NotRegistered));
    assert_eq!(own_server_from_delete(Some(s.clone())), Ok(s));
    assert_eq!(own_server_from_delete(None), Err(OwnServerRepositoryError::NothingToDelete));
    assert_eq!(OWN_SERVER_KEY, "OwnServer");
}

#[test]
fn own_times_keys() {
    assert_eq!(own_times_key(123456789012345), "123456789012345");
    let t = OwnTimes::new(77, "member", 5, "https://hook");
    assert_eq!(own_times_record_key(&t), "77");
}

#[test]
fn deleting_unknown_server_is_an_error() {
    let srv = OtherServer::new(1, "a", "w", "p");
    assert_eq!(other_server_from_delete(Some(srv.clone()), "a"), Ok(srv));
    assert_eq!(other_server_from_delete(None, "zzz"), Err(OtherServerRepositoryError::NotFound("zzz".to_string())));
}
