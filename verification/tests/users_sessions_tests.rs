use std::cmp::Ordering;

use peeps_core::data::Friend;
use peeps_core::data::OnlineStatus;
use peeps_core::data::SessionAccessLevel;
use peeps_core::data::SessionInfo;
use peeps_core::data::SessionUser;
use peeps_core::data::User;
use peeps_core::data::UserStatus;
use peeps_core::runtime::RuntimeOnly;
use peeps_core::sessions::find_focused_session;
use peeps_core::sessions::order_sessions;
use peeps_core::threading::DataJob;
use peeps_core::users::order_friends;
use peeps_core::users::order_users;
use peeps_core::users::user_to_friend;

fn status(level: SessionAccessLevel, online: OnlineStatus) -> UserStatus {
    UserStatus { online_status: online, current_session_access_level: level, active_sessions: Vec::new() }
}

fn friend(id: &str, level: SessionAccessLevel, online: OnlineStatus) -> Friend {
    Friend { id: id.to_string(), username: id.to_string(), status: status(level, online) }
}

fn session(id: &str, active: u32) -> SessionInfo {
    SessionInfo { id: id.to_string(), name: id.to_string(), active_users: active, users: Vec::new() }
}

#[test]
fn comparator_prefers_joinable_then_online() {
    // A more open session wins regardless of presence.
    let a = status(SessionAccessLevel::Anyone, OnlineStatus::Offline);
    let b = status(SessionAccessLevel::Private, OnlineStatus::Online);
    assert_eq!(order_users(&a, &b), Ordering::Less);
    assert_eq!(order_users(&b, &a), Ordering::Greater);

    // Same openness: online beats away, away beats offline.
    let on = status(SessionAccessLevel::Friends, OnlineStatus::Online);
    let away = status(SessionAccessLevel::Friends, OnlineStatus::Away);
    let busy = status(SessionAccessLevel::Friends, OnlineStatus::Busy);
    let off = status(SessionAccessLevel::Friends, OnlineStatus::Offline);
    assert_eq!(order_users(&on, &away), Ordering::Less);
    assert_eq!(order_users(&away, &off), Ordering::Less);
    assert_eq!(order_users(&away, &busy), Ordering::Equal);
    assert_eq!(order_users(&off, &on), Ordering::Greater);
}

#[test]
fn friends_sort_by_key_descending() {
    let list = vec![
        friend("offline", SessionAccessLevel::Friends, OnlineStatus::Offline),
        friend("online", SessionAccessLevel::Friends, OnlineStatus::Online),
        friend("open", SessionAccessLevel::Anyone, OnlineStatus::Online),
        friend("away", SessionAccessLevel::Friends, OnlineStatus::Away),
    ];
    let sorted = order_friends(list);
    let ids: Vec<&str> = sorted.iter().map(|f| f.id.as_str()).collect();
    assert_eq!(ids, vec!["open", "online", "away", "offline"]);
}

#[test]
fn sessions_sort_by_active_users_descending() {
    let list = vec![session("s1", 2), session("s2", 9), session("s3", 0), session("s4", 9)];
    let sorted = order_sessions(list);
    let counts: Vec<u32> = sorted.iter().map(|s| s.active_users).collect();
    assert_eq!(counts, vec![9, 9, 2, 0]);
    assert_eq!(sorted.len(), 4);
}

#[test]
fn user_to_friend_finds_by_id() {
    let friends = vec![
        friend("a", SessionAccessLevel::Friends, OnlineStatus::Online),
        friend("b", SessionAccessLevel::Friends, OnlineStatus::Away),
    ];
    let u = User { id: "b".to_string(), username: "someone".to_string() };
    let f = user_to_friend(&friends, &u).expect("b is a friend");
    assert_eq!(f.id, "b");
    let stranger = User { id: "zz".to_string(), username: "x".to_string() };
    assert!(user_to_friend(&friends, &stranger).is_none());
}

#[test]
fn find_focused_session_needs_presence() {
    let mut s1 = session("s1", 3);
    s1.users = vec![SessionUser { id: Some("u1".to_string()), is_present: false }];
    let mut s2 = session("s2", 5);
    s2.users = vec![
        SessionUser { id: None, is_present: true },
        SessionUser { id: Some("u1".to_string()), is_present: true },
    ];
    let st = UserStatus {
        online_status: OnlineStatus::Online,
        current_session_access_level: SessionAccessLevel::Friends,
        active_sessions: vec![s1, s2],
    };
    let focused = find_focused_session(&"u1".to_string(), &st).expect("present in s2");
    assert_eq!(focused.id, "s2");
    assert!(find_focused_session(&"u2".to_string(), &st).is_none());
}

#[test]
fn user_window_gating_on_lookups() {
    let mut r = RuntimeOnly::new();
    // No window open: the lookup opens one.
    let job = r.get_user(&"u7".to_string());
    assert!(matches!(job, Some(DataJob::FetchUser { .. })));
    assert_eq!(r.user_window.as_ref().unwrap().id, "u7");
    assert!(r.loading.user);
    // A window open for someone else suppresses the lookup.
    let job = r.get_user(&"other".to_string());
    assert!(job.is_none());
    // The same user's status lookup goes through.
    let job = r.get_user_status(&"u7".to_string());
    assert!(matches!(job, Some(DataJob::FetchUserStatus { .. })));
}

#[test]
fn session_window_gating_on_lookups() {
    let mut r = RuntimeOnly::new();
    let job = r.get_session(&"s1".to_string());
    assert!(matches!(job, Some(DataJob::FetchSession { .. })));
    assert_eq!(r.session_window.as_ref().unwrap().id, "s1");
    assert!(r.loading.session);
    assert!(r.get_session(&"s2".to_string()).is_none());
}

#[test]
fn friend_requests_need_a_client() {
    let mut r = RuntimeOnly::new();
    assert!(matches!(r.add_friend(&"u".to_string()), Some(DataJob::AddFriend { .. })));
    assert!(matches!(r.remove_friend(&"u".to_string()), Some(DataJob::RemoveFriend { .. })));
    r.neos_api = None;
    assert!(r.add_friend(&"u".to_string()).is_none());
    assert!(r.remove_friend(&"u".to_string()).is_none());
    assert!(r.search_users(&"q".to_string()).is_none());
}

#[test]
fn open_user_fetches_only_whats_missing() {
    let mut r = RuntimeOnly::new();
    let u = User { id: "u1".to_string(), username: "one".to_string() };
    let (ju, js) = r.open_user(&"u1".to_string(), Some(u), None);
    assert!(ju.is_none());
    assert!(matches!(js, Some(DataJob::FetchUserStatus { .. })));
}
