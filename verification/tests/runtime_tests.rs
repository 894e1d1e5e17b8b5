use peeps_core::cache::Texture;
use peeps_core::channels::Channels;
use peeps_core::channels::ReconcileBatch;
use peeps_core::data::AuthState;
use peeps_core::data::Friend;
use peeps_core::data::OnlineStatus;
use peeps_core::data::SessionAccessLevel;
use peeps_core::data::User;
use peeps_core::data::UserSession;
use peeps_core::data::UserStatus;
use peeps_core::data::UserWindow;
use peeps_core::runtime::RuntimeOnly;
use peeps_core::threading::DataJob;

fn status(level: SessionAccessLevel, online: OnlineStatus) -> UserStatus {
    UserStatus { online_status: online, current_session_access_level: level, active_sessions: Vec::new() }
}

fn friend(id: &str) -> Friend {
    Friend {
        id: id.to_string(),
        username: format!("user-{id}"),
        status: status(SessionAccessLevel::Friends, OnlineStatus::Online),
    }
}

#[test]
fn empty_batch_changes_nothing_and_asks_no_repaint() {
    let mut r = RuntimeOnly::new();
    let repaint = r.reconcile(ReconcileBatch::empty());
    assert!(!repaint);
    assert!(r.friends.is_empty());
    assert!(r.user_session.is_none());
    assert!(matches!(r.neos_api, Some(AuthState::Unauthenticated)));
}

#[test]
fn friends_result_replaces_list_and_clears_flag() {
    let mut r = RuntimeOnly::new();
    let job = r.refresh_friends();
    assert!(matches!(job, Some(DataJob::FetchFriends)));
    assert!(r.loading.friends);

    let mut batch = ReconcileBatch::empty();
    batch.friends = Some(Ok(vec![friend("u1"), friend("u2")]));
    let repaint = r.reconcile(batch);
    assert!(repaint);
    assert!(!r.loading.friends);
    assert_eq!(r.friends.len(), 2);
    assert_eq!(r.friends[0].id, "u1");
}

#[test]
fn failed_friends_result_keeps_prior_list() {
    let mut r = RuntimeOnly::new();
    let mut batch = ReconcileBatch::empty();
    batch.friends = Some(Ok(vec![friend("kept")]));
    r.reconcile(batch);

    r.loading.friends = true;
    let mut batch = ReconcileBatch::empty();
    batch.friends = Some(Err("remote error".to_string()));
    let repaint = r.reconcile(batch);
    assert!(repaint);
    assert!(!r.loading.friends);
    assert_eq!(r.friends.len(), 1);
    assert_eq!(r.friends[0].id, "kept");
}

#[test]
fn user_result_lands_only_in_matching_window() {
    let mut r = RuntimeOnly::new();
    r.user_window = Some(UserWindow { id: "u9".to_string(), user: None, status: None });

    let mut batch = ReconcileBatch::empty();
    batch.user = Some(Ok(User { id: "other".to_string(), username: "x".to_string() }));
    r.reconcile(batch);
    assert!(r.user_window.as_ref().unwrap().user.is_none());

    let mut batch = ReconcileBatch::empty();
    batch.user = Some(Ok(User { id: "u9".to_string(), username: "nine".to_string() }));
    r.reconcile(batch);
    let w = r.user_window.as_ref().unwrap();
    assert_eq!(w.user.as_ref().unwrap().username, "nine");
}

#[test]
fn login_session_message_invalidates_windows_and_stores_token() {
    let mut r = RuntimeOnly::new();
    r.user_window = Some(UserWindow { id: "u1".to_string(), user: None, status: None });

    let mut batch = ReconcileBatch::empty();
    let session = UserSession { user_id: "u1".to_string(), token: "tok".to_string() };
    batch.user_session = Some(Some(session));
    batch.auth = Some(AuthState::Authenticated {
        session: UserSession { user_id: "u1".to_string(), token: "tok".to_string() },
    });
    let repaint = r.reconcile(batch);
    assert!(repaint);
    assert!(r.user_window.is_none());
    assert_eq!(r.user_session.as_ref().unwrap().token, "tok");
    assert!(matches!(r.neos_api, Some(AuthState::Authenticated { .. })));
}

#[test]
fn image_results_flow_through_real_channels() {
    // A worker thread would do exactly this: send on the image channel;
    // the UI thread drains and reconciles.
    let mut r = RuntimeOnly::new();
    let ch = Channels::new();

    let (tex, job) = r.load_texture(&"ava".to_string(), &"https://assets/ava".to_string());
    assert!(tex.is_none());
    assert!(matches!(job, Some(DataJob::FetchImage { .. })));

    let sender = ch.image_sender();
    assert!(Channels::send_image(&sender, "ava".to_string(), Some(Texture { handle: 3 })));

    let repaint = r.try_recv(&ch, 16);
    assert!(repaint);
    let (tex, job) = r.load_texture(&"ava".to_string(), &"https://assets/ava".to_string());
    assert_eq!(tex, Some(Texture { handle: 3 }));
    assert!(job.is_none());
}

#[test]
fn drain_is_bounded_by_the_image_budget() {
    let ch = Channels::new();
    let sender = ch.image_sender();
    for i in 0..10u64 {
        assert!(Channels::send_image(&sender, format!("id-{i}"), Some(Texture { handle: i })));
    }
    let batch = ch.drain(4);
    assert_eq!(batch.images.len(), 4);
    let batch = ch.drain(100);
    assert_eq!(batch.images.len(), 6);
    let batch = ch.drain(100);
    assert!(batch.images.is_empty());
}

#[test]
fn cull_textures_is_the_sweep() {
    let mut r = RuntimeOnly::new();
    let id = "pic".to_string();
    let url = "https://assets/pic".to_string();
    let (_, job) = r.load_texture(&id, &url);
    assert!(job.is_some());
    let mut batch = ReconcileBatch::empty();
    batch.images = vec![(id.clone(), Some(Texture { handle: 5 }))];
    r.reconcile(batch);
    // The load above marked it used, so the first sweep keeps it.
    r.cull_textures();
    let (tex, _) = r.load_texture(&id, &url);
    assert_eq!(tex, Some(Texture { handle: 5 }));
    // Sweep twice with no use in between: evicted, and refetched next time.
    r.cull_textures();
    r.cull_textures();
    let (tex, job) = r.load_texture(&id, &url);
    assert!(tex.is_none());
    assert!(job.is_some());
}

#[test]
fn get_pfp_falls_back_to_default_picture() {
    let mut r = RuntimeOnly::new();
    r.default_profile_picture = Some(Texture { handle: 1 });
    let (shown, job) = r.get_pfp(&None);
    assert_eq!(shown, Texture { handle: 1 });
    assert!(job.is_none());

    let icon = Some(("icon-1".to_string(), "https://assets/icon-1".to_string()));
    let (shown, job) = r.get_pfp(&icon);
    assert_eq!(shown, Texture { handle: 1 });
    match job {
        Some(DataJob::FetchImage { id, url }) => {
            assert_eq!(id, "icon-1");
            assert_eq!(url, "https://assets/icon-1");
        },
        other => panic!("expected an image fetch job, got {other:?}"),
    }
    // Same frame, second request: deduplicated.
    let (_, job) = r.get_pfp(&icon);
    assert!(job.is_none());

    let mut batch = ReconcileBatch::empty();
    batch.images = vec![("icon-1".to_string(), Some(Texture { handle: 8 }))];
    r.reconcile(batch);
    let (shown, job) = r.get_pfp(&icon);
    assert_eq!(shown, Texture { handle: 8 });
    assert!(job.is_none());
}

#[test]
fn load_texture_requires_client_not_at_all() {
    // The asset cache works with or without an authenticated client.
    let mut r = RuntimeOnly::new();
    r.neos_api = None;
    let (tex, job) = r.load_texture(&"free".to_string(), &"u".to_string());
    assert!(tex.is_none());
    assert!(job.is_some());
}

#[test]
fn first_miss_claims_the_fetch_with_id_and_url() {
    let mut r = RuntimeOnly::new();
    let (tex, job) = r.load_texture(&"z".to_string(), &"https://assets/z".to_string());
    assert!(tex.is_none());
    match job {
        Some(DataJob::FetchImage { id, url }) => {
            assert_eq!(id, "z");
            assert_eq!(url, "https://assets/z");
        }
        _ => panic!("first miss must claim the fetch"),
    }
}
