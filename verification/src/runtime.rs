//! The UI-owned state and the reconciliation pass: the single point where
//! background results become visible state, once per frame, without ever
//! blocking.

use vstd::prelude::*;

use crate::cache::AssetCache;
use crate::cache::CacheModel;
use crate::cache::GetOutcome;
use crate::cache::Texture;
use crate::cache::spec_get;
use crate::cache::spec_sweep;
use crate::cache::spec_complete;
use crate::channels::Channels;
use crate::channels::ImageMsg;
use crate::channels::ReconcileBatch;
use crate::channels::Res;
use crate::channels::UserStatusMsg;
use crate::data::AuthState;
use crate::data::Friend;
use crate::data::SessionInfo;
use crate::data::SessionWindow;
use crate::data::User;
use crate::data::UserSession;
use crate::data::UserWindow;
use crate::threading::DataJob;
use crate::threading::Tracker;

verus! {

/// The cache state after applying a batch of image completions in order.
pub open spec fn images_applied(m: CacheModel, imgs: Seq<ImageMsg>) -> CacheModel
    decreases imgs.len(),
{
    if imgs.len() == 0 {
        m
    } else {
        images_applied(spec_complete(m, imgs[0].0@, imgs[0].1), imgs.drop_first())
    }
}

/// A user lookup result lands in the user window only if the window is
/// still open for that very user.
pub open spec fn apply_user_result(
    w: Option<UserWindow>,
    m: Option<Res<User>>,
) -> Option<UserWindow> {
    match m {
        Some(Ok(u)) => match w {
            Some(win) => if win.id@ == u.id@ {
                Some(UserWindow { user: Some(u), ..win })
            } else {
                Some(win)
            },
            None => None,
        },
        _ => w,
    }
}

/// A status lookup result lands in the user window only if the window is
/// still open for that very user.
pub open spec fn apply_status_result(
    w: Option<UserWindow>,
    m: Option<Res<UserStatusMsg>>,
) -> Option<UserWindow> {
    match m {
        Some(Ok(sm)) => match w {
            Some(win) => if win.id@ == sm.0@ {
                Some(UserWindow { status: Some(sm.1), ..win })
            } else {
                Some(win)
            },
            None => None,
        },
        _ => w,
    }
}

/// A session lookup result lands in the session window only if the window
/// is still open for that very session.
pub open spec fn apply_session_result(
    w: Option<SessionWindow>,
    m: Option<Res<SessionInfo>>,
) -> Option<SessionWindow> {
    match m {
        Some(Ok(s)) => match w {
            Some(win) => if win.id@ == s.id@ {
                Some(SessionWindow { session: Some(s), ..win })
            } else {
                Some(win)
            },
            None => None,
        },
        _ => w,
    }
}

/// The user window after one pass: cleared if an auth transition landed,
/// then filled by whatever lookup results arrived.
pub open spec fn user_window_after(
    w: Option<UserWindow>,
    cleared: bool,
    user: Option<Res<User>>,
    status: Option<Res<UserStatusMsg>>,
) -> Option<UserWindow> {
    apply_status_result(
        apply_user_result(
            if cleared {
                None
            } else {
                w
            },
            user,
        ),
        status,
    )
}

/// The session window after one pass.
pub open spec fn session_window_after(
    w: Option<SessionWindow>,
    cleared: bool,
    session: Option<Res<SessionInfo>>,
) -> Option<SessionWindow> {
    apply_session_result(
        if cleared {
            None
        } else {
            w
        },
        session,
    )
}

/// Everything the UI thread owns and the core maintains between frames.
pub struct RuntimeOnly {
    pub password: String,
    pub totp: String,
    pub default_profile_picture: Option<Texture>,
    /// The remote-service client state; `None` exactly while an auth-lane
    /// job holds it.
    pub neos_api: Option<AuthState>,
    pub friends: Vec<Friend>,
    /// Searched users.
    pub users: Vec<User>,
    pub sessions: Vec<SessionInfo>,
    /// The session token that persists across runs.
    pub user_session: Option<UserSession>,
    pub user_window: Option<UserWindow>,
    pub session_window: Option<SessionWindow>,
    pub cache: AssetCache,
    pub loading: Tracker,
}

impl RuntimeOnly {
    /// The cache's association lists are duplicate-free.
    pub open spec fn wf(&self) -> bool {
        self.cache.wf()
    }

    /// Fresh state: an unauthenticated client, empty collections, an empty
    /// cache, nothing loading.
    pub fn new() -> (r: RuntimeOnly)
        ensures
            r.wf(),
            r.neos_api == Some(AuthState::Unauthenticated),
            r.friends@ == Seq::<Friend>::empty(),
            r.users@ == Seq::<User>::empty(),
            r.sessions@ == Seq::<SessionInfo>::empty(),
            r.user_session is None,
            r.user_window is None,
            r.session_window is None,
            r.cache@ == CacheModel::init(),
            r.loading == (Tracker {
                friends: false,
                users: false,
                sessions: false,
                user: false,
                user_status: false,
                session: false,
            }),
            r.default_profile_picture is None,
    {
        let r = RuntimeOnly {
            password: String::new(),
            totp: String::new(),
            default_profile_picture: None,
            neos_api: Some(AuthState::Unauthenticated),
            friends: Vec::new(),
            users: Vec::new(),
            sessions: Vec::new(),
            user_session: None,
            user_window: None,
            session_window: None,
            cache: AssetCache::new(),
            loading: Tracker::new(),
        };
        proof {
            assert(r.friends@ =~= Seq::<Friend>::empty());
            assert(r.users@ =~= Seq::<User>::empty());
            assert(r.sessions@ =~= Seq::<SessionInfo>::empty());
        }
        r
    }

    /// Apply the auth-lane results: a finished transition replaces the
    /// taken client, and a login-session message replaces the stored token
    /// and invalidates both detail windows, which may reference a stale
    /// authentication context.
    fn apply_auth_msgs(
        &mut self,
        auth: Option<AuthState>,
        user_session: Option<Option<UserSession>>,
    ) -> (got: bool)
        ensures
            got == (auth is Some || user_session is Some),
            final(self).neos_api == (match auth {
                Some(a) => Some(a),
                None => old(self).neos_api,
            }),
            final(self).user_session == (match user_session {
                Some(us) => us,
                None => old(self).user_session,
            }),
            final(self).user_window == (if user_session is Some {
                None
            } else {
                old(self).user_window
            }),
            final(self).session_window == (if user_session is Some {
                None
            } else {
                old(self).session_window
            }),
            final(self).password == old(self).password,
            final(self).totp == old(self).totp,
            final(self).default_profile_picture == old(self).default_profile_picture,
            final(self).friends == old(self).friends,
            final(self).users == old(self).users,
            final(self).sessions == old(self).sessions,
            final(self).cache == old(self).cache,
            final(self).loading == old(self).loading,
    {
        let mut got = false;
        match user_session {
            Some(us) => {
                self.user_session = us;
                self.user_window = None;
                self.session_window = None;
                got = true;
            },
            None => {},
        }
        match auth {
            Some(a) => {
                self.neos_api = Some(a);
                got = true;
            },
            None => {},
        }
        got
    }

    /// Apply the list-refresh results: success replaces the collection,
    /// failure leaves prior data on screen; either way the loading flag
    /// clears.
    fn apply_list_msgs(
        &mut self,
        friends: Option<Res<Vec<Friend>>>,
        users: Option<Res<Vec<User>>>,
        sessions: Option<Res<Vec<SessionInfo>>>,
    ) -> (got: bool)
        ensures
            got == (friends is Some || users is Some || sessions is Some),
            final(self).friends == (match friends {
                Some(Ok(f)) => f,
                _ => old(self).friends,
            }),
            final(self).users == (match users {
                Some(Ok(u)) => u,
                _ => old(self).users,
            }),
            final(self).sessions == (match sessions {
                Some(Ok(s)) => s,
                _ => old(self).sessions,
            }),
            final(self).loading == (Tracker {
                friends: if friends is Some {
                    false
                } else {
                    old(self).loading.friends
                },
                users: if users is Some {
                    false
                } else {
                    old(self).loading.users
                },
                sessions: if sessions is Some {
                    false
                } else {
                    old(self).loading.sessions
                },
                ..old(self).loading
            }),
            final(self).password == old(self).password,
            final(self).totp == old(self).totp,
            final(self).default_profile_picture == old(self).default_profile_picture,
            final(self).neos_api == old(self).neos_api,
            final(self).user_session == old(self).user_session,
            final(self).user_window == old(self).user_window,
            final(self).session_window == old(self).session_window,
            final(self).cache == old(self).cache,
    {
        let mut got = false;
        match friends {
            Some(res) => {
                self.loading.friends = false;
                match res {
                    Ok(f) => {
                        self.friends = f;
                    },
                    Err(_) => {},
                }
                got = true;
            },
            None => {},
        }
        match users {
            Some(res) => {
                self.loading.users = false;
                match res {
                    Ok(u) => {
                        self.users = u;
                    },
                    Err(_) => {},
                }
                got = true;
            },
            None => {},
        }
        match sessions {
            Some(res) => {
                self.loading.sessions = false;
                match res {
                    Ok(s) => {
                        self.sessions = s;
                    },
                    Err(_) => {},
                }
                got = true;
            },
            None => {},
        }
        got
    }

    /// Apply the detail-window lookup results: each lands only in a window
    /// still open for the same id; the loading flags clear regardless.
    fn apply_window_msgs(
        &mut self,
        user: Option<Res<User>>,
        user_status: Option<Res<UserStatusMsg>>,
        session: Option<Res<SessionInfo>>,
    ) -> (got: bool)
        ensures
            got == (user is Some || user_status is Some || session is Some),
            final(self).user_window == apply_status_result(
                apply_user_result(old(self).user_window, user),
                user_status,
            ),
            final(self).session_window == apply_session_result(
                old(self).session_window,
                session,
            ),
            final(self).loading == (Tracker {
                user: if user is Some {
                    false
                } else {
                    old(self).loading.user
                },
                user_status: if user_status is Some {
                    false
                } else {
                    old(self).loading.user_status
                },
                session: if session is Some {
                    false
                } else {
                    old(self).loading.session
                },
                ..old(self).loading
            }),
            final(self).password == old(self).password,
            final(self).totp == old(self).totp,
            final(self).default_profile_picture == old(self).default_profile_picture,
            final(self).neos_api == old(self).neos_api,
            final(self).friends == old(self).friends,
            final(self).users == old(self).users,
            final(self).sessions == old(self).sessions,
            final(self).user_session == old(self).user_session,
            final(self).cache == old(self).cache,
    {
        let mut got = false;
        match user {
            Some(res) => {
                self.loading.user = false;
                match res {
                    Ok(u) => {
                        let matches_window = match &self.user_window {
                            Some(win) => win.id == u.id,
                            None => false,
                        };
                        if matches_window {
                            match &mut self.user_window {
                                Some(win) => {
                                    win.user = Some(u);
                                },
                                None => {},
                            }
                        }
                    },
                    Err(_) => {},
                }
                got = true;
            },
            None => {},
        }
        match user_status {
            Some(res) => {
                self.loading.user_status = false;
                match res {
                    Ok(sm) => {
                        let (uid, status) = sm;
                        let matches_window = match &self.user_window {
                            Some(win) => win.id == uid,
                            None => false,
                        };
                        if matches_window {
                            match &mut self.user_window {
                                Some(win) => {
                                    win.status = Some(status);
                                },
                                None => {},
                            }
                        }
                    },
                    Err(_) => {},
                }
                got = true;
            },
            None => {},
        }
        match session {
            Some(res) => {
                self.loading.session = false;
                match res {
                    Ok(s) => {
                        let matches_window = match &self.session_window {
                            Some(win) => win.id == s.id,
                            None => false,
                        };
                        if matches_window {
                            match &mut self.session_window {
                                Some(win) => {
                                    win.session = Some(s);
                                },
                                None => {},
                            }
                        }
                    },
                    Err(_) => {},
                }
                got = true;
            },
            None => {},
        }
        got
    }

    /// Apply a batch of image completions to the cache, in arrival order.
    fn apply_image_msgs(&mut self, imgs: Vec<ImageMsg>) -> (got: bool)
        requires
            old(self).wf(),
        ensures
            final(self).wf(),
            got == (imgs@.len() > 0),
            final(self).cache@ == images_applied(old(self).cache@, imgs@),
            final(self).password == old(self).password,
            final(self).totp == old(self).totp,
            final(self).default_profile_picture == old(self).default_profile_picture,
            final(self).neos_api == old(self).neos_api,
            final(self).friends == old(self).friends,
            final(self).users == old(self).users,
            final(self).sessions == old(self).sessions,
            final(self).user_session == old(self).user_session,
            final(self).user_window == old(self).user_window,
            final(self).session_window == old(self).session_window,
            final(self).loading == old(self).loading,
    {
        let ghost mid = *self;
        let n = imgs.len();
        let mut i: usize = 0;
        proof {
            assert(imgs@.skip(0) =~= imgs@);
        }
        while i < n
            invariant
                n == imgs@.len(),
                i <= n,
                self.cache.wf(),
                images_applied(self.cache@, imgs@.skip(i as int)) == images_applied(
                    mid.cache@,
                    imgs@,
                ),
                self.password == mid.password,
                self.totp == mid.totp,
                self.default_profile_picture == mid.default_profile_picture,
                self.neos_api == mid.neos_api,
                self.friends == mid.friends,
                self.users == mid.users,
                self.sessions == mid.sessions,
                self.user_session == mid.user_session,
                self.user_window == mid.user_window,
                self.session_window == mid.session_window,
                self.loading == mid.loading,
            decreases n - i,
        {
            let ghost before = self.cache@;
            let (id, tex) = (&imgs[i].0, imgs[i].1);
            self.cache.complete(id, tex);
            proof {
                assert(imgs@.skip(i as int)[0] == imgs@[i as int]);
                assert(imgs@.skip(i as int).drop_first() =~= imgs@.skip(i as int + 1));
                assert(images_applied(before, imgs@.skip(i as int)) == images_applied(
                    spec_complete(before, imgs@[i as int].0@, imgs@[i as int].1),
                    imgs@.skip(i as int + 1),
                ));
            }
            i = i + 1;
        }
        proof {
            assert(imgs@.skip(n as int) =~= Seq::<ImageMsg>::empty());
        }
        n > 0
    }

    /// What one reconciliation of a batch does to the state: every clause of
    /// [`RuntimeOnly::reconcile`]'s contract, as a single relation between
    /// the state before, the state after, the batch, and the repaint answer.
    pub open spec fn spec_reconciled(
        pre: RuntimeOnly,
        post: RuntimeOnly,
        batch: ReconcileBatch,
        repaint: bool,
    ) -> bool {
        &&& post.neos_api == (match batch.auth {
            Some(a) => Some(a),
            None => pre.neos_api,
        })
        &&& post.user_session == (match batch.user_session {
            Some(us) => us,
            None => pre.user_session,
        })
        &&& post.friends == (match batch.friends {
            Some(Ok(f)) => f,
            _ => pre.friends,
        })
        &&& post.users == (match batch.users {
            Some(Ok(u)) => u,
            _ => pre.users,
        })
        &&& post.sessions == (match batch.sessions {
            Some(Ok(s)) => s,
            _ => pre.sessions,
        })
        &&& post.loading == (Tracker {
            friends: if batch.friends is Some {
                false
            } else {
                pre.loading.friends
            },
            users: if batch.users is Some {
                false
            } else {
                pre.loading.users
            },
            sessions: if batch.sessions is Some {
                false
            } else {
                pre.loading.sessions
            },
            user: if batch.user is Some {
                false
            } else {
                pre.loading.user
            },
            user_status: if batch.user_status is Some {
                false
            } else {
                pre.loading.user_status
            },
            session: if batch.session is Some {
                false
            } else {
                pre.loading.session
            },
        })
        &&& post.user_window == user_window_after(
            pre.user_window,
            batch.user_session is Some,
            batch.user,
            batch.user_status,
        )
        &&& post.session_window == session_window_after(
            pre.session_window,
            batch.user_session is Some,
            batch.session,
        )
        &&& post.cache@ == images_applied(pre.cache@, batch.images@)
        &&& post.password == pre.password
        &&& post.totp == pre.totp
        &&& post.default_profile_picture == pre.default_profile_picture
        &&& repaint == batch.any_message()
    }

    /// The reconciliation pass over one drained batch: apply every received
    /// result to the state exactly as specified, and report whether a
    /// repaint is owed — exactly when anything at all was received.
    pub fn reconcile(&mut self, batch: ReconcileBatch) -> (repaint: bool)
        requires
            old(self).wf(),
        ensures
            final(self).wf(),
            final(self).neos_api == (match batch.auth {
                Some(a) => Some(a),
                None => old(self).neos_api,
            }),
            final(self).user_session == (match batch.user_session {
                Some(us) => us,
                None => old(self).user_session,
            }),
            final(self).friends == (match batch.friends {
                Some(Ok(f)) => f,
                _ => old(self).friends,
            }),
            final(self).users == (match batch.users {
                Some(Ok(u)) => u,
                _ => old(self).users,
            }),
            final(self).sessions == (match batch.sessions {
                Some(Ok(s)) => s,
                _ => old(self).sessions,
            }),
            final(self).loading.friends == (if batch.friends is Some {
                false
            } else {
                old(self).loading.friends
            }),
            final(self).loading.users == (if batch.users is Some {
                false
            } else {
                old(self).loading.users
            }),
            final(self).loading.sessions == (if batch.sessions is Some {
                false
            } else {
                old(self).loading.sessions
            }),
            final(self).loading.user == (if batch.user is Some {
                false
            } else {
                old(self).loading.user
            }),
            final(self).loading.user_status == (if batch.user_status is Some {
                false
            } else {
                old(self).loading.user_status
            }),
            final(self).loading.session == (if batch.session is Some {
                false
            } else {
                old(self).loading.session
            }),
            final(self).user_window == user_window_after(
                old(self).user_window,
                batch.user_session is Some,
                batch.user,
                batch.user_status,
            ),
            final(self).session_window == session_window_after(
                old(self).session_window,
                batch.user_session is Some,
                batch.session,
            ),
            final(self).cache@ == images_applied(old(self).cache@, batch.images@),
            final(self).password == old(self).password,
            final(self).totp == old(self).totp,
            final(self).default_profile_picture == old(self).default_profile_picture,
            repaint == batch.any_message(),
            RuntimeOnly::spec_reconciled(*old(self), *final(self), batch, repaint),
    {
        let got_auth = self.apply_auth_msgs(batch.auth, batch.user_session);
        let got_lists = self.apply_list_msgs(batch.friends, batch.users, batch.sessions);
        let got_windows = self.apply_window_msgs(batch.user, batch.user_status, batch.session);
        let got_images = self.apply_image_msgs(batch.images);
        got_auth || got_lists || got_windows || got_images
    }


    /// Drain every channel non-blockingly and reconcile what arrived.
    /// Invoked once at the start of each UI frame. Whatever the channels
    /// held, the state changes by exactly one reconciliation of one batch,
    /// with no more image completions than the budget allows.
    pub fn try_recv(&mut self, channels: &Channels, image_budget: usize) -> (repaint: bool)
        requires
            old(self).wf(),
        ensures
            final(self).wf(),
            exists|batch: ReconcileBatch|
                #[trigger] RuntimeOnly::spec_reconciled(*old(self), *final(self), batch, repaint)
                    && batch.images@.len() <= image_budget,
    {
        let batch = channels.drain(image_budget);
        let ghost gb = batch;
        let repaint = self.reconcile(batch);
        proof {
            assert(RuntimeOnly::spec_reconciled(*old(self), *self, gb, repaint) && gb.images@.len()
                <= image_budget);
        }
        repaint
    }

    /// `get` at the runtime level: mark the asset used; hand back its ready
    /// texture, or, exactly when this call claims the miss, the fetch job
    /// the caller must spawn on the data lane.
    pub fn load_texture(&mut self, id: &String, url: &String) -> (r: (
        Option<Texture>,
        Option<DataJob>,
    ))
        requires
            old(self).wf(),
        ensures
            final(self).wf(),
            final(self).cache@ == spec_get(old(self).cache@, id@).0,
            r.0 == (match spec_get(old(self).cache@, id@).1 {
                GetOutcome::Ready { texture } => Some(texture),
                _ => None::<Texture>,
            }),
            (r.1 is Some) == (spec_get(old(self).cache@, id@).1 is StartFetch),
            match r.1 {
                Some(job) => job matches DataJob::FetchImage { id: jid, url: jurl } && jid@ == id@
                    && jurl@ == url@,
                None => true,
            },
            final(self).password == old(self).password,
            final(self).totp == old(self).totp,
            final(self).default_profile_picture == old(self).default_profile_picture,
            final(self).neos_api == old(self).neos_api,
            final(self).friends == old(self).friends,
            final(self).users == old(self).users,
            final(self).sessions == old(self).sessions,
            final(self).user_session == old(self).user_session,
            final(self).user_window == old(self).user_window,
            final(self).session_window == old(self).session_window,
            final(self).loading == old(self).loading,
    {
        match self.cache.get(id) {
            GetOutcome::Ready { texture } => (Some(texture), None),
            GetOutcome::AlreadyPending => (None, None),
            GetOutcome::StartFetch => (
                None,
                Some(DataJob::FetchImage { id: id.clone(), url: url.clone() }),
            ),
        }
    }

    /// The eviction sweep, on the periodic refresh cadence: drop every
    /// texture not requested since the previous sweep.
    pub fn cull_textures(&mut self)
        requires
            old(self).wf(),
        ensures
            final(self).wf(),
            final(self).cache@ == spec_sweep(old(self).cache@),
            final(self).password == old(self).password,
            final(self).totp == old(self).totp,
            final(self).default_profile_picture == old(self).default_profile_picture,
            final(self).neos_api == old(self).neos_api,
            final(self).friends == old(self).friends,
            final(self).users == old(self).users,
            final(self).sessions == old(self).sessions,
            final(self).user_session == old(self).user_session,
            final(self).user_window == old(self).user_window,
            final(self).session_window == old(self).session_window,
            final(self).loading == old(self).loading,
    {
        self.cache.sweep();
    }
}

} // verus!
