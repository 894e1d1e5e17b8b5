//! Session operations: ordering of the sessions list, the session window
//! lookup, and finding the session a user is present in.

use vstd::prelude::*;
use vstd::multiset::Multiset;
use vstd::seq_lib::group_to_multiset_ensures;

use crate::data::SessionInfo;
use crate::data::SessionUser;
use crate::data::SessionWindow;
use crate::data::UserStatus;
use crate::runtime::RuntimeOnly;
use crate::threading::DataJob;

verus! {

broadcast use group_to_multiset_ensures;

/// A sessions list ordered as the page shows it: busier sessions first.
pub open spec fn sessions_ordered(s: Seq<SessionInfo>) -> bool {
    forall|i: int, j: int|
        0 <= i <= j < s.len() ==> (#[trigger] s[i]).active_users >= (#[trigger] s[j]).active_users
}

/// Index of a session with the most active users.
fn index_of_busiest(v: &Vec<SessionInfo>) -> (mi: usize)
    requires
        v@.len() > 0,
    ensures
        mi < v@.len(),
        forall|j: int|
            0 <= j < v@.len() ==> (#[trigger] v@[j]).active_users <= v@[mi as int].active_users,
{
    let mut mi: usize = 0;
    let mut best = v[0].active_users;
    let n = v.len();
    let mut i: usize = 1;
    while i < n
        invariant
            n == v@.len(),
            mi < n,
            1 <= i <= n,
            best == v@[mi as int].active_users,
            forall|j: int| 0 <= j < i ==> (#[trigger] v@[j]).active_users <= best,
        decreases n - i,
    {
        if v[i].active_users > best {
            best = v[i].active_users;
            mi = i;
        }
        i = i + 1;
    }
    mi
}

/// Order the sessions list by active users, busiest first: same sessions,
/// counts never increasing — what the background refresh does to a freshly
/// fetched list before sending it.
pub fn order_sessions(sessions: Vec<SessionInfo>) -> (out: Vec<SessionInfo>)
    ensures
        sessions_ordered(out@),
        out@.to_multiset() == sessions@.to_multiset(),
        out@.len() == sessions@.len(),
{
    let mut src = sessions;
    let ghost all = src@;
    let mut out: Vec<SessionInfo> = Vec::new();
    proof {
        assert(out@.to_multiset().add(src@.to_multiset()) =~= all.to_multiset());
    }
    while src.len() > 0
        invariant
            sessions_ordered(out@),
            out@.to_multiset().add(src@.to_multiset()) == all.to_multiset(),
            out@.len() + src@.len() == all.len(),
            forall|i: int, j: int|
                0 <= i < out@.len() && 0 <= j < src@.len() ==> (#[trigger] out@[i]).active_users
                    >= (#[trigger] src@[j]).active_users,
        decreases src.len(),
    {
        let ghost src0 = src@;
        let ghost out0 = out@;
        let mi = index_of_busiest(&src);
        let s = src.remove(mi);
        out.push(s);
        proof {
            assert(src@ =~= src0.remove(mi as int));
            assert(src@.to_multiset() =~= src0.to_multiset().remove(src0[mi as int]));
            assert(out@.to_multiset() =~= out0.to_multiset().insert(src0[mi as int]));
            assert(src0.to_multiset().count(src0[mi as int]) > 0);
            assert forall|x: SessionInfo|
                out@.to_multiset().add(src@.to_multiset()).count(x) == all.to_multiset().count(
                    x,
                ) by {
                assert(out0.to_multiset().add(src0.to_multiset()).count(x) == all.to_multiset()
                    .count(x));
            }
            assert(out@.to_multiset().add(src@.to_multiset()) =~= all.to_multiset());
            assert forall|j: int| 0 <= j < src@.len() implies (#[trigger] src@[j]).active_users
                <= out@[out@.len() - 1].active_users by {
                if j < mi {
                    assert(src@[j] == src0[j]);
                } else {
                    assert(src@[j] == src0[j + 1]);
                }
            }
        }
    }
    proof {
        assert(src@.to_multiset() =~= Multiset::<SessionInfo>::empty());
        assert(out@.to_multiset() =~= all.to_multiset());
    }
    out
}

/// Whether a session lists this user as present.
pub open spec fn session_lists_present(s: SessionInfo, id: Seq<char>) -> bool {
    exists|i: int|
        0 <= i < s.users@.len() && (match (#[trigger] s.users@[i]).id {
            Some(uid) => uid@ == id && s.users@[i].is_present,
            None => false,
        })
}

/// Whether one listed user entry matches an id and is present.
fn session_user_matches(u: &SessionUser, id: &String) -> (r: bool)
    ensures
        r == (match u.id {
            Some(uid) => uid@ == id@ && u.is_present,
            None => false,
        }),
{
    match &u.id {
        Some(uid) => *uid == *id && u.is_present,
        None => false,
    }
}

/// The session among a user's active sessions that the user is present in,
/// if any.
pub fn find_focused_session<'a>(id: &String, user_status: &'a UserStatus) -> (r: Option<
    &'a SessionInfo,
>)
    ensures
        match r {
            Some(s) => exists|i: int|
                0 <= i < user_status.active_sessions@.len() && user_status.active_sessions@[i]
                    == *s && session_lists_present(*s, id@),
            None => forall|i: int|
                0 <= i < user_status.active_sessions@.len() ==> !session_lists_present(
                    #[trigger] user_status.active_sessions@[i],
                    id@,
                ),
        },
{
    let n = user_status.active_sessions.len();
    let mut i: usize = 0;
    while i < n
        invariant
            n == user_status.active_sessions@.len(),
            i <= n,
            forall|j: int|
                0 <= j < i ==> !session_lists_present(
                    #[trigger] user_status.active_sessions@[j],
                    id@,
                ),
        decreases n - i,
    {
        let s = &user_status.active_sessions[i];
        let m = s.users.len();
        let mut j: usize = 0;
        let mut found = false;
        while j < m
            invariant
                m == s.users@.len(),
                j <= m,
                found ==> session_lists_present(*s, id@),
                !found ==> forall|k: int|
                    0 <= k < j ==> !(match (#[trigger] s.users@[k]).id {
                        Some(uid) => uid@ == id@ && s.users@[k].is_present,
                        None => false,
                    }),
            decreases m - j,
        {
            if session_user_matches(&s.users[j], id) {
                found = true;
                proof {
                    assert(session_lists_present(*s, id@));
                }
            }
            j = j + 1;
        }
        if found {
            return Some(s);
        }
        i = i + 1;
    }
    None
}

impl RuntimeOnly {
    /// Kick off a sessions refresh, mirroring the friends refresh.
    pub fn refresh_sessions(&mut self) -> (job: Option<DataJob>)
        ensures
            (job is Some) == (old(self).neos_api is Some),
            match job {
                Some(j) => j is FetchSessions && final(self).loading
                    == (crate::threading::Tracker { sessions: true, ..old(self).loading }),
                None => final(self).loading == old(self).loading,
            },
            final(self).neos_api == old(self).neos_api,
            final(self).sessions == old(self).sessions,
            final(self).user_window == old(self).user_window,
            final(self).session_window == old(self).session_window,
            final(self).cache == old(self).cache,
    {
        match &self.neos_api {
            Some(_) => {
                self.loading.sessions = true;
                Some(DataJob::FetchSessions)
            },
            None => None,
        }
    }

    /// Fetch the session for the session window: needs a client, and an
    /// already open window must be about this very session; with no window
    /// open, one opens for it.
    pub fn get_session(&mut self, id: &String) -> (job: Option<DataJob>)
        ensures
            (job is Some) == (old(self).neos_api is Some && (match old(self).session_window {
                Some(w) => w.id@ == id@,
                None => true,
            })),
            match job {
                Some(j) => {
                    &&& j matches DataJob::FetchSession { id: jid } && jid@ == id@
                    &&& final(self).loading == (crate::threading::Tracker {
                        session: true,
                        ..old(self).loading
                    })
                    &&& final(self).session_window == (match old(self).session_window {
                        Some(w) => Some(w),
                        None => Some(SessionWindow { id: *id, session: None }),
                    })
                },
                None => final(self).loading == old(self).loading && final(self).session_window
                    == old(self).session_window,
            },
            final(self).neos_api == old(self).neos_api,
            final(self).user_window == old(self).user_window,
            final(self).cache == old(self).cache,
    {
        match &self.neos_api {
            Some(_) => {
                let open_elsewhere = match &self.session_window {
                    Some(w) => !(w.id == *id),
                    None => false,
                };
                if open_elsewhere {
                    return None;
                }
                let window_open = match &self.session_window {
                    Some(_) => true,
                    None => false,
                };
                if !window_open {
                    self.session_window = Some(SessionWindow { id: id.clone(), session: None });
                }
                self.loading.session = true;
                Some(DataJob::FetchSession { id: id.clone() })
            },
            None => None,
        }
    }
}

} // verus!
