//! User operations: ordering of the friends list, user lookups and
//! searches, and the decisions that enqueue their background jobs.

use vstd::prelude::*;
use vstd::multiset::Multiset;
use vstd::seq_lib::group_to_multiset_ensures;

use crate::cache::Texture;
use crate::cache::spec_get;
use crate::data::Friend;
use crate::data::OnlineStatus;
use crate::data::User;
use crate::data::UserStatus;
use crate::data::UserWindow;
use crate::data::access_level_rank;
use crate::data::access_level_rank_of;
use crate::runtime::RuntimeOnly;
use crate::threading::DataJob;

verus! {

broadcast use group_to_multiset_ensures;

/// Presence class for ordering: online users first, then present-but-away
/// ones, then offline ones.
pub open spec fn status_class(s: OnlineStatus) -> int {
    match s {
        OnlineStatus::Online => 2,
        OnlineStatus::Away => 1,
        OnlineStatus::Busy => 1,
        OnlineStatus::Offline => 0,
    }
}

/// The sort key of a status: more joinable sessions first, then more
/// present users first. Larger keys sort earlier.
pub open spec fn status_key(s: UserStatus) -> int {
    access_level_rank(s.current_session_access_level) * 3 + status_class(s.online_status)
}

/// The sort key as an executable number.
pub fn status_key_of(s: &UserStatus) -> (k: u8)
    ensures
        k as int == status_key(*s),
{
    let class: u8 = match s.online_status {
        OnlineStatus::Online => 2,
        OnlineStatus::Away => 1,
        OnlineStatus::Busy => 1,
        OnlineStatus::Offline => 0,
    };
    access_level_rank_of(s.current_session_access_level) * 3 + class
}

/// The comparator the friends list is ordered by: joinable sessions first,
/// then online users, then anyone not offline.
pub fn order_users(s1: &UserStatus, s2: &UserStatus) -> (r: core::cmp::Ordering)
    ensures
        r is Less <==> status_key(*s1) > status_key(*s2),
        r is Greater <==> status_key(*s1) < status_key(*s2),
        r is Equal <==> status_key(*s1) == status_key(*s2),
{
    let k1 = status_key_of(s1);
    let k2 = status_key_of(s2);
    if k1 > k2 {
        core::cmp::Ordering::Less
    } else if k1 < k2 {
        core::cmp::Ordering::Greater
    } else {
        core::cmp::Ordering::Equal
    }
}

/// A friends list ordered as the page shows it: keys never increase.
pub open spec fn friends_ordered(s: Seq<Friend>) -> bool {
    forall|i: int, j: int|
        0 <= i <= j < s.len() ==> status_key(#[trigger] s[i].status) >= status_key(
            #[trigger] s[j].status,
        )
}

/// Index of a friend with the largest sort key.
fn index_of_max_friend(v: &Vec<Friend>) -> (mi: usize)
    requires
        v@.len() > 0,
    ensures
        mi < v@.len(),
        forall|j: int|
            0 <= j < v@.len() ==> status_key(#[trigger] v@[j].status) <= status_key(
                v@[mi as int].status,
            ),
{
    let mut mi: usize = 0;
    let mut best = status_key_of(&v[0].status);
    let n = v.len();
    let mut i: usize = 1;
    while i < n
        invariant
            n == v@.len(),
            mi < n,
            1 <= i <= n,
            best as int == status_key(v@[mi as int].status),
            forall|j: int|
                0 <= j < i ==> status_key(#[trigger] v@[j].status) <= status_key(
                    v@[mi as int].status,
                ),
        decreases n - i,
    {
        let k = status_key_of(&v[i].status);
        if k > best {
            best = k;
            mi = i;
        }
        i = i + 1;
    }
    mi
}

/// Order the friends list: same friends, keys never increasing — what the
/// background refresh does to a freshly fetched list before sending it.
pub fn order_friends(friends: Vec<Friend>) -> (out: Vec<Friend>)
    ensures
        friends_ordered(out@),
        out@.to_multiset() == friends@.to_multiset(),
        out@.len() == friends@.len(),
{
    let mut src = friends;
    let ghost all = src@;
    let mut out: Vec<Friend> = Vec::new();
    proof {
        assert(out@.to_multiset().add(src@.to_multiset()) =~= all.to_multiset());
    }
    while src.len() > 0
        invariant
            friends_ordered(out@),
            out@.to_multiset().add(src@.to_multiset()) == all.to_multiset(),
            out@.len() + src@.len() == all.len(),
            forall|i: int, j: int|
                0 <= i < out@.len() && 0 <= j < src@.len() ==> status_key(
                    #[trigger] out@[i].status,
                ) >= status_key(#[trigger] src@[j].status),
        decreases src.len(),
    {
        let ghost src0 = src@;
        let ghost out0 = out@;
        let mi = index_of_max_friend(&src);
        let f = src.remove(mi);
        out.push(f);
        proof {
            assert(src@ =~= src0.remove(mi as int));
            assert(src@.to_multiset() =~= src0.to_multiset().remove(src0[mi as int]));
            assert(out@.to_multiset() =~= out0.to_multiset().insert(src0[mi as int]));
            assert(src0.to_multiset().count(src0[mi as int]) > 0);
            assert forall|x: Friend|
                out@.to_multiset().add(src@.to_multiset()).count(x) == all.to_multiset().count(
                    x,
                ) by {
                assert(out0.to_multiset().add(src0.to_multiset()).count(x) == all.to_multiset()
                    .count(x));
            }
            assert(out@.to_multiset().add(src@.to_multiset()) =~= all.to_multiset());
            assert forall|j: int| 0 <= j < src@.len() implies status_key(
                #[trigger] src@[j].status,
            ) <= status_key(f.status) by {
                if j < mi {
                    assert(src@[j] == src0[j]);
                } else {
                    assert(src@[j] == src0[j + 1]);
                }
            }
        }
    }
    proof {
        assert(src@.to_multiset() =~= Multiset::<Friend>::empty());
        assert(out@.to_multiset() =~= all.to_multiset());
    }
    out
}

/// The friend a user record stands for, if the friends list has them.
pub fn user_to_friend<'a>(friends: &'a Vec<Friend>, user: &User) -> (r: Option<&'a Friend>)
    ensures
        match r {
            Some(f) => exists|i: int| 0 <= i < friends@.len() && friends@[i] == *f && f.id@
                == user.id@,
            None => forall|i: int| 0 <= i < friends@.len() ==> (#[trigger] friends@[i]).id@
                != user.id@,
        },
{
    let n = friends.len();
    let mut i: usize = 0;
    while i < n
        invariant
            n == friends@.len(),
            i <= n,
            forall|j: int| 0 <= j < i ==> (#[trigger] friends@[j]).id@ != user.id@,
        decreases n - i,
    {
        if friends[i].id == user.id {
            return Some(&friends[i]);
        }
        i = i + 1;
    }
    None
}

impl RuntimeOnly {
    /// Kick off a friends refresh: only with a client at hand; marks the
    /// list loading and names the job the data lane must run.
    pub fn refresh_friends(&mut self) -> (job: Option<DataJob>)
        ensures
            (job is Some) == (old(self).neos_api is Some),
            match job {
                Some(j) => j is FetchFriends && final(self).loading == (crate::threading::Tracker {
                    friends: true,
                    ..old(self).loading
                }),
                None => final(self).loading == old(self).loading,
            },
            final(self).neos_api == old(self).neos_api,
            final(self).friends == old(self).friends,
            final(self).users == old(self).users,
            final(self).sessions == old(self).sessions,
            final(self).user_session == old(self).user_session,
            final(self).user_window == old(self).user_window,
            final(self).session_window == old(self).session_window,
            final(self).cache == old(self).cache,
            final(self).password == old(self).password,
            final(self).totp == old(self).totp,
            final(self).default_profile_picture == old(self).default_profile_picture,
    {
        match &self.neos_api {
            Some(_) => {
                self.loading.friends = true;
                Some(DataJob::FetchFriends)
            },
            None => None,
        }
    }

    /// Kick off a user search for the current filter text.
    pub fn search_users(&mut self, query: &String) -> (job: Option<DataJob>)
        ensures
            (job is Some) == (old(self).neos_api is Some),
            match job {
                Some(j) => j matches DataJob::SearchUsers { query: q } && q@ == query@
                    && final(self).loading == (crate::threading::Tracker {
                    users: true,
                    ..old(self).loading
                }),
                None => final(self).loading == old(self).loading,
            },
            final(self).neos_api == old(self).neos_api,
            final(self).user_window == old(self).user_window,
            final(self).session_window == old(self).session_window,
            final(self).cache == old(self).cache,
    {
        match &self.neos_api {
            Some(_) => {
                self.loading.users = true;
                Some(DataJob::SearchUsers { query: query.clone() })
            },
            None => None,
        }
    }

    /// Fetch the user for the user window: needs a client, and an already
    /// open window must be about this very user or the call does nothing;
    /// with no window open, one opens for this user.
    pub fn get_user(&mut self, id: &String) -> (job: Option<DataJob>)
        ensures
            (job is Some) == (old(self).neos_api is Some && (match old(self).user_window {
                Some(w) => w.id@ == id@,
                None => true,
            })),
            match job {
                Some(j) => {
                    &&& j matches DataJob::FetchUser { id: jid } && jid@ == id@
                    &&& final(self).loading == (crate::threading::Tracker {
                        user: true,
                        ..old(self).loading
                    })
                    &&& final(self).user_window == (match old(self).user_window {
                        Some(w) => Some(w),
                        None => Some(UserWindow { id: *id, user: None, status: None }),
                    })
                },
                None => final(self).loading == old(self).loading && final(self).user_window == old(
                    self,
                ).user_window,
            },
            final(self).neos_api == old(self).neos_api,
            final(self).session_window == old(self).session_window,
            final(self).cache == old(self).cache,
            final(self).friends == old(self).friends,
    {
        match &self.neos_api {
            Some(_) => {
                let open_elsewhere = match &self.user_window {
                    Some(w) => !(w.id == *id),
                    None => false,
                };
                if open_elsewhere {
                    return None;
                }
                let window_open = match &self.user_window {
                    Some(_) => true,
                    None => false,
                };
                if !window_open {
                    self.user_window = Some(
                        UserWindow { id: id.clone(), user: None, status: None },
                    );
                }
                self.loading.user = true;
                Some(DataJob::FetchUser { id: id.clone() })
            },
            None => None,
        }
    }

    /// Fetch the user status for the user window, under the same gating as
    /// the user fetch.
    pub fn get_user_status(&mut self, id: &String) -> (job: Option<DataJob>)
        ensures
            (job is Some) == (old(self).neos_api is Some && (match old(self).user_window {
                Some(w) => w.id@ == id@,
                None => true,
            })),
            match job {
                Some(j) => {
                    &&& j matches DataJob::FetchUserStatus { id: jid } && jid@ == id@
                    &&& final(self).loading == (crate::threading::Tracker {
                        user_status: true,
                        ..old(self).loading
                    })
                    &&& final(self).user_window == (match old(self).user_window {
                        Some(w) => Some(w),
                        None => Some(UserWindow { id: *id, user: None, status: None }),
                    })
                },
                None => final(self).loading == old(self).loading && final(self).user_window == old(
                    self,
                ).user_window,
            },
            final(self).neos_api == old(self).neos_api,
            final(self).session_window == old(self).session_window,
            final(self).cache == old(self).cache,
            final(self).friends == old(self).friends,
    {
        match &self.neos_api {
            Some(_) => {
                let open_elsewhere = match &self.user_window {
                    Some(w) => !(w.id == *id),
                    None => false,
                };
                if open_elsewhere {
                    return None;
                }
                let window_open = match &self.user_window {
                    Some(_) => true,
                    None => false,
                };
                if !window_open {
                    self.user_window = Some(
                        UserWindow { id: id.clone(), user: None, status: None },
                    );
                }
                self.loading.user_status = true;
                Some(DataJob::FetchUserStatus { id: id.clone() })
            },
            None => None,
        }
    }

    /// Ask for a friend to be added; the lane refreshes the friends list
    /// afterwards, so no loading flag is set here.
    pub fn add_friend(&self, id: &String) -> (job: Option<DataJob>)
        ensures
            (job is Some) == (self.neos_api is Some),
            match job {
                Some(j) => j matches DataJob::AddFriend { id: jid } && jid@ == id@,
                None => true,
            },
    {
        match &self.neos_api {
            Some(_) => Some(DataJob::AddFriend { id: id.clone() }),
            None => None,
        }
    }

    /// Ask for a friend to be removed, mirroring `add_friend`.
    pub fn remove_friend(&self, id: &String) -> (job: Option<DataJob>)
        ensures
            (job is Some) == (self.neos_api is Some),
            match job {
                Some(j) => j matches DataJob::RemoveFriend { id: jid } && jid@ == id@,
                None => true,
            },
    {
        match &self.neos_api {
            Some(_) => Some(DataJob::RemoveFriend { id: id.clone() }),
            None => None,
        }
    }

    /// The profile picture to show for a profile: the cached texture of its
    /// icon when ready, the default picture otherwise, plus the fetch job to
    /// spawn exactly when this call claimed the miss. With no icon set, the
    /// default picture and no work.
    pub fn get_pfp(&mut self, icon: &Option<(String, String)>) -> (r: (Texture, Option<DataJob>))
        requires
            old(self).wf(),
            old(self).default_profile_picture is Some,
        ensures
            final(self).wf(),
            match icon {
                Some(iu) => {
                    &&& final(self).cache@ == spec_get(old(self).cache@, iu.0@).0
                    &&& r.0 == (match spec_get(old(self).cache@, iu.0@).1 {
                        crate::cache::GetOutcome::Ready { texture } => texture,
                        _ => old(self).default_profile_picture.unwrap(),
                    })
                    &&& (r.1 is Some) == (spec_get(old(self).cache@, iu.0@).1 is StartFetch)
                    &&& match r.1 {
                        Some(job) => job matches DataJob::FetchImage { id: jid, url: jurl }
                            && jid@ == iu.0@ && jurl@ == iu.1@,
                        None => true,
                    }
                },
                None => r.0 == old(self).default_profile_picture.unwrap() && r.1 is None
                    && final(self).cache == old(self).cache,
            },
            final(self).default_profile_picture == old(self).default_profile_picture,
            final(self).neos_api == old(self).neos_api,
            final(self).loading == old(self).loading,
            final(self).user_window == old(self).user_window,
            final(self).session_window == old(self).session_window,
    {
        let fallback = match &self.default_profile_picture {
            Some(t) => *t,
            None => vstd::pervasive::unreached(),
        };
        match icon {
            Some(iu) => {
                let (hit, job) = self.load_texture(&iu.0, &iu.1);
                let shown = match hit {
                    Some(t) => t,
                    None => fallback,
                };
                (shown, job)
            },
            None => (fallback, None),
        }
    }

    /// Open the user window for a user, with whatever is already known, and
    /// fetch the missing pieces.
    pub fn open_user(
        &mut self,
        id: &String,
        user: Option<User>,
        status: Option<UserStatus>,
    ) -> (jobs: (Option<DataJob>, Option<DataJob>))
        ensures
            (jobs.0 is Some) == (final(self).neos_api is Some && user is None),
            (jobs.1 is Some) == (final(self).neos_api is Some && status is None),
            final(self).neos_api == old(self).neos_api,
            final(self).cache == old(self).cache,
    {
        let missing_user = match &user {
            Some(_) => false,
            None => true,
        };
        let missing_status = match &status {
            Some(_) => false,
            None => true,
        };
        self.user_window = Some(UserWindow { id: id.clone(), user, status });
        let job_user = if missing_user {
            self.get_user(id)
        } else {
            None
        };
        let job_status = if missing_status {
            self.get_user_status(id)
        } else {
            None
        };
        (job_user, job_status)
    }
}

} // verus!
