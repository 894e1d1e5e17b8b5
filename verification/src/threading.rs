//! Job lanes: what the UI hands to its background workers, which loading
//! flags it keeps for them, and the serialized auth lane.
//!
//! The parallel data lane runs any number of jobs at once, so nothing is
//! stated about it beyond the job values themselves. The auth lane has
//! exactly one worker: the model here is that lane's queue discipline, and
//! [`lemma_auth_lane_serialized`] is the guarantee it exists for — two
//! submitted jobs never run at the same time.

use vstd::prelude::*;

use crate::data::LoginCredentials;
use crate::data::UserSession;

verus! {

/// Which list or lookup operations have a job outstanding. Cleared by the
/// reconciliation pass when the matching result arrives.
#[derive(Clone, Copy, PartialEq, Eq, Structural, Debug)]
pub struct Tracker {
    pub friends: bool,
    pub users: bool,
    pub sessions: bool,
    pub user: bool,
    pub user_status: bool,
    pub session: bool,
}

impl Tracker {
    /// A tracker with nothing outstanding.
    pub fn new() -> (t: Tracker)
        ensures
            t == (Tracker {
                friends: false,
                users: false,
                sessions: false,
                user: false,
                user_status: false,
                session: false,
            }),
    {
        Tracker {
            friends: false,
            users: false,
            sessions: false,
            user: false,
            user_status: false,
            session: false,
        }
    }

    /// Whether any operation is still loading.
    pub fn any(&self) -> (r: bool)
        ensures
            r == (self.friends || self.users || self.sessions || self.user || self.user_status
                || self.session),
    {
        self.friends || self.users || self.sessions || self.user || self.user_status
            || self.session
    }
}

/// A unit of work for the parallel data lane. The worker performs the
/// blocking call this value names and sends the result on the matching
/// channel.
#[derive(Clone, Debug)]
pub enum DataJob {
    FetchFriends,
    FetchSessions,
    SearchUsers { query: String },
    FetchUser { id: String },
    FetchUserStatus { id: String },
    FetchSession { id: String },
    FetchImage { id: String, url: String },
    AddFriend { id: String },
    RemoveFriend { id: String },
}

/// A unit of work for the serialized auth lane.
#[derive(Clone, Debug)]
pub enum AuthJob {
    UseSession { session: UserSession },
    Login { credentials: LoginCredentials },
    /// Log out; the worker revokes this session remotely, if one was held.
    Logout { session: Option<UserSession> },
}

/// State of the single-worker auth lane: jobs waiting, and the job the one
/// worker is running, if any.
#[verifier::ext_equal]
pub struct LaneState {
    pub queued: Seq<u64>,
    pub running: Option<u64>,
}

/// The lane before anything was submitted.
pub open spec fn lane_init() -> LaneState {
    LaneState { queued: Seq::empty(), running: None }
}

/// One observable event of the auth lane.
#[derive(Clone, Copy, PartialEq, Eq, Structural, Debug)]
pub enum LaneEvent {
    /// The UI thread enqueued a job.
    Submit { job: u64 },
    /// The worker took the front of the queue and began running it.
    Start,
    /// The worker finished its current job.
    Finish,
}

/// Whether the lane can take this event: the one worker starts a job only
/// when idle and only from a non-empty queue, and finishes only what runs.
pub open spec fn lane_enabled(s: LaneState, e: LaneEvent) -> bool {
    match e {
        LaneEvent::Submit { .. } => true,
        LaneEvent::Start => s.running is None && s.queued.len() > 0,
        LaneEvent::Finish => s.running is Some,
    }
}

/// The lane state after one event.
pub open spec fn lane_step(s: LaneState, e: LaneEvent) -> LaneState {
    match e {
        LaneEvent::Submit { job } => LaneState { queued: s.queued.push(job), ..s },
        LaneEvent::Start => LaneState {
            queued: s.queued.drop_first(),
            running: Some(s.queued.first()),
        },
        LaneEvent::Finish => LaneState { running: None, ..s },
    }
}

/// The lane state after a run of events.
pub open spec fn lane_run(s: LaneState, es: Seq<LaneEvent>) -> LaneState
    decreases es.len(),
{
    if es.len() == 0 {
        s
    } else {
        lane_run(lane_step(s, es[0]), es.drop_first())
    }
}

/// Whether a run of events respects the lane's discipline throughout.
pub open spec fn lane_valid(s: LaneState, es: Seq<LaneEvent>) -> bool
    decreases es.len(),
{
    es.len() == 0 || (lane_enabled(s, es[0]) && lane_valid(lane_step(s, es[0]), es.drop_first()))
}

/// While the worker is busy, nothing can start before something finishes:
/// in a valid run from a busy lane, every start is preceded by a finish.
pub proof fn lemma_start_needs_finish(s: LaneState, es: Seq<LaneEvent>, j: int)
    requires
        lane_valid(s, es),
        s.running is Some,
        0 <= j < es.len(),
        es[j] is Start,
    ensures
        exists|m: int| 0 <= m < j && (#[trigger] es[m]) is Finish,
    decreases es.len(),
{
    let e = es[0];
    assert(lane_enabled(s, e));
    assert(j != 0);
    if e is Finish {
        assert(es[0] is Finish);
    } else {
        let s1 = lane_step(s, e);
        assert(s1.running is Some);
        assert(es.drop_first()[j - 1] == es[j]);
        lemma_start_needs_finish(s1, es.drop_first(), j - 1);
        let m = choose|m: int| 0 <= m < j - 1 && (#[trigger] es.drop_first()[m]) is Finish;
        assert(es[m + 1] == es.drop_first()[m]);
        assert(es[m + 1] is Finish);
    }
}

/// Auth serialization: the lane's one worker never overlaps two jobs. In
/// any valid run, between any two starts there is a finish — the second job
/// begins only after the first has ended.
pub proof fn lemma_auth_lane_serialized(s: LaneState, es: Seq<LaneEvent>, i: int, j: int)
    requires
        lane_valid(s, es),
        0 <= i < j < es.len(),
        es[i] is Start,
        es[j] is Start,
    ensures
        exists|m: int| i < m < j && (#[trigger] es[m]) is Finish,
    decreases es.len(),
{
    let e = es[0];
    let s1 = lane_step(s, e);
    if i == 0 {
        assert(s1.running is Some);
        assert(es.drop_first()[j - 1] == es[j]);
        lemma_start_needs_finish(s1, es.drop_first(), j - 1);
        let m = choose|m: int| 0 <= m < j - 1 && (#[trigger] es.drop_first()[m]) is Finish;
        assert(es[m + 1] == es.drop_first()[m]);
        assert(0 < m + 1 < j && es[m + 1] is Finish);
    } else {
        assert(es.drop_first()[i - 1] == es[i]);
        assert(es.drop_first()[j - 1] == es[j]);
        lemma_auth_lane_serialized(s1, es.drop_first(), i - 1, j - 1);
        let m = choose|m: int|
            i - 1 < m < j - 1 && (#[trigger] es.drop_first()[m]) is Finish;
        assert(es[m + 1] == es.drop_first()[m]);
        assert(i < m + 1 < j && es[m + 1] is Finish);
    }
}

/// The executable auth lane bookkeeping: what is queued and what runs.
pub struct AuthLane {
    queued: Vec<u64>,
    running: Option<u64>,
}

impl View for AuthLane {
    type V = LaneState;

    closed spec fn view(&self) -> LaneState {
        LaneState { queued: self.queued@, running: self.running }
    }
}

impl AuthLane {
    /// An idle lane with an empty queue.
    pub fn new() -> (l: AuthLane)
        ensures
            l@ == lane_init(),
    {
        let l = AuthLane { queued: Vec::new(), running: None };
        proof {
            assert(l@ =~= lane_init());
        }
        l
    }

    /// Enqueue a job behind whatever is already waiting.
    pub fn submit(&mut self, job: u64)
        ensures
            final(self)@ == lane_step(old(self)@, LaneEvent::Submit { job }),
    {
        self.queued.push(job);
        proof {
            assert(self@ =~= lane_step(old(self)@, LaneEvent::Submit { job }));
        }
    }

    /// If the worker is idle and a job waits, start the front job and return
    /// it; otherwise change nothing.
    pub fn start_next(&mut self) -> (r: Option<u64>)
        ensures
            lane_enabled(old(self)@, LaneEvent::Start) ==> r == Some(old(self)@.queued.first())
                && final(self)@ == lane_step(old(self)@, LaneEvent::Start),
            !lane_enabled(old(self)@, LaneEvent::Start) ==> r is None && final(self)@ == old(
                self,
            )@,
    {
        match self.running {
            Some(_) => None,
            None => {
                if self.queued.len() > 0 {
                    let job = self.queued.remove(0);
                    self.running = Some(job);
                    proof {
                        assert(self.queued@ =~= old(self)@.queued.drop_first());
                        assert(self@ =~= lane_step(old(self)@, LaneEvent::Start));
                    }
                    Some(job)
                } else {
                    None
                }
            },
        }
    }

    /// Mark the running job done, if one runs.
    pub fn finish(&mut self) -> (r: bool)
        ensures
            r == (old(self)@.running is Some),
            r ==> final(self)@ == lane_step(old(self)@, LaneEvent::Finish),
            !r ==> final(self)@ == old(self)@,
    {
        match self.running {
            Some(_) => {
                self.running = None;
                proof {
                    assert(self@ =~= lane_step(old(self)@, LaneEvent::Finish));
                }
                true
            },
            None => false,
        }
    }

    /// The job the worker is running, if any.
    pub fn current(&self) -> (r: Option<u64>)
        ensures
            r == self@.running,
    {
        self.running
    }
}

} // verus!
