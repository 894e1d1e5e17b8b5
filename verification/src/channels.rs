//! Result channels: one multi-producer/single-consumer channel per
//! operation kind, carrying each completed background job's result to the
//! UI thread. Sends never block (the channels are unbounded) and receives
//! never block (the UI thread only polls).
//!
//! The channels themselves are crossbeam's; what a worker on another thread
//! has sent is outside any one call's control, so the wrappers promise
//! nothing about message values. Everything the core does with a received
//! message is in [`crate::runtime`], verified for every possible message.

use vstd::prelude::*;

use crossbeam::channel::Receiver;
use crossbeam::channel::Sender;

use crate::cache::Texture;
use crate::data::AuthState;
use crate::data::Friend;
use crate::data::SessionInfo;
use crate::data::User;
use crate::data::UserSession;
use crate::data::UserStatus;

verus! {

#[verifier::external_type_specification]
#[verifier::external_body]
#[verifier::reject_recursive_types(T)]
pub struct ExSender<T>(Sender<T>);

#[verifier::external_type_specification]
#[verifier::external_body]
#[verifier::reject_recursive_types(T)]
pub struct ExReceiver<T>(Receiver<T>);

/// Relies on crossbeam's `unbounded`: a fresh channel of unbounded
/// capacity, as a sender/receiver pair.
#[verifier::external_body]
fn channel_pair<T>() -> (Sender<T>, Receiver<T>) {
    crossbeam::channel::unbounded()
}

/// Relies on crossbeam's `Sender::send`: on an unbounded channel it never
/// blocks; it fails only when every receiver is gone.
#[verifier::external_body]
fn send_msg<T>(s: &Sender<T>, msg: T) -> (ok: bool) {
    s.send(msg).is_ok()
}

/// Relies on crossbeam's `Receiver::try_recv`: an immediately available
/// message, or nothing; it never blocks.
#[verifier::external_body]
fn try_recv_msg<T>(r: &Receiver<T>) -> (m: Option<T>) {
    r.try_recv().ok()
}

/// Relies on crossbeam's `Sender::clone`: another handle sending into the
/// same channel.
#[verifier::external_body]
fn clone_sender<T>(s: &Sender<T>) -> (c: Sender<T>) {
    s.clone()
}

/// A result that either carries a value or a human-readable error message.
pub type Res<T> = Result<T, String>;

/// A completed image fetch: the asset id, and the texture if the fetch and
/// decode succeeded.
pub type ImageMsg = (String, Option<Texture>);

/// A completed status lookup: which user it is about, and the status.
pub type UserStatusMsg = (String, UserStatus);

/// One channel per operation kind. Senders are handed (cloned) to workers;
/// the UI thread is the only receiver.
pub struct Channels {
    friends: (Sender<Res<Vec<Friend>>>, Receiver<Res<Vec<Friend>>>),
    users: (Sender<Res<Vec<User>>>, Receiver<Res<Vec<User>>>),
    sessions: (Sender<Res<Vec<SessionInfo>>>, Receiver<Res<Vec<SessionInfo>>>),
    auth: (Sender<AuthState>, Receiver<AuthState>),
    user_session: (Sender<Option<UserSession>>, Receiver<Option<UserSession>>),
    image: (Sender<ImageMsg>, Receiver<ImageMsg>),
    user: (Sender<Res<User>>, Receiver<Res<User>>),
    user_status: (Sender<Res<UserStatusMsg>>, Receiver<Res<UserStatusMsg>>),
    session: (Sender<Res<SessionInfo>>, Receiver<Res<SessionInfo>>),
}

impl Channels {
    /// A fresh set of channels, all empty.
    pub fn new() -> Channels {
        Channels {
            friends: channel_pair(),
            users: channel_pair(),
            sessions: channel_pair(),
            auth: channel_pair(),
            user_session: channel_pair(),
            image: channel_pair(),
            user: channel_pair(),
            user_status: channel_pair(),
            session: channel_pair(),
        }
    }

    pub fn friends_sender(&self) -> Sender<Res<Vec<Friend>>> {
        clone_sender(&self.friends.0)
    }

    pub fn users_sender(&self) -> Sender<Res<Vec<User>>> {
        clone_sender(&self.users.0)
    }

    pub fn sessions_sender(&self) -> Sender<Res<Vec<SessionInfo>>> {
        clone_sender(&self.sessions.0)
    }

    pub fn auth_sender(&self) -> Sender<AuthState> {
        clone_sender(&self.auth.0)
    }

    pub fn user_session_sender(&self) -> Sender<Option<UserSession>> {
        clone_sender(&self.user_session.0)
    }

    pub fn image_sender(&self) -> Sender<ImageMsg> {
        clone_sender(&self.image.0)
    }

    pub fn user_sender(&self) -> Sender<Res<User>> {
        clone_sender(&self.user.0)
    }

    pub fn user_status_sender(&self) -> Sender<Res<UserStatusMsg>> {
        clone_sender(&self.user_status.0)
    }

    pub fn session_sender(&self) -> Sender<Res<SessionInfo>> {
        clone_sender(&self.session.0)
    }

    pub fn try_recv_friends(&self) -> Option<Res<Vec<Friend>>> {
        try_recv_msg(&self.friends.1)
    }

    pub fn try_recv_users(&self) -> Option<Res<Vec<User>>> {
        try_recv_msg(&self.users.1)
    }

    pub fn try_recv_sessions(&self) -> Option<Res<Vec<SessionInfo>>> {
        try_recv_msg(&self.sessions.1)
    }

    pub fn try_recv_auth(&self) -> Option<AuthState> {
        try_recv_msg(&self.auth.1)
    }

    pub fn try_recv_user_session(&self) -> Option<Option<UserSession>> {
        try_recv_msg(&self.user_session.1)
    }

    /// Drain every image completion available right now, up to a budget, so
    /// one pass stays bounded however fast workers produce.
    pub fn try_recv_images(&self, budget: usize) -> (v: Vec<ImageMsg>)
        ensures
            v@.len() <= budget,
    {
        let mut v: Vec<ImageMsg> = Vec::new();
        let mut left = budget;
        while left > 0
            invariant
                v@.len() + left <= budget,
            decreases left,
        {
            match try_recv_msg(&self.image.1) {
                Some(m) => {
                    v.push(m);
                    left = left - 1;
                },
                None => {
                    return v;
                },
            }
        }
        v
    }

    pub fn try_recv_user(&self) -> Option<Res<User>> {
        try_recv_msg(&self.user.1)
    }

    pub fn try_recv_user_status(&self) -> Option<Res<UserStatusMsg>> {
        try_recv_msg(&self.user_status.1)
    }

    pub fn try_recv_session(&self) -> Option<Res<SessionInfo>> {
        try_recv_msg(&self.session.1)
    }

    /// Send helpers for the worker side: each forwards one result and
    /// reports whether the UI side still listens.
    pub fn send_image(s: &Sender<ImageMsg>, id: String, tex: Option<Texture>) -> bool {
        send_msg(s, (id, tex))
    }
}

/// Everything one reconciliation pass has drained: at most one message per
/// single-shot channel, and a bounded batch of image completions.
pub struct ReconcileBatch {
    pub friends: Option<Res<Vec<Friend>>>,
    pub users: Option<Res<Vec<User>>>,
    pub sessions: Option<Res<Vec<SessionInfo>>>,
    pub auth: Option<AuthState>,
    pub user_session: Option<Option<UserSession>>,
    pub user: Option<Res<User>>,
    pub user_status: Option<Res<UserStatusMsg>>,
    pub session: Option<Res<SessionInfo>>,
    pub images: Vec<ImageMsg>,
}

impl ReconcileBatch {
    /// Whether the batch carries anything at all.
    pub open spec fn any_message(&self) -> bool {
        self.friends is Some || self.users is Some || self.sessions is Some || self.auth is Some
            || self.user_session is Some || self.user is Some || self.user_status is Some
            || self.session is Some || self.images@.len() > 0
    }

    /// An empty batch.
    pub fn empty() -> (b: ReconcileBatch)
        ensures
            b.friends is None,
            b.users is None,
            b.sessions is None,
            b.auth is None,
            b.user_session is None,
            b.user is None,
            b.user_status is None,
            b.session is None,
            b.images@ == Seq::<ImageMsg>::empty(),
            !b.any_message(),
    {
        let b = ReconcileBatch {
            friends: None,
            users: None,
            sessions: None,
            auth: None,
            user_session: None,
            user: None,
            user_status: None,
            session: None,
            images: Vec::new(),
        };
        proof {
            assert(b.images@ =~= Seq::<ImageMsg>::empty());
        }
        b
    }
}

impl Channels {
    /// Poll every channel once (the image channel up to the budget) without
    /// ever blocking: a channel with nothing ready is simply skipped.
    pub fn drain(&self, image_budget: usize) -> (b: ReconcileBatch)
        ensures
            b.images@.len() <= image_budget,
    {
        ReconcileBatch {
            friends: self.try_recv_friends(),
            users: self.try_recv_users(),
            sessions: self.try_recv_sessions(),
            auth: self.try_recv_auth(),
            user_session: self.try_recv_user_session(),
            user: self.try_recv_user(),
            user_status: self.try_recv_user_status(),
            session: self.try_recv_session(),
            images: self.try_recv_images(image_budget),
        }
    }
}

} // verus!
