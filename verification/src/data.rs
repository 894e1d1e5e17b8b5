//! Plain data the core works on: pages, users, friends, sessions, and the
//! authentication state that the UI thread owns.

use vstd::prelude::*;

verus! {

/// Which page of the client is shown.
#[derive(Clone, Copy, PartialEq, Eq, Structural, Debug)]
pub enum Page {
    About,
    Credits,
    Peeps,
    Sessions,
    Settings,
    License,
}

impl Default for Page {
    /// The client opens on the people page.
    fn default() -> (p: Page)
        ensures
            p == Page::Peeps,
    {
        Page::Peeps
    }
}

/// How visible a user currently is.
#[derive(Clone, Copy, PartialEq, Eq, Structural, Debug)]
pub enum OnlineStatus {
    Online,
    Away,
    Busy,
    Offline,
}

/// How open a session is to joiners; later variants are more open.
#[derive(Clone, Copy, PartialEq, Eq, Structural, Debug)]
pub enum SessionAccessLevel {
    Private,
    Lan,
    Friends,
    FriendsOfFriends,
    RegisteredUsers,
    Anyone,
}

/// Rank of an access level: larger is more open.
pub open spec fn access_level_rank(l: SessionAccessLevel) -> int {
    match l {
        SessionAccessLevel::Private => 0,
        SessionAccessLevel::Lan => 1,
        SessionAccessLevel::Friends => 2,
        SessionAccessLevel::FriendsOfFriends => 3,
        SessionAccessLevel::RegisteredUsers => 4,
        SessionAccessLevel::Anyone => 5,
    }
}

/// The rank as an executable number.
pub fn access_level_rank_of(l: SessionAccessLevel) -> (r: u8)
    ensures
        r as int == access_level_rank(l),
{
    match l {
        SessionAccessLevel::Private => 0,
        SessionAccessLevel::Lan => 1,
        SessionAccessLevel::Friends => 2,
        SessionAccessLevel::FriendsOfFriends => 3,
        SessionAccessLevel::RegisteredUsers => 4,
        SessionAccessLevel::Anyone => 5,
    }
}

/// A user present in a session, as the session lists them.
#[derive(Clone, Debug)]
pub struct SessionUser {
    pub id: Option<String>,
    pub is_present: bool,
}

/// A running session.
#[derive(Clone, Debug)]
pub struct SessionInfo {
    pub id: String,
    pub name: String,
    pub active_users: u32,
    pub users: Vec<SessionUser>,
}

/// A user's current presence.
#[derive(Clone, Debug)]
pub struct UserStatus {
    pub online_status: OnlineStatus,
    pub current_session_access_level: SessionAccessLevel,
    pub active_sessions: Vec<SessionInfo>,
}

/// A friend, as the friends list holds them.
#[derive(Clone, Debug)]
pub struct Friend {
    pub id: String,
    pub username: String,
    pub status: UserStatus,
}

/// A user record from a lookup or a search.
#[derive(Clone, Debug)]
pub struct User {
    pub id: String,
    pub username: String,
}

/// The minimal session token that outlives a process run.
#[derive(Clone, Debug)]
pub struct UserSession {
    pub user_id: String,
    pub token: String,
}

/// Credentials for a fresh login.
#[derive(Clone, Debug)]
pub struct LoginCredentials {
    pub identifier: String,
    pub password: String,
}

/// The authentication state the UI thread owns: either a plain client or a
/// client upgraded with a user session.
#[derive(Clone, Debug)]
pub enum AuthState {
    Unauthenticated,
    Authenticated { session: UserSession },
}

/// The single-user detail window: which user it is about, and what has
/// arrived for it so far.
#[derive(Clone, Debug)]
pub struct UserWindow {
    pub id: String,
    pub user: Option<User>,
    pub status: Option<UserStatus>,
}

/// The single-session detail window.
#[derive(Clone, Debug)]
pub struct SessionWindow {
    pub id: String,
    pub session: Option<SessionInfo>,
}

} // verus!
