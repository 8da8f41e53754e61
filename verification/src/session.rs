//! Panel users, their login sessions, and the checks that admit a panel request.
use crate::text::str_eq;
use vstd::prelude::*;

verus! {

/// Reads the clock, in nanoseconds since the Unix epoch
/// (`std::time::SystemTime::now`; a clock set before the epoch reads 0). The
/// reading depends on the moment it is taken, so nothing is stated of it.
#[verifier::external_body]
pub(crate) fn clock_now() -> (t: u64) {
    std::time::SystemTime::now().duration_since(std::time::UNIX_EPOCH).map(
        |d| d.as_nanos() as u64,
    ).unwrap_or(0)
}

/// How long an unused session stays valid: thirty minutes, in nanoseconds.
pub const DEFAULT_SESSION_TIMEOUT: u64 = 1_800_000_000_000;

/// What a panel user may do.
#[derive(Clone, Copy, Debug, PartialEq, Eq, Structural)]
pub enum UserPermission {
    Moderator,
}

/// A user of the panel. `account_creation_time` counts microseconds since the
/// Unix epoch.
#[derive(Clone, Debug)]
pub struct PanelUser {
    pub twitch_user_id: String,
    pub account_creation_time: i64,
    pub permissions: UserPermission,
}

/// A panel user as the contracts see it.
pub struct PanelUserView {
    pub twitch_user_id: Seq<char>,
    pub account_creation_time: i64,
    pub permissions: UserPermission,
}

impl View for PanelUser {
    type V = PanelUserView;

    open spec fn view(&self) -> PanelUserView {
        PanelUserView {
            twitch_user_id: self.twitch_user_id@,
            account_creation_time: self.account_creation_time,
            permissions: self.permissions,
        }
    }
}

impl PanelUser {
    /// A copy of this user.
    pub fn copy_user(&self) -> (c: PanelUser)
        ensures
            c@ == self@,
    {
        PanelUser {
            twitch_user_id: self.twitch_user_id.clone(),
            account_creation_time: self.account_creation_time,
            permissions: self.permissions,
        }
    }
}

/// A panel user allowed to moderate; handlers that need one take it as an
/// argument.
#[derive(Clone, Debug)]
pub struct Moderator(pub PanelUser);

impl Moderator {
    /// The moderator that `user` is; every permission a panel user can hold
    /// makes a moderator.
    pub fn new(user: PanelUser) -> (m: Option<Moderator>)
        ensures
            m matches Some(md) && md.0@ == user@,
    {
        match user.permissions {
            UserPermission::Moderator => Some(Moderator(user)),
        }
    }
}

/// A login session of a panel user. `last_refreshed_at` is a clock reading in
/// nanoseconds.
#[derive(Clone, Debug)]
pub struct Session {
    pub access_token: String,
    pub user_agent: String,
    pub last_refreshed_at: u64,
    pub panel_user: PanelUser,
}

/// A session as the contracts see it.
pub struct SessionView {
    pub access_token: Seq<char>,
    pub user_agent: Seq<char>,
    pub last_refreshed_at: u64,
    pub panel_user: PanelUserView,
}

impl View for Session {
    type V = SessionView;

    open spec fn view(&self) -> SessionView {
        SessionView {
            access_token: self.access_token@,
            user_agent: self.user_agent@,
            last_refreshed_at: self.last_refreshed_at,
            panel_user: self.panel_user@,
        }
    }
}

impl Session {
    /// A copy of this session.
    pub fn copy_session(&self) -> (c: Session)
        ensures
            c@ == self@,
    {
        Session {
            access_token: self.access_token.clone(),
            user_agent: self.user_agent.clone(),
            last_refreshed_at: self.last_refreshed_at,
            panel_user: self.panel_user.copy_user(),
        }
    }
}

/// The index of the first session with `access_token`, if any.
pub open spec fn first_with_token(sessions: Seq<SessionView>, access_token: Seq<char>) -> Option<
    int,
> {
    if exists|i: int| 0 <= i < sessions.len() && sessions[i].access_token == access_token {
        Some(
            choose|i: int|
                0 <= i < sessions.len() && sessions[i].access_token == access_token && forall|
                    j: int,
                |
                    0 <= j < i ==> sessions[j].access_token != access_token,
        )
    } else {
        None
    }
}

/// The index of the first session of the user `twitch_user_id`, if any.
pub open spec fn first_of_user(sessions: Seq<SessionView>, twitch_user_id: Seq<char>) -> Option<
    int,
> {
    if exists|i: int|
        0 <= i < sessions.len() && sessions[i].panel_user.twitch_user_id == twitch_user_id {
        Some(
            choose|i: int|
                0 <= i < sessions.len() && sessions[i].panel_user.twitch_user_id == twitch_user_id
                    && forall|j: int|
                    0 <= j < i ==> sessions[j].panel_user.twitch_user_id != twitch_user_id,
        )
    } else {
        None
    }
}

proof fn lemma_first_with_token(sessions: Seq<SessionView>, access_token: Seq<char>, i: int)
    requires
        0 <= i < sessions.len(),
        sessions[i].access_token == access_token,
        forall|j: int| 0 <= j < i ==> sessions[j].access_token != access_token,
    ensures
        first_with_token(sessions, access_token) == Some(i),
{
    let k = choose|k: int|
        0 <= k < sessions.len() && sessions[k].access_token == access_token && forall|j: int|
            0 <= j < k ==> sessions[j].access_token != access_token;
    assert(0 <= k < sessions.len() && sessions[k].access_token == access_token);
    if i < k {
        assert(sessions[i].access_token != access_token);
    }
}

proof fn lemma_first_of_user(sessions: Seq<SessionView>, twitch_user_id: Seq<char>, i: int)
    requires
        0 <= i < sessions.len(),
        sessions[i].panel_user.twitch_user_id == twitch_user_id,
        forall|j: int| 0 <= j < i ==> sessions[j].panel_user.twitch_user_id != twitch_user_id,
    ensures
        first_of_user(sessions, twitch_user_id) == Some(i),
{
    let k = choose|k: int|
        0 <= k < sessions.len() && sessions[k].panel_user.twitch_user_id == twitch_user_id
            && forall|j: int|
            0 <= j < k ==> sessions[j].panel_user.twitch_user_id != twitch_user_id;
    assert(0 <= k < sessions.len() && sessions[k].panel_user.twitch_user_id == twitch_user_id);
    if i < k {
        assert(sessions[i].panel_user.twitch_user_id != twitch_user_id);
    }
}

/// The sessions with the `i`-th one marked as refreshed at `t`.
pub open spec fn refreshed_at(sessions: Seq<SessionView>, i: int, t: u64) -> Seq<SessionView> {
    sessions.update(i, SessionView { last_refreshed_at: t, ..sessions[i] })
}

/// The sessions without those of `access_token`.
pub open spec fn without_token(sessions: Seq<SessionView>, access_token: Seq<char>) -> Seq<
    SessionView,
> {
    sessions.filter(|s: SessionView| s.access_token != access_token)
}

/// The login sessions of the panel, oldest first, and how long an unused
/// session stays valid.
pub struct SessionService {
    sessions: Vec<Session>,
    session_timeout: u64,
}

impl View for SessionService {
    type V = Seq<SessionView>;

    closed spec fn view(&self) -> Seq<SessionView> {
        self.sessions@.map_values(|s: Session| s@)
    }
}

impl SessionService {
    /// How long an unused session stays valid, in nanoseconds.
    pub closed spec fn timeout(&self) -> u64 {
        self.session_timeout
    }

    /// No sessions, and the default timeout of thirty minutes.
    pub fn new() -> (s: SessionService)
        ensures
            s@ == Seq::<SessionView>::empty(),
            s.timeout() == DEFAULT_SESSION_TIMEOUT,
    {
        let s = SessionService { sessions: Vec::new(), session_timeout: DEFAULT_SESSION_TIMEOUT };
        assert(s@ =~= Seq::<SessionView>::empty());
        s
    }

    /// How long an unused session stays valid, in nanoseconds.
    pub fn session_timeout(&self) -> (t: u64)
        ensures
            t == self.timeout(),
    {
        self.session_timeout
    }

    /// Opens a session for `panel_user`, last refreshed at the clock reading `now`.
    pub fn create_session_at(
        &mut self,
        panel_user: PanelUser,
        access_token: String,
        user_agent: String,
        now: u64,
    )
        ensures
            final(self)@ == old(self)@.push(
                SessionView {
                    access_token: access_token@,
                    user_agent: user_agent@,
                    last_refreshed_at: now,
                    panel_user: panel_user@,
                },
            ),
            final(self).timeout() == old(self).timeout(),
    {
        let s = Session { user_agent, access_token, panel_user, last_refreshed_at: now };
        self.sessions.push(s);
        assert(self@ =~= old(self)@.push(s@));
    }

    /// Opens a session for `panel_user`, last refreshed now.
    pub fn create_session(&mut self, panel_user: PanelUser, access_token: String, user_agent: String)
        ensures
            final(self)@.len() == old(self)@.len() + 1,
            final(self)@.drop_last() == old(self)@,
            final(self)@.last().access_token == access_token@,
            final(self)@.last().user_agent == user_agent@,
            final(self)@.last().panel_user == panel_user@,
            final(self).timeout() == old(self).timeout(),
    {
        let now = clock_now();
        self.create_session_at(panel_user, access_token, user_agent, now);
    }

    /// Marks the first session of `access_token` as refreshed at `now`;
    /// `None` when there is none.
    pub fn refresh_session_at(&mut self, access_token: String, now: u64) -> (r: Option<()>)
        ensures
            final(self).timeout() == old(self).timeout(),
            match first_with_token(old(self)@, access_token@) {
                None => r is None && final(self)@ == old(self)@,
                Some(i) => r is Some && final(self)@ == refreshed_at(old(self)@, i, now),
            },
    {
        let mut i: usize = 0;
        while i < self.sessions.len()
            invariant
                i <= self@.len(),
                *self == *old(self),
                forall|j: int| 0 <= j < i ==> (#[trigger] self@[j]).access_token != access_token@,
            decreases self@.len() - i,
        {
            if self.sessions[i].access_token == access_token {
                proof {
                    lemma_first_with_token(self@, access_token@, i as int);
                }
                let mut s = self.sessions[i].copy_session();
                s.last_refreshed_at = now;
                self.sessions.set(i, s);
                assert(self@ =~= refreshed_at(old(self)@, i as int, now));
                return Some(());
            }
            i = i + 1;
        }
        None
    }

    /// Marks the first session of `access_token` as refreshed now; `None` when
    /// there is none.
    pub fn refresh_session(&mut self, access_token: String) -> (r: Option<()>)
        ensures
            final(self).timeout() == old(self).timeout(),
            match first_with_token(old(self)@, access_token@) {
                None => r is None && final(self)@ == old(self)@,
                Some(i) => r is Some && exists|t: u64|
                    #[trigger] refreshed_at(old(self)@, i, t) == final(self)@,
            },
    {
        let now = clock_now();
        let ghost before = self@;
        let ghost token = access_token@;
        let r = self.refresh_session_at(access_token, now);
        proof {
            if let Some(i) = first_with_token(before, token) {
                assert(refreshed_at(before, i, now) == self@);
            }
        }
        r
    }

    /// A copy of the first session of `access_token`.
    pub fn get_by_access_token(&self, access_token: &str) -> (r: Option<Session>)
        ensures
            match first_with_token(self@, access_token@) {
                None => r is None,
                Some(i) => r matches Some(s) && s@ == self@[i],
            },
    {
        let mut i: usize = 0;
        while i < self.sessions.len()
            invariant
                i <= self@.len(),
                forall|j: int| 0 <= j < i ==> (#[trigger] self@[j]).access_token != access_token@,
            decreases self@.len() - i,
        {
            if str_eq(self.sessions[i].access_token.as_str(), access_token) {
                proof {
                    lemma_first_with_token(self@, access_token@, i as int);
                }
                return Some(self.sessions[i].copy_session());
            }
            i = i + 1;
        }
        None
    }

    /// A copy of the first session of the user `twitch_user_id`.
    pub fn get_by_user_id(&self, twitch_user_id: &str) -> (r: Option<Session>)
        ensures
            match first_of_user(self@, twitch_user_id@) {
                None => r is None,
                Some(i) => r matches Some(s) && s@ == self@[i],
            },
    {
        let mut i: usize = 0;
        while i < self.sessions.len()
            invariant
                i <= self@.len(),
                forall|j: int|
                    0 <= j < i ==> (#[trigger] self@[j]).panel_user.twitch_user_id
                        != twitch_user_id@,
            decreases self@.len() - i,
        {
            if str_eq(self.sessions[i].panel_user.twitch_user_id.as_str(), twitch_user_id) {
                proof {
                    lemma_first_of_user(self@, twitch_user_id@, i as int);
                }
                return Some(self.sessions[i].copy_session());
            }
            i = i + 1;
        }
        None
    }

    /// Ends every session of `access_token`.
    pub fn delete_by_access_token(&mut self, access_token: &str)
        ensures
            final(self)@ == without_token(old(self)@, access_token@),
            final(self).timeout() == old(self).timeout(),
    {
        let ghost pred = |s: SessionView| s.access_token != access_token@;
        let mut kept: Vec<Session> = Vec::new();
        let mut i: usize = 0;
        while i < self.sessions.len()
            invariant
                i <= self@.len(),
                *self == *old(self),
                pred == (|s: SessionView| s.access_token != access_token@),
                kept@.map_values(|s: Session| s@) == self@.take(i as int).filter(pred),
            decreases self@.len() - i,
        {
            let same = str_eq(self.sessions[i].access_token.as_str(), access_token);
            let keep = !same;
            assert(self@[i as int] == self.sessions@[i as int]@);
            proof {
                let t = self@.take(i as int);
                assert(self@.take(i + 1) == t.push(self@[i as int]));
                crate::seqs::lemma_filter_push(t, pred, self@[i as int]);
            }
            let ghost before = kept@;
            if keep {
                kept.push(self.sessions[i].copy_session());
                assert(kept@.map_values(|s: Session| s@) =~= before.map_values(|s: Session| s@).push(
                    self@[i as int],
                ));
            } else {
                assert(self.sessions@[i as int].access_token@ == access_token@);
                assert(self@[i as int].access_token == access_token@);
                assert(!pred(self@[i as int]));
            }
            i = i + 1;
        }
        assert(self@.take(self@.len() as int) == self@);
        self.sessions = kept;
    }
}

impl Default for SessionService {
    fn default() -> (s: SessionService)
        ensures
            s@ == Seq::<SessionView>::empty(),
            s.timeout() == DEFAULT_SESSION_TIMEOUT,
    {
        SessionService::new()
    }
}


/// A session just opened is the one found for its access token, unless an
/// older session already holds that token.
pub proof fn lemma_created_session_is_found(sessions: Seq<SessionView>, session: SessionView)
    requires
        first_with_token(sessions, session.access_token) is None,
    ensures
        first_with_token(sessions.push(session), session.access_token) == Some(sessions.len() as int),
{
    let pushed = sessions.push(session);
    assert forall|j: int| 0 <= j < sessions.len() implies pushed[j].access_token
        != session.access_token by {
        assert(pushed[j] == sessions[j]);
    }
    lemma_first_with_token(pushed, session.access_token, sessions.len() as int);
}

/// Once the sessions of an access token are ended, none is found for it.
pub proof fn lemma_deleted_token_is_not_found(sessions: Seq<SessionView>, access_token: Seq<char>)
    ensures
        first_with_token(without_token(sessions, access_token), access_token) is None,
{
    let rest = without_token(sessions, access_token);
    assert forall|i: int| 0 <= i < rest.len() implies rest[i].access_token != access_token by {
        let pred = |s: SessionView| s.access_token != access_token;
        assert(pred(rest[i]));
    }
}

/// What the first session of an access token is: it holds the token, and no
/// earlier one does.
proof fn lemma_first_with_token_holds(sessions: Seq<SessionView>, access_token: Seq<char>, i: int)
    requires
        first_with_token(sessions, access_token) == Some(i),
    ensures
        0 <= i < sessions.len(),
        sessions[i].access_token == access_token,
        forall|j: int| 0 <= j < i ==> #[trigger] sessions[j].access_token != access_token,
{
    let w = choose|w: int| 0 <= w < sessions.len() && sessions[w].access_token == access_token;
    lemma_earliest_with_token(sessions, access_token, w);
}

/// Where a session holds an access token, a first such session exists.
proof fn lemma_earliest_with_token(sessions: Seq<SessionView>, access_token: Seq<char>, w: int)
    requires
        0 <= w < sessions.len(),
        sessions[w].access_token == access_token,
    ensures
        exists|k: int|
            0 <= k < sessions.len() && sessions[k].access_token == access_token && forall|j: int|
                0 <= j < k ==> sessions[j].access_token != access_token,
    decreases w,
{
    if exists|j: int| 0 <= j < w && sessions[j].access_token == access_token {
        let j = choose|j: int| 0 <= j < w && sessions[j].access_token == access_token;
        lemma_earliest_with_token(sessions, access_token, j);
    } else {
        assert(forall|j: int| 0 <= j < w ==> sessions[j].access_token != access_token);
    }
}

/// Refreshing a session keeps it the one found for its access token, and
/// changes nothing but its refresh time.
pub proof fn lemma_refresh_keeps_session(
    sessions: Seq<SessionView>,
    access_token: Seq<char>,
    i: int,
    t: u64,
)
    requires
        first_with_token(sessions, access_token) == Some(i),
    ensures
        first_with_token(refreshed_at(sessions, i, t), access_token) == Some(i),
        refreshed_at(sessions, i, t)[i].last_refreshed_at == t,
        refreshed_at(sessions, i, t)[i].panel_user == sessions[i].panel_user,
        refreshed_at(sessions, i, t)[i].user_agent == sessions[i].user_agent,
        refreshed_at(sessions, i, t).len() == sessions.len(),
{
    lemma_first_with_token_holds(sessions, access_token, i);
    let r = refreshed_at(sessions, i, t);
    assert forall|j: int| 0 <= j < i implies #[trigger] r[j].access_token != access_token by {
        assert(r[j] == sessions[j]);
    }
    lemma_first_with_token(r, access_token, i);
}


} // verus!
