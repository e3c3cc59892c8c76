//! Sessions of peers that logged on with the password of the day, and the passwords themselves.

use std::collections::HashMap;
use vstd::prelude::*;

use crate::connection::Connection;
use crate::env::{elapsed, elapsed_since, Env};
use crate::message::LoginRequest;
use crate::password::{shows_password, LoginHash};
use crate::registry::{recv_time_in, recv_time_of, Registry, RegistryView};
use crate::table::kept_where;
use crate::text::same_text;

verus! {

/// How long a session lasts after the last receipt, in milliseconds.
pub const SESSION_TIMEOUT_MS: u64 = 30_000;

/// A session that a peer can come back to for a while.
#[derive(Debug)]
pub struct Session {
    pub name: String,
    pub session_id: u64,
    /// The connection whose time of last receipt keeps the session alive.
    pub clock: i32,
    pub random_password: String,
    /// The second factor was given in this session.
    pub tfa: bool,
}

/// A model of [`Session`].
pub struct SessionView {
    pub name: Seq<char>,
    pub session_id: u64,
    pub clock: i32,
    pub random_password: Seq<char>,
    pub tfa: bool,
}

impl View for Session {
    type V = SessionView;

    open spec fn view(&self) -> SessionView {
        SessionView {
            name: self.name@,
            session_id: self.session_id,
            clock: self.clock,
            random_password: self.random_password@,
            tfa: self.tfa,
        }
    }
}

/// A session still lasts at `now`.
pub open spec fn session_live(times: Map<i32, u64>, now: u64, s: SessionView) -> bool {
    elapsed(now, recv_time_of(times, s.clock)) < SESSION_TIMEOUT_MS
}

/// The sessions that still last.
pub open spec fn live_sessions(reg: RegistryView, now: u64) -> Map<Seq<char>, SessionView> {
    kept_where(reg.sessions, |s: SessionView| session_live(reg.recv_times, now, s))
}

/// A session is the peer's own: it has its name and number, and the peer shows the session's
/// password again or, where `tfa` holds, has given the second factor in it.
pub open spec fn session_fits(s: SessionView, lr: LoginRequest, hash: LoginHash, tfa: bool) -> bool {
    &&& s.name == lr.my_name@
    &&& s.session_id == lr.session_id
    &&& lr.password@.len() > 0
    &&& if tfa {
        s.tfa
    } else {
        shows_password(hash, s.random_password, lr.password@)
    }
}

/// The peer comes back to a session that still lasts.
pub open spec fn is_recent(c: Connection, reg: RegistryView, now: u64, tfa: bool) -> bool {
    let sessions = live_sessions(reg, now);
    sessions.dom().contains(c.lr.my_id@) && session_fits(
        sessions[c.lr.my_id@],
        c.lr,
        c.auth.hash,
        tfa,
    )
}

/// The registry when it was looked whether the peer comes back to a session: the sessions that are
/// over are gone, and one that the peer comes back to goes by the time of the new connection.
pub open spec fn sessions_seen(
    c: Connection,
    reg: RegistryView,
    now: u64,
    tfa: bool,
) -> RegistryView {
    let sessions = live_sessions(reg, now);
    RegistryView {
        sessions: if is_recent(c, reg, now, tfa) {
            sessions.insert(
                c.lr.my_id@,
                SessionView { clock: c.inner.id, ..sessions[c.lr.my_id@] },
            )
        } else {
            sessions
        },
        ..reg
    }
}

/// The peer shows the password of the day, and that is in use.
pub open spec fn shows_temporary(c: Connection, env: Env) -> bool {
    env.passwords.temporary_enabled && shows_password(
        c.auth.hash,
        env.passwords.temporary@,
        c.lr.password@,
    )
}

/// The peer shows the permanent password, and that is in use.
pub open spec fn shows_permanent(c: Connection, env: Env) -> bool {
    env.passwords.permanent_enabled && shows_password(
        c.auth.hash,
        env.passwords.permanent@,
        c.lr.password@,
    )
}

/// A session of the peer that begins with this connection.
pub open spec fn new_session(c: Connection, password: Seq<char>, tfa: bool) -> SessionView {
    SessionView {
        name: c.lr.my_name@,
        session_id: c.lr.session_id,
        clock: c.inner.id,
        random_password: password,
        tfa,
    }
}

/// The registry when the password that the peer shows was looked at: the right password of the
/// day begins a session.
pub open spec fn password_seen(c: Connection, reg: RegistryView, env: Env) -> RegistryView {
    if shows_temporary(c, env) {
        RegistryView {
            sessions: reg.sessions.insert(
                c.lr.my_id@,
                new_session(c, env.passwords.temporary@, false),
            ),
            ..reg
        }
    } else {
        reg
    }
}

/// The registry when the peer has given the second factor.
pub open spec fn second_factor_given(c: Connection, reg: RegistryView) -> RegistryView {
    RegistryView {
        sessions: reg.sessions.insert(
            c.lr.my_id@,
            if reg.sessions.dom().contains(c.lr.my_id@) {
                SessionView { tfa: true, ..reg.sessions[c.lr.my_id@] }
            } else {
                new_session(c, Seq::empty(), true)
            },
        ),
        ..reg
    }
}

/// Whether a session still lasts at `now`.
fn is_live(times: &HashMap<i32, u64>, now: u64, s: &Session) -> (live: bool)
    ensures
        live == session_live(times@, now, s@),
{
    elapsed_since(now, recv_time_in(times, s.clock)) < SESSION_TIMEOUT_MS
}

impl Registry {
    /// Drops the sessions that are over.
    fn drop_old_sessions(&mut self, now: u64)
        ensures
            final(self)@ == (RegistryView {
                sessions: live_sessions(old(self)@, now),
                ..old(self)@
            }),
    {
        let times = &self.recv_times;
        let ghost wanted = |s: SessionView| session_live(old(self)@.recv_times, now, s);
        let keep = |s: &Session| -> (kept: bool)
            ensures
                kept == session_live(times@, now, s@),
        {
            is_live(times, now, s)
        };
        self.sessions.retain(keep, Ghost(wanted));
        assert(self@ =~= RegistryView {
            sessions: live_sessions(old(self)@, now),
            ..old(self)@
        });
    }
}

impl Connection {
    /// Whether a session is the peer's own.
    fn fits(&self, s: &Session, tfa: bool) -> (fits: bool)
        ensures
            fits == session_fits(s@, self.lr, self.auth.hash, tfa),
    {
        same_text(s.name.as_str(), self.lr.my_name.as_str()) && s.session_id == self.lr.session_id
            && self.lr.password.len() > 0 && if tfa {
            s.tfa
        } else {
            self.auth.hash.validate_one_password(&s.random_password, &self.lr.password)
        }
    }

    /// Whether the peer comes back to a session that still lasts.
    pub(crate) fn is_recent_session(&self, reg: &mut Registry, now: u64, tfa: bool) -> (recent: bool)
        ensures
            recent == is_recent(*self, old(reg)@, now, tfa),
            final(reg)@ == sessions_seen(*self, old(reg)@, now, tfa),
    {
        reg.drop_old_sessions(now);
        let ghost sessions = reg@.sessions;
        let id = &self.lr.my_id;
        let found = reg.sessions.remove(id.as_str());
        match found {
            Some(session) => {
                let fits = self.fits(&session, tfa);
                let mut session = session;
                if fits {
                    session.clock = self.inner.id;
                }
                reg.sessions.insert(id.clone(), session);
                assert(reg@.sessions =~= sessions_seen(*self, old(reg)@, now, tfa).sessions);
                assert(reg@ =~= sessions_seen(*self, old(reg)@, now, tfa));
                fits
            },
            None => {
                assert(reg@.sessions =~= sessions);
                assert(reg@ =~= sessions_seen(*self, old(reg)@, now, tfa));
                false
            },
        }
    }

    /// Whether the peer shows a password that is in use.
    pub(crate) fn validate_password(&self, reg: &mut Registry, env: &Env) -> (right: bool)
        ensures
            right == (shows_temporary(*self, *env) || shows_permanent(*self, *env)),
            final(reg)@ == password_seen(*self, old(reg)@, *env),
    {
        let hash = &self.auth.hash;
        if env.passwords.temporary_enabled && hash.validate_one_password(
            &env.passwords.temporary,
            &self.lr.password,
        ) {
            let session = Session {
                name: self.lr.my_name.clone(),
                session_id: self.lr.session_id,
                clock: self.inner.id,
                random_password: env.passwords.temporary.clone(),
                tfa: false,
            };
            reg.sessions.insert(self.lr.my_id.clone(), session);
            assert(reg@ =~= password_seen(*self, old(reg)@, *env));
            return true;
        }
        env.passwords.permanent_enabled && hash.validate_one_password(
            &env.passwords.permanent,
            &self.lr.password,
        )
    }

    /// Notes that the peer has given the second factor.
    pub(crate) fn note_second_factor(&self, reg: &mut Registry)
        ensures
            final(reg)@ == second_factor_given(*self, old(reg)@),
    {
        let id = &self.lr.my_id;
        let session = match reg.sessions.remove(id.as_str()) {
            Some(session) => {
                let mut session = session;
                session.tfa = true;
                session
            },
            None => Session {
                name: self.lr.my_name.clone(),
                session_id: self.lr.session_id,
                clock: self.inner.id,
                random_password: String::new(),
                tfa: true,
            },
        };
        reg.sessions.insert(id.clone(), session);
        assert(reg@.sessions =~= second_factor_given(*self, old(reg)@).sessions);
        assert(reg@ =~= second_factor_given(*self, old(reg)@));
    }
}

/// Nobody comes back to a session whose last receipt is thirty seconds ago.
pub proof fn session_ends(c: Connection, reg: RegistryView, now: u64, tfa: bool)
    requires
        reg.sessions.dom().contains(c.lr.my_id@),
        elapsed(now, recv_time_of(reg.recv_times, reg.sessions[c.lr.my_id@].clock))
            >= SESSION_TIMEOUT_MS,
    ensures
        !is_recent(c, reg, now, tfa),
        !sessions_seen(c, reg, now, tfa).sessions.dom().contains(c.lr.my_id@),
{
}

/// A peer that was let in with the password of the day can come back on another connection: it
/// shows that password again, whatever the new challenge and whatever the password of the day is by
/// then, as long as something was received on the old connection in the last thirty seconds. The
/// session then goes by the new connection.
pub proof fn session_is_found_again(
    c: Connection,
    reg: RegistryView,
    env: Env,
    again: Connection,
    now: u64,
)
    requires
        shows_temporary(c, env),
        again.lr.my_id@ == c.lr.my_id@,
        again.lr.my_name@ == c.lr.my_name@,
        again.lr.session_id == c.lr.session_id,
        again.lr.password@.len() > 0,
        shows_password(again.auth.hash, env.passwords.temporary@, again.lr.password@),
        elapsed(now, recv_time_of(reg.recv_times, c.inner.id)) < SESSION_TIMEOUT_MS,
    ensures
        is_recent(again, password_seen(c, reg, env), now, false),
        !is_recent(again, password_seen(c, reg, env), now, true),
        sessions_seen(again, password_seen(c, reg, env), now, false).sessions[c.lr.my_id@]
            == new_session(again, env.passwords.temporary@, false),
{
}

/// After the second factor the session answers for it, also on another connection of the peer.
pub proof fn second_factor_is_remembered(
    c: Connection,
    reg: RegistryView,
    again: Connection,
    now: u64,
)
    requires
        again.lr.my_id@ == c.lr.my_id@,
        again.lr.my_name@ == c.lr.my_name@,
        again.lr.session_id == c.lr.session_id,
        again.lr.password@.len() > 0,
        elapsed(now, recv_time_of(reg.recv_times, c.inner.id)) < SESSION_TIMEOUT_MS,
        reg.sessions.dom().contains(c.lr.my_id@) ==> {
            let s = reg.sessions[c.lr.my_id@];
            s.clock == c.inner.id && s.name == c.lr.my_name@ && s.session_id == c.lr.session_id
        },
    ensures
        is_recent(again, second_factor_given(c, reg), now, true),
{
}

/// Looking at the sessions touches nothing but the sessions, and no session but those that are
/// over and the peer's own.
pub proof fn sessions_seen_keeps_others(
    c: Connection,
    reg: RegistryView,
    now: u64,
    tfa: bool,
    other: Seq<char>,
)
    requires
        other != c.lr.my_id@,
        reg.sessions.dom().contains(other),
        session_live(reg.recv_times, now, reg.sessions[other]),
    ensures
        sessions_seen(c, reg, now, tfa).sessions.dom().contains(other),
        sessions_seen(c, reg, now, tfa).sessions[other] == reg.sessions[other],
        sessions_seen(c, reg, now, tfa) == (RegistryView {
            sessions: sessions_seen(c, reg, now, tfa).sessions,
            ..reg
        }),
{
}

} // verus!
