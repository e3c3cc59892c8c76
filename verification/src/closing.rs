//! The end of a connection.

use vstd::prelude::*;

use crate::action::{add_if, push_if, Action, CmData};
use crate::connection::{Connection, Purpose, Trace};
use crate::env::Env;
use crate::message::{CloseReason, Message};
use crate::registry::{Registry, RegistryView};

verus! {

/// A closed connection: it forwards no port any more.
pub open spec fn closed(c: Connection) -> Connection {
    if c.trace.closed {
        c
    } else {
        Connection {
            trace: Trace { closed: true, ..c.trace },
            purpose: Purpose { port_forward: false, ..c.purpose },
            ..c
        }
    }
}

/// What the connection manager is told when a connection closes: it keeps the peer in view where
/// the peer left something that was not seen.
pub open spec fn close_notice(c: Connection, env: Env) -> CmData {
    if env.target.is_desktop() && (c.trace.chat_unanswered || c.trace.file_transferred
        && env.target.flutter) {
        CmData::Disconnected
    } else {
        CmData::Close
    }
}

/// What closing a connection asks for. `lock` says that the screen may be locked.
pub open spec fn close_actions(c: Connection, env: Env, out: Seq<Action>, lock: bool) -> Seq<
    Action,
> {
    if c.trace.closed {
        out
    } else {
        let out = push_if(
            out,
            lock && c.wishes.lock_after_session_end && c.rights.keyboard
                && env.target.is_desktop(),
            Action::LockScreen,
        );
        push_if(
            out.push(Action::ToCm(close_notice(c, env))),
            c.purpose.port_forward,
            Action::CloseForward,
        )
    }
}

/// What telling the peer that the server closes the connection asks for.
pub open spec fn close_reason_told(out: Seq<Action>, reason: CloseReason) -> Seq<Action> {
    out.push(Action::Send(Message::CloseReason(reason)))
}

/// The registry without the session of the peer.
pub open spec fn session_dropped(c: Connection, reg: RegistryView) -> RegistryView {
    RegistryView { sessions: reg.sessions.remove(c.lr.my_id@), ..reg }
}

impl Connection {
    /// Closes the connection, unless it is closed already.
    pub(crate) fn on_close(&mut self, env: &Env, lock: bool, out: &mut Vec<Action>)
        ensures
            *final(self) == closed(*old(self)),
            final(out)@ == close_actions(*old(self), *env, old(out)@, lock),
    {
        if self.trace.closed {
            return ;
        }
        let locks = lock && self.wishes.lock_after_session_end && self.rights.keyboard
            && env.target.desktop();
        add_if(out, locks, Action::LockScreen);
        let data = if env.target.desktop() && (self.trace.chat_unanswered
            || self.trace.file_transferred && env.target.flutter) {
            CmData::Disconnected
        } else {
            CmData::Close
        };
        out.push(Action::ToCm(data));
        add_if(out, self.purpose.port_forward, Action::CloseForward);
        self.trace.closed = true;
        self.purpose.port_forward = false;
    }

    /// Drops the session of the peer, so that it cannot come back without a password.
    pub(crate) fn drop_session(&self, reg: &mut Registry)
        ensures
            final(reg)@ == session_dropped(*self, old(reg)@),
    {
        let _ = reg.sessions.remove(self.lr.my_id.as_str());
        assert(reg@ =~= session_dropped(*self, old(reg)@));
    }

    /// Tells the peer why the connection closes, and that it is not to come back by itself.
    pub(crate) fn send_close_reason_no_retry(
        &self,
        reg: &mut Registry,
        reason: CloseReason,
        out: &mut Vec<Action>,
    )
        ensures
            final(out)@ == close_reason_told(old(out)@, reason),
            final(reg)@ == session_dropped(*self, old(reg)@),
    {
        out.push(Action::Send(Message::CloseReason(reason)));
        self.drop_session(reg);
    }
}

/// Closing a closed connection changes nothing and asks for nothing.
pub proof fn close_is_idempotent(
    c: Connection,
    env: Env,
    out: Seq<Action>,
    first: bool,
    second: bool,
)
    ensures
        closed(closed(c)) == closed(c),
        close_actions(closed(c), env, close_actions(c, env, out, first), second)
            == close_actions(c, env, out, first),
{
}

/// A peer whose session was dropped does not come back to it.
pub proof fn dropped_session_is_gone(
    c: Connection,
    reg: RegistryView,
    now: u64,
    tfa: bool,
)
    ensures
        !crate::session::is_recent(c, session_dropped(c, reg), now, tfa),
{
}

} // verus!
