//! Who gets in and who does not, in terms of what the peer shows and what is on record.

use vstd::prelude::*;
use vstd::utf8::encode_utf8;

use crate::action::{Action, CmData, CmLogin};
use crate::audit::{AlarmAudit, AlarmInfo};
use crate::connection::{Auth, Connection, Media, Purpose, Scene};
use crate::deeds::on_phone;
use crate::env::{ApproveMode, Env};
use crate::failures::{attempt_noted, failure_of, minute_of, Factor};
use crate::headless::DesktopLogin;
use crate::login::{
    cm_ipc_started, desktop_known, forward_known, logon_and_tell, purpose_known, request_taken,
    DesktopStart, LoginStep,
};
use crate::logon::{logon, LogonFacts};
use crate::message::{LoginError, LoginKind, LoginRequest, LoginResponse, Message, PeerMessage};
use crate::password::{sha256_of, LoginHash};
use crate::peer_message::message_taken;
use crate::registry::{AuthConnType, AuthedConnID, RegistryView};
use crate::run::{cm_taken, CmEvent};
use crate::session::{is_recent, password_seen, sessions_seen, SessionView};
use crate::target::Os;
use crate::text::{decimal_of, decimal_of_nat};
use crate::totp::totp_check;

verus! {

/// `given` is the answer to the challenge that only one gives who knows `password`.
pub open spec fn answers(hash: LoginHash, password: Seq<char>, given: Seq<u8>) -> bool {
    &&& password.len() > 0
    &&& given == sha256_of(
        sha256_of(encode_utf8(password) + encode_utf8(hash.salt@)) + encode_utf8(
            hash.challenge@,
        ),
    )
}

/// The answer that the peer gave is right for the password of the day.
pub open spec fn knows_temporary(c: Connection, env: Env) -> bool {
    env.passwords.temporary_enabled && answers(
        c.auth.hash,
        env.passwords.temporary@,
        c.lr.password@,
    )
}

/// The answer that the peer gave is right for the permanent password.
pub open spec fn knows_permanent(c: Connection, env: Env) -> bool {
    env.passwords.permanent_enabled && answers(
        c.auth.hash,
        env.passwords.permanent@,
        c.lr.password@,
    )
}

/// The user of this machine lets peers in by password, and the peer asks for this machine.
pub open spec fn asks_by_password(c: Connection, env: Env) -> bool {
    &&& env.username_is_address || c.lr.username@ == env.own_id@
    &&& env.passwords.has_valid_password
    &&& env.passwords.approve_mode != ApproveMode::Click
    &&& c.lr.password@.len() > 0
}

/// The answer to a request to log on that is refused.
pub open spec fn refusal(error: LoginError) -> Action {
    Action::Send(Message::LoginResponse(LoginResponse::Error(error)))
}

/// What the connection manager is shown of a peer.
pub open spec fn shown(c: Connection, authorized: bool) -> CmLogin {
    CmLogin {
        id: c.inner.id,
        is_file_transfer: c.purpose.file_transfer is Some,
        port_forward: c.purpose.port_forward_address,
        peer_id: c.lr.my_id,
        name: c.lr.my_name,
        authorized,
        keyboard: c.rights.keyboard,
        clipboard: c.rights.clipboard,
        audio: c.rights.audio,
        file: c.rights.file,
        file_transfer_enabled: c.rights.file,
        restart: c.rights.restart,
        recording: c.rights.recording,
        block_input: c.rights.block_input,
        from_switch: c.auth.from_switch,
    }
}

/// What an authorised connection is for.
pub open spec fn kind_of(c: Connection) -> AuthConnType {
    if c.purpose.file_transfer is Some {
        AuthConnType::FileTransfer
    } else if c.purpose.port_forward {
        AuthConnType::PortForward
    } else {
        AuthConnType::Remote
    }
}

/// Letting a peer in that owes nothing enters it under what it came for, and leaves alone what it
/// may do and what it said.
#[verifier::rlimit(60)]
proof fn lemma_let_in(s: Scene, env: Env, facts: LogonFacts)
    requires
        !s.conn.auth.authorized,
        s.conn.auth.require_2fa is None,
    ensures
        logon(s, env, facts).conn.auth.authorized,
        logon(s, env, facts).conn.auth.authed_conn_id == Some(
            AuthedConnID(s.conn.inner.id, kind_of(s.conn)),
        ),
        logon(s, env, facts).reg.authed_conns == s.reg.authed_conns.push(
            (s.conn.inner.id, kind_of(s.conn)),
        ),
        logon(s, env, facts).conn.rights == s.conn.rights,
        logon(s, env, facts).conn.lr == s.conn.lr,
        logon(s, env, facts).conn.media.video_ack_required == s.conn.media.video_ack_required,
{
}

/// A peer with one right password gets in, whichever of the two it is and whatever the other one
/// is set to, as long as its address has few wrong attempts on record and no second factor is owed.
/// It is entered under what it came for, and the connection manager is shown that it is in.
#[verifier::rlimit(60)]
pub proof fn known_password_gets_in(s: Scene, env: Env, facts: LogonFacts)
    requires
        !s.conn.auth.authorized,
        s.conn.auth.require_2fa is None,
        asks_by_password(s.conn, env),
        knows_temporary(s.conn, env) || knows_permanent(s.conn, env),
        s.reg.password_failures.dom().contains(s.conn.trace.ip@) ==> {
            let record = s.reg.password_failures[s.conn.trace.ip@];
            record.1 <= 6 && record.2 <= 30
        },
    ensures
        ({
            let (after, go_on) = desktop_known(s, env, facts, DesktopStart::Ready);
            &&& go_on
            &&& after.conn.auth.authorized
            &&& after.conn.auth.authed_conn_id matches Some(entered)
            &&& entered.0 == s.conn.inner.id
            &&& entered.1 == kind_of(s.conn)
            &&& after.reg.authed_conns == s.reg.authed_conns.push(
                (s.conn.inner.id, kind_of(s.conn)),
            )
            &&& after.out.last() == Action::ToCm(CmData::Login(shown(after.conn, true)))
            &&& after.conn.rights == s.conn.rights
            &&& after.conn.lr == s.conn.lr
            &&& after.conn.media.video_ack_required == s.conn.media.video_ack_required
        }),
{
    let c = s.conn;
    let seen = Scene { reg: sessions_seen(c, s.reg, env.now, false), ..s };
    let waited = if env.target.os == Os::Linux {
        c.auth.linux_headless_handle.wait_actions(s.out)
    } else {
        s.out
    };
    let failure = failure_of(seen.reg, Factor::Password, c.trace.ip@);
    let noted = attempt_noted(
        password_seen(c, seen.reg, env),
        Factor::Password,
        c.trace.ip@,
        failure,
        minute_of(env.epoch_ms),
        true,
    );
    let back = Scene { out: waited, ..seen };
    let fresh = Scene { out: waited, reg: noted, ..seen };
    lemma_let_in(back, env, facts);
    lemma_let_in(fresh, env, facts);
    let after = desktop_known(s, env, facts, DesktopStart::Ready).0;
    if is_recent(c, s.reg, env.now, false) {
        assert(after == logon_and_tell(back, env, facts));
    } else {
        assert(after == logon_and_tell(fresh, env, facts));
    }
}

/// The same of the request itself: a peer that wants to control this machine, outside of privacy
/// mode and without a desktop session to be started for it, gets in with one right password.
#[verifier::rlimit(60)]
pub proof fn request_with_known_password_gets_in(
    s: Scene,
    env: Env,
    facts: LogonFacts,
    lr: LoginRequest,
    after: Scene,
    step: LoginStep,
)
    requires
        message_taken(s, env, facts, PeerMessage::LoginRequest(lr), after, step),
        lr.kind is Remote,
        !env.in_privacy_mode,
        env.target.os != Os::Linux || !s.conn.auth.linux_headless_handle.is_headless_allowed,
        !s.conn.auth.authorized,
        s.conn.auth.require_2fa is None,
        env.username_is_address || lr.username@ == env.own_id@,
        env.passwords.has_valid_password,
        env.passwords.approve_mode != ApproveMode::Click,
        lr.password@.len() > 0,
        env.passwords.temporary_enabled && answers(
            s.conn.auth.hash,
            env.passwords.temporary@,
            lr.password@,
        ) || env.passwords.permanent_enabled && answers(
            s.conn.auth.hash,
            env.passwords.permanent@,
            lr.password@,
        ),
        s.reg.password_failures.dom().contains(s.conn.trace.ip@) ==> {
            let record = s.reg.password_failures[s.conn.trace.ip@];
            record.1 <= 6 && record.2 <= 30
        },
    ensures
        step == LoginStep::Done(true),
        after.conn.auth.authorized,
        after.conn.lr == lr,
        after.conn.rights == s.conn.rights,
        after.conn.media.video_ack_required == lr.video_ack_required,
        after.out.last() == Action::ToCm(CmData::Login(shown(after.conn, true))),
{
    let c = request_taken(s.conn, lr);
    let begun = cm_ipc_started(Scene { conn: c, ..s }, env);
    known_password_gets_in(begun, env, facts);
    assert(purpose_known(Scene { conn: c, ..s }, env, facts).0 == desktop_known(
        begun,
        env,
        facts,
        DesktopStart::Ready,
    ).0);
}

/// The right password of the day begins a session of the peer: with its name and number, kept
/// alive by this connection, with that password and without the second factor. The permanent
/// password begins none. A right password wipes the record of the address out.
#[verifier::rlimit(60)]
pub proof fn known_password_begins_session(s: Scene, env: Env, facts: LogonFacts, other: Seq<char>)
    requires
        !s.conn.auth.authorized,
        s.conn.auth.require_2fa is None,
        asks_by_password(s.conn, env),
        knows_temporary(s.conn, env) || knows_permanent(s.conn, env),
        s.reg.sessions == Map::<Seq<char>, SessionView>::empty(),
        s.reg.password_failures.dom().contains(s.conn.trace.ip@) ==> {
            let record = s.reg.password_failures[s.conn.trace.ip@];
            record.1 <= 6 && record.2 <= 30 && record.0 != 0
        },
    ensures
        ({
            let after = desktop_known(s, env, facts, DesktopStart::Ready).0;
            &&& knows_temporary(s.conn, env) ==> after.reg.sessions.dom().contains(
                s.conn.lr.my_id@,
            ) && after.reg.sessions[s.conn.lr.my_id@] == (SessionView {
                name: s.conn.lr.my_name@,
                session_id: s.conn.lr.session_id,
                clock: s.conn.inner.id,
                random_password: env.passwords.temporary@,
                tfa: false,
            })
            &&& !knows_temporary(s.conn, env) ==> !after.reg.sessions.dom().contains(
                s.conn.lr.my_id@,
            )
            &&& !after.reg.password_failures.dom().contains(s.conn.trace.ip@)
            &&& other != s.conn.trace.ip@ ==> (after.reg.password_failures.dom().contains(other)
                <==> s.reg.password_failures.dom().contains(other))
            &&& after.reg.tfa_failures == s.reg.tfa_failures
        }),
{
}

/// A peer without a session whose answer is right for no password in use stays out. It hears so,
/// the connection manager is shown that it is not in, and the attempt is counted against its
/// address: one more altogether, and one more of this minute or the first of it.
#[verifier::rlimit(60)]
pub proof fn unknown_password_stays_out(s: Scene, env: Env, facts: LogonFacts, other: Seq<char>)
    requires
        asks_by_password(s.conn, env),
        !knows_temporary(s.conn, env),
        !knows_permanent(s.conn, env),
        !s.reg.sessions.dom().contains(s.conn.lr.my_id@),
        env.epoch_ms >= 0,
        s.reg.password_failures.dom().contains(s.conn.trace.ip@) ==> {
            let record = s.reg.password_failures[s.conn.trace.ip@];
            record.1 <= 6 && record.2 <= 30
        },
    ensures
        ({
            let (after, go_on) = desktop_known(s, env, facts, DesktopStart::Ready);
            let ip = s.conn.trace.ip@;
            let minute = (env.epoch_ms as int / 60_000) as i32;
            let (last, few, all) = if s.reg.password_failures.dom().contains(ip) {
                s.reg.password_failures[ip]
            } else {
                (0i32, 0i32, 0i32)
            };
            let now = after.reg.password_failures[ip];
            &&& go_on
            &&& after.conn == s.conn
            &&& after.out == s.out.push(refusal(LoginError::PasswordWrong)).push(
                Action::ToCm(CmData::Login(shown(s.conn, false))),
            )
            &&& after.reg.password_failures.dom().contains(ip)
            &&& now.0 == minute
            &&& last == minute ==> now.1 == few + 1
            &&& last != minute ==> now.1 == 1
            &&& now.2 == all + 1
            &&& other != ip ==> (after.reg.password_failures.dom().contains(other)
                <==> s.reg.password_failures.dom().contains(other))
            &&& other != ip ==> after.reg.password_failures[other]
                == s.reg.password_failures[other]
            &&& after.reg.tfa_failures == s.reg.tfa_failures
            &&& after.reg.authed_conns == s.reg.authed_conns
        }),
{
}

/// An address with more than thirty wrong attempts, or with more than six in this minute, is told
/// so, whatever password it shows. Nothing is counted, and where alarms are reported one goes out.
#[verifier::rlimit(60)]
pub proof fn many_attempts_are_refused(s: Scene, env: Env, facts: LogonFacts)
    requires
        asks_by_password(s.conn, env),
        !s.reg.sessions.dom().contains(s.conn.lr.my_id@),
        env.epoch_ms >= 0,
        s.reg.password_failures.dom().contains(s.conn.trace.ip@),
        ({
            let record = s.reg.password_failures[s.conn.trace.ip@];
            record.2 > 30 || record.0 == (env.epoch_ms as int / 60_000) as i32 && record.1 > 6
        }),
    ensures
        ({
            let (after, go_on) = desktop_known(s, env, facts, DesktopStart::Ready);
            let ever = s.reg.password_failures[s.conn.trace.ip@].2 > 30;
            let told = s.out.push(
                refusal(
                    if ever {
                        LoginError::TooManyWrongAttempts
                    } else {
                        LoginError::TryOneMinuteLater
                    },
                ),
            );
            let alarm = Action::AlarmAudit(
                AlarmAudit {
                    url: env.audit.alarm,
                    typ: if ever {
                        1
                    } else {
                        2
                    },
                    info: AlarmInfo::Attempts {
                        ip: s.conn.trace.ip,
                        id: s.conn.lr.my_id,
                        name: s.conn.lr.my_name,
                    },
                },
            );
            &&& go_on
            &&& after.conn == s.conn
            &&& after.reg.password_failures == s.reg.password_failures
            &&& after.reg.authed_conns == s.reg.authed_conns
            &&& env.audit.alarm@.len() == 0 ==> after.out == told
            &&& env.audit.alarm@.len() > 0 ==> after.out == told.push(alarm)
        }),
{
}

/// A peer that asks for another machine is told that it is not there; where peers are let in by
/// password alone and there is none, the peer is told that it is not allowed. Both end.
pub proof fn misplaced_request_ends(s: Scene, env: Env, facts: LogonFacts, start: DesktopStart)
    requires
        !(start is Failed),
    ensures
        ({
            let (after, go_on) = desktop_known(s, env, facts, start);
            let elsewhere = !env.username_is_address && s.conn.lr.username@ != env.own_id@;
            let never = env.passwords.approve_mode == ApproveMode::Password
                && !env.passwords.has_valid_password;
            &&& elsewhere ==> !go_on && after.conn == s.conn && after.reg == s.reg && after.out
                == s.out.push(refusal(LoginError::Offline))
            &&& !elsewhere && never ==> !go_on && after.conn == s.conn && after.reg == s.reg
                && after.out == s.out.push(refusal(LoginError::NotAllowed))
        }),
{
}

/// Where only the user of this machine lets peers in, by choice or for want of a password, the
/// connection manager is shown the peer, whatever password it gave; a peer that is not too old
/// hears that no password helps.
pub proof fn user_is_asked(s: Scene, env: Env, facts: LogonFacts, start: DesktopStart)
    requires
        !(start is Failed),
        env.username_is_address || s.conn.lr.username@ == env.own_id@,
        env.passwords.approve_mode == ApproveMode::Click || env.passwords.approve_mode
            == ApproveMode::Both && !env.passwords.has_valid_password,
    ensures
        ({
            let (after, go_on) = desktop_known(s, env, facts, start);
            let told = s.out.push(Action::ToCm(CmData::Login(shown(s.conn, false))));
            &&& go_on
            &&& after.conn == s.conn
            &&& after.reg == s.reg
            &&& s.conn.lr.version.number >= env.version_1_2_0 ==> after.out == told.push(
                refusal(LoginError::NoPasswordAccess),
            )
            &&& s.conn.lr.version.number < env.version_1_2_0 ==> after.out == told
        }),
{
}

/// A peer without a session that shows no password is shown to the user of this machine and waits;
/// where there is no desktop session, it hears that it has to give one.
pub proof fn silent_peer_waits(s: Scene, env: Env, facts: LogonFacts, start: DesktopStart)
    requires
        !(start is Failed),
        env.username_is_address || s.conn.lr.username@ == env.own_id@,
        env.passwords.has_valid_password,
        env.passwords.approve_mode != ApproveMode::Click,
        s.conn.lr.password@.len() == 0,
    ensures
        ({
            let (after, go_on) = desktop_known(s, env, facts, start);
            &&& go_on
            &&& after.conn == s.conn
            &&& after.reg.password_failures == s.reg.password_failures
            &&& start is Ready ==> after.out == s.out.push(
                Action::ToCm(CmData::Login(shown(s.conn, false))),
            )
            &&& start is NotReady ==> after.out == s.out.push(
                refusal(LoginError::DesktopSessionNotReadyPasswordEmpty),
            )
        }),
{
}

/// Where the desktop session could not be started, the peer hears why, and nothing is looked at.
/// Where it is not there yet, a right and a wrong password are told apart, and counted, but nobody
/// gets in.
#[verifier::rlimit(60)]
pub proof fn missing_desktop_keeps_out(s: Scene, env: Env, facts: LogonFacts, start: DesktopStart)
    ensures
        start matches DesktopStart::Failed(error) ==> {
            let (after, go_on) = desktop_known(s, env, facts, start);
            &&& go_on
            &&& after.conn == s.conn
            &&& after.reg == s.reg
            &&& after.out == s.out.push(refusal(LoginError::Other(error)))
        },
        start is NotReady && asks_by_password(s.conn, env) && !s.reg.sessions.dom().contains(
            s.conn.lr.my_id@,
        ) && !s.reg.password_failures.dom().contains(s.conn.trace.ip@) && !(env.epoch_ms
            < 60_000) ==> {
            let (after, go_on) = desktop_known(s, env, facts, start);
            let right = knows_temporary(s.conn, env) || knows_permanent(s.conn, env);
            &&& go_on
            &&& after.conn == s.conn
            &&& after.reg.password_failures.dom().contains(s.conn.trace.ip@) == !right
            &&& after.out == s.out.push(
                refusal(
                    if right {
                        LoginError::DesktopSessionNotReady
                    } else {
                        LoginError::DesktopSessionNotReadyPasswordWrong
                    },
                ),
            )
        },
{
}

/// A peer that comes back within thirty seconds to a session of its own gets in with the password
/// of that session, even where that password is in use no more; the session is kept alive by the
/// new connection from then on.
#[verifier::rlimit(60)]
pub proof fn session_lets_back_in(s: Scene, env: Env, facts: LogonFacts)
    requires
        !s.conn.auth.authorized,
        s.conn.auth.require_2fa is None,
        asks_by_password(s.conn, env),
        s.reg.sessions.dom().contains(s.conn.lr.my_id@),
        ({
            let session = s.reg.sessions[s.conn.lr.my_id@];
            &&& session.name == s.conn.lr.my_name@
            &&& session.session_id == s.conn.lr.session_id
            &&& answers(s.conn.auth.hash, session.random_password, s.conn.lr.password@)
            &&& s.reg.recv_times.dom().contains(session.clock)
            &&& env.now - s.reg.recv_times[session.clock] < 30_000
        }),
    ensures
        ({
            let (after, go_on) = desktop_known(s, env, facts, DesktopStart::Ready);
            let session = s.reg.sessions[s.conn.lr.my_id@];
            &&& go_on
            &&& after.conn.auth.authorized
            &&& after.reg.sessions.dom().contains(s.conn.lr.my_id@)
            &&& after.reg.sessions[s.conn.lr.my_id@] == (SessionView {
                clock: s.conn.inner.id,
                ..session
            })
            &&& after.reg.password_failures == s.reg.password_failures
        }),
{
}

/// A session does not help where its connection has been silent for thirty seconds, or where it is
/// of another name or number: a password that is in use no more stays out then.
#[verifier::rlimit(60)]
pub proof fn foreign_session_does_not_help(s: Scene, env: Env, facts: LogonFacts)
    requires
        !s.conn.auth.authorized,
        asks_by_password(s.conn, env),
        !knows_temporary(s.conn, env),
        !knows_permanent(s.conn, env),
        s.reg.sessions.dom().contains(s.conn.lr.my_id@),
        ({
            let session = s.reg.sessions[s.conn.lr.my_id@];
            ||| session.name != s.conn.lr.my_name@
            ||| session.session_id != s.conn.lr.session_id
            ||| s.reg.recv_times.dom().contains(session.clock) && env.now
                - s.reg.recv_times[session.clock] >= 30_000
            ||| !answers(s.conn.auth.hash, session.random_password, s.conn.lr.password@)
        }),
    ensures
        ({
            let after = desktop_known(s, env, facts, DesktopStart::Ready).0;
            &&& !after.conn.auth.authorized
            &&& after.reg.authed_conns == s.reg.authed_conns
        }),
{
}

/// A peer that shows a right password or session but owes the second factor hears so and is not
/// in yet.
#[verifier::rlimit(60)]
pub proof fn second_factor_is_asked_for(s: Scene, env: Env, facts: LogonFacts)
    requires
        !s.conn.auth.authorized,
        s.conn.auth.require_2fa is Some,
        !s.conn.auth.from_switch,
        asks_by_password(s.conn, env),
        env.target.os != Os::Linux,
        knows_permanent(s.conn, env) && !knows_temporary(s.conn, env),
        !s.reg.sessions.dom().contains(s.conn.lr.my_id@),
        !s.reg.password_failures.dom().contains(s.conn.trace.ip@),
    ensures
        ({
            let (after, go_on) = desktop_known(s, env, facts, DesktopStart::Ready);
            &&& go_on
            &&& !after.conn.auth.authorized
            &&& after.out == s.out.push(refusal(LoginError::Require2fa)).push(
                Action::ToCm(CmData::Login(shown(s.conn, false))),
            )
            &&& after.reg.authed_conns == s.reg.authed_conns
        }),
{
}

/// A code for the second factor that the one-time passwords say is right lets the peer in, is
/// remembered in its session, and is shown to the connection manager. A wrong one is refused and
/// counted against the address, apart from wrong passwords. A code counts for nothing where none
/// is owed.
#[verifier::rlimit(60)]
pub proof fn second_factor_decides(
    s: Scene,
    env: Env,
    facts: LogonFacts,
    code: String,
    after: Scene,
    step: LoginStep,
)
    requires
        message_taken(s, env, facts, PeerMessage::Auth2fa { code }, after, step),
        !s.conn.auth.authorized,
        !s.reg.tfa_failures.dom().contains(s.conn.trace.ip@),
        env.epoch_ms >= 60_000,
    ensures
        step == LoginStep::Done(true),
        s.conn.auth.require_2fa is None ==> after == s,
        s.conn.auth.require_2fa matches Some(totp) ==> (env.epoch_secs matches Some(secs) ==> {
            let right = totp_check(
                totp.algorithm.number(),
                totp.digits as int,
                totp.skew as int,
                totp.step as int,
                totp.secret@,
                code@,
                secs as int,
            );
            let usable = totp.step > 0 && totp.digits <= 9 && secs as int / totp.step as int
                >= totp.skew && (secs as int / totp.step as int + totp.skew) * totp.step
                <= u64::MAX;
            &&& !usable ==> after == s
            &&& usable && right ==> {
                &&& after.conn.auth.authorized
                &&& after.conn.auth.require_2fa is None
                &&& after.reg.sessions.dom().contains(s.conn.lr.my_id@)
                &&& after.reg.sessions[s.conn.lr.my_id@].tfa
                &&& s.reg.sessions.dom().contains(s.conn.lr.my_id@)
                    ==> after.reg.sessions[s.conn.lr.my_id@] == (SessionView {
                    tfa: true,
                    ..s.reg.sessions[s.conn.lr.my_id@]
                })
                &&& after.reg.password_failures == s.reg.password_failures
                &&& after.reg.tfa_failures == s.reg.tfa_failures
                &&& after.out.last() == Action::ToCm(CmData::Login(shown(after.conn, true)))
            }
            &&& usable && !right ==> {
                &&& after.conn == s.conn
                &&& after.out == s.out.push(refusal(LoginError::Wrong2fa))
                &&& after.reg == (RegistryView {
                    tfa_failures: s.reg.tfa_failures.insert(
                        s.conn.trace.ip@,
                        ((env.epoch_ms as int / 60_000) as i32, 1, 1),
                    ),
                    ..s.reg
                })
            }
        }),
{
}

/// The user of this machine lets a peer in without a password and without the second factor.
#[verifier::rlimit(60)]
pub proof fn user_lets_in(s: Scene, env: Env, facts: LogonFacts, after: Scene, go_on: bool)
    requires
        cm_taken(s, env, facts, CmEvent::Authorize, after, go_on),
        !s.conn.auth.authorized,
    ensures
        after.conn.auth.authorized,
        after.conn.auth.require_2fa is None,
        after.reg.authed_conns == s.reg.authed_conns.push((s.conn.inner.id, kind_of(s.conn))),
        go_on == !s.conn.purpose.port_forward,
        after.conn.rights == s.conn.rights,
{
}

/// A request for what this machine does not give is refused and ends: for control in privacy mode
/// at once, for files or a port without the permission after a second.
pub proof fn purpose_is_refused(
    s: Scene,
    env: Env,
    facts: LogonFacts,
    lr: LoginRequest,
    after: Scene,
    step: LoginStep,
)
    requires
        message_taken(s, env, facts, PeerMessage::LoginRequest(lr), after, step),
        !s.conn.auth.authorized,
        !env.target.flutter || on_phone(env.target),
    ensures
        lr.kind is Remote && env.in_privacy_mode ==> step == LoginStep::Done(false) && after.out
            == s.out.push(refusal(LoginError::PrivacyModeOn)) && after.reg == s.reg,
        lr.kind is FileTransfer && env.config.options@.dom().contains("enable-file-transfer"@)
            && env.config.options@["enable-file-transfer"@].len() > 0 ==> step == LoginStep::Done(
            false,
        ) && after.out == s.out.push(refusal(LoginError::NoFileTransferPermission)).push(
            Action::Sleep { ms: 1_000 },
        ) && after.reg == s.reg,
        lr.kind is PortForward && env.config.options@.dom().contains("enable-tunnel"@)
            && env.config.options@["enable-tunnel"@].len() > 0 ==> step == LoginStep::Done(false)
            && after.out == s.out.push(refusal(LoginError::NoTunnelPermission)).push(
            Action::Sleep { ms: 1_000 },
        ) && after.reg == s.reg,
        lr.kind is PortForward && !env.config.options@.dom().contains("enable-tunnel"@) ==> step
            == LoginStep::Connect && after.out == s.out && after.reg == s.reg,
{
}

/// In the new window the access mode decides on all permissions at once: with full access files
/// and ports may be had whatever the options say, with access to the view neither may.
pub proof fn access_mode_decides(
    s: Scene,
    env: Env,
    facts: LogonFacts,
    lr: LoginRequest,
    after: Scene,
    step: LoginStep,
)
    requires
        message_taken(s, env, facts, PeerMessage::LoginRequest(lr), after, step),
        !s.conn.auth.authorized,
        env.target.flutter,
        !on_phone(env.target),
        env.config.options@.dom().contains("access-mode"@),
        lr.kind is PortForward,
    ensures
        env.config.options@["access-mode"@] == "full"@ ==> step == LoginStep::Connect,
        env.config.options@["access-mode"@] == "view"@ ==> step == LoginStep::Done(false)
            && after.out == s.out.push(refusal(LoginError::NoTunnelPermission)).push(
            Action::Sleep { ms: 1_000 },
        ),
{
    reveal_strlit("full");
    reveal_strlit("view");
    assert("full"@[0] == 'f' && "view"@[0] == 'v');
}

/// A peer that is in already changes nothing with another request but what is known of it: the
/// request itself, its options, and whether it confirms pictures.
pub proof fn second_request_is_noted(
    s: Scene,
    env: Env,
    facts: LogonFacts,
    lr: LoginRequest,
    after: Scene,
    step: LoginStep,
)
    requires
        message_taken(s, env, facts, PeerMessage::LoginRequest(lr), after, step),
        s.conn.auth.authorized,
    ensures
        step == LoginStep::Done(true),
        after.reg == s.reg,
        after.out == s.out,
        after.conn == (Connection {
            lr,
            auth: Auth { options_in_login: after.conn.auth.options_in_login, ..s.conn.auth },
            media: Media { video_ack_required: lr.video_ack_required, ..s.conn.media },
            ..s.conn
        }),
        lr.option is Some ==> after.conn.auth.options_in_login == lr.option,
        lr.option is None ==> after.conn.auth.options_in_login == s.conn.auth.options_in_login,
{
}

/// A desktop session is started with the credentials that the peer gives, or without any, where
/// this machine may run without a display; the task that talks to the connection manager is
/// started first, once.
pub proof fn desktop_is_started(
    s: Scene,
    env: Env,
    facts: LogonFacts,
    lr: LoginRequest,
    after: Scene,
    step: LoginStep,
)
    requires
        message_taken(s, env, facts, PeerMessage::LoginRequest(lr), after, step),
        !s.conn.auth.authorized,
        env.target.os == Os::Linux,
        s.conn.auth.linux_headless_handle.is_headless_allowed,
        lr.kind is Remote,
        !env.in_privacy_mode,
    ensures
        lr.os_login matches Some(login) ==> step == LoginStep::StartDesktop(
            DesktopLogin { login: Some((login.username, login.password)) },
        ),
        lr.os_login is None ==> step == LoginStep::StartDesktop(DesktopLogin { login: None }),
        !after.conn.auth.start_cm_ipc_para,
        s.conn.auth.start_cm_ipc_para ==> after.out == s.out.push(Action::StartCmIpc),
        !s.conn.auth.start_cm_ipc_para ==> after.out == s.out,
        after.reg == s.reg,
{
}

/// A port whose address cannot be reached is not forwarded: the peer hears which address it was,
/// and the connection ends.
pub proof fn unreachable_address_ends(s: Scene, env: Env, facts: LogonFacts)
    ensures
        ({
            let (after, step) = forward_known(s, env, facts, false);
            &&& step == LoginStep::Done(false)
            &&& after.conn == s.conn
            &&& after.reg == s.reg
            &&& s.conn.lr.kind matches LoginKind::PortForward { host, port } ==> {
                &&& host@ == "RDP"@ && port == 0 ==> after.out == s.out.push(
                    refusal(LoginError::RdpUnreachable),
                )
                &&& host@ != "RDP"@ || port != 0 ==> after.out == s.out.push(
                    refusal(
                        LoginError::ForwardUnreachable {
                            addr: s.conn.purpose.port_forward_address,
                        },
                    ),
                )
            }
        }),
{
}

/// A peer that swaps sides gets in with the token that was given out to it less than ten seconds
/// ago, and with no other. The token is gone afterwards in any case. Without the new window, or
/// without a request to log on, nothing happens.
#[verifier::rlimit(60)]
pub proof fn token_decides(
    s: Scene,
    env: Env,
    facts: LogonFacts,
    uuid: Vec<u8>,
    lr: Option<LoginRequest>,
    after: Scene,
    step: LoginStep,
)
    requires
        message_taken(s, env, facts, PeerMessage::SwitchSidesResponse { uuid, lr }, after, step),
        !s.conn.auth.authorized,
    ensures
        step == LoginStep::Done(true),
        !env.target.flutter || lr is None ==> after == s,
        env.target.flutter ==> (lr matches Some(request) ==> {
            let peer = request.my_id@;
            let token = s.reg.switch_sides[peer];
            let right = s.reg.switch_sides.dom().contains(peer) && token.uuid@ == uuid@ && (env.now
                <= token.at || env.now - token.at < 10_000);
            &&& after.conn.auth.authorized == right
            &&& after.conn.auth.from_switch == (right || s.conn.auth.from_switch)
            &&& after.conn.lr == request
            &&& !after.reg.switch_sides.dom().contains(peer)
            &&& !right ==> after.out == s.out && after.reg.authed_conns == s.reg.authed_conns
            &&& right ==> after.reg.authed_conns == s.reg.authed_conns.push(
                (s.conn.inner.id, kind_of(s.conn)),
            )
        }),
{
}

/// The address whose port is forwarded is the host and the port that the peer names; this machine
/// where it names no host; and the remote desktop service of this machine where it asks for that.
pub proof fn forward_address_is_taken(
    s: Scene,
    env: Env,
    facts: LogonFacts,
    lr: LoginRequest,
    after: Scene,
    step: LoginStep,
)
    requires
        message_taken(s, env, facts, PeerMessage::LoginRequest(lr), after, step),
        step is Connect,
    ensures
        lr.kind matches LoginKind::PortForward { host, port } && {
            let address = after.conn.purpose.port_forward_address@;
            &&& after.reg == s.reg
            &&& after.out == s.out
            &&& host@ == "RDP"@ && port == 0 ==> address == "localhost:3389"@
            &&& host@.len() == 0 ==> address == "localhost:"@ + decimal_of(port as int)
            &&& host@.len() > 0 && (host@ != "RDP"@ || port != 0) ==> address == host@ + ":"@
                + decimal_of(port as int)
        },
{
    reveal_strlit("RDP");
    reveal_strlit("localhost");
    reveal_strlit("localhost:");
    reveal_strlit("localhost:3389");
    reveal_strlit(":");
    assert("RDP"@.len() == 3);
    assert("localhost"@ + ":"@ =~= "localhost:"@);
    reveal_with_fuel(decimal_of_nat, 5);
    assert(decimal_of(3389) =~= seq!['3', '3', '8', '9']);
    assert("localhost:"@ + seq!['3', '3', '8', '9'] =~= "localhost:3389"@);
}

/// On a Linux machine without a display a peer gets in only after the desktop session was waited
/// for; elsewhere nothing is waited for.
#[verifier::rlimit(60)]
pub proof fn desktop_is_waited_for(s: Scene, env: Env, facts: LogonFacts)
    requires
        !s.conn.auth.authorized,
        s.conn.auth.require_2fa is Some,
        !s.conn.auth.from_switch,
        asks_by_password(s.conn, env),
        knows_permanent(s.conn, env) && !knows_temporary(s.conn, env),
        !s.reg.sessions.dom().contains(s.conn.lr.my_id@),
        !s.reg.password_failures.dom().contains(s.conn.trace.ip@),
    ensures
        ({
            let after = desktop_known(s, env, facts, DesktopStart::Ready).0;
            let handle = s.conn.auth.linux_headless_handle;
            let waits = env.target.os == Os::Linux && handle.is_headless;
            &&& waits ==> after.out[s.out.len() as int] == (Action::WaitDesktopReady {
                timeout_ms: handle.wait_ipc_timeout,
            })
            &&& !waits ==> after.out[s.out.len() as int] == refusal(LoginError::Require2fa)
        }),
{
}

/// A request for files is kept in mind with the directory that the peer names and its wish for
/// hidden files, and a request for control leaves no other purpose.
#[verifier::rlimit(60)]
pub proof fn purpose_is_kept(
    s: Scene,
    env: Env,
    facts: LogonFacts,
    lr: LoginRequest,
    after: Scene,
    step: LoginStep,
)
    requires
        message_taken(s, env, facts, PeerMessage::LoginRequest(lr), after, step),
        !s.conn.auth.authorized,
        !env.in_privacy_mode,
        !env.target.flutter || on_phone(env.target),
        !env.config.options@.dom().contains("enable-file-transfer"@),
        env.passwords.approve_mode == ApproveMode::Click,
    ensures
        lr.kind matches LoginKind::FileTransfer { dir, show_hidden } ==> after.conn.purpose
            == (Purpose { file_transfer: Some((dir, show_hidden)), ..s.conn.purpose }),
        lr.kind is Remote ==> after.conn.purpose == s.conn.purpose,
        after.conn.lr == lr,
{
}

/// A port whose address is reached is forwarded once the peer is in, and the peer gets in as for
/// anything else.
#[verifier::rlimit(60)]
pub proof fn reached_address_is_forwarded(s: Scene, env: Env, facts: LogonFacts)
    requires
        !s.conn.auth.authorized,
        s.conn.auth.require_2fa is None,
        s.conn.purpose.file_transfer is None,
        asks_by_password(s.conn, env),
        env.target.os != Os::Linux,
        knows_temporary(s.conn, env) || knows_permanent(s.conn, env),
        s.reg.password_failures.dom().contains(s.conn.trace.ip@) ==> {
            let record = s.reg.password_failures[s.conn.trace.ip@];
            record.1 <= 6 && record.2 <= 30
        },
    ensures
        ({
            let (after, step) = forward_known(s, env, facts, true);
            &&& step == LoginStep::Done(true)
            &&& after.conn.auth.authorized
            &&& after.reg.authed_conns == s.reg.authed_conns.push(
                (s.conn.inner.id, AuthConnType::PortForward),
            )
        }),
{
    let forwards = Scene {
        conn: Connection {
            purpose: Purpose { port_forward: true, ..s.conn.purpose },
            ..s.conn
        },
        ..s
    };
    let begun = cm_ipc_started(forwards, env);
    known_password_gets_in(begun, env, facts);
    assert(forward_known(s, env, facts, true).0 == desktop_known(
        begun,
        env,
        facts,
        DesktopStart::Ready,
    ).0);
}

/// An address with more than thirty wrong codes, or with more than six in this minute, is told so,
/// whatever code it shows, and nothing is counted. Wrong passwords do not count here.
pub proof fn many_codes_are_refused(
    s: Scene,
    env: Env,
    facts: LogonFacts,
    code: String,
    after: Scene,
    step: LoginStep,
)
    requires
        message_taken(s, env, facts, PeerMessage::Auth2fa { code }, after, step),
        env.epoch_ms >= 0,
        s.reg.tfa_failures.dom().contains(s.conn.trace.ip@),
        ({
            let record = s.reg.tfa_failures[s.conn.trace.ip@];
            record.2 > 30 || record.0 == (env.epoch_ms as int / 60_000) as i32 && record.1 > 6
        }),
    ensures
        after.conn == s.conn,
        after.reg == s.reg,
        env.audit.alarm@.len() == 0 ==> after.out == s.out.push(
            refusal(
                if s.reg.tfa_failures[s.conn.trace.ip@].2 > 30 {
                    LoginError::TooManyWrongAttempts
                } else {
                    LoginError::TryOneMinuteLater
                },
            ),
        ),
{
}

/// Without a time no code is judged.
pub proof fn code_needs_time(
    s: Scene,
    env: Env,
    facts: LogonFacts,
    code: String,
    after: Scene,
    step: LoginStep,
)
    requires
        message_taken(s, env, facts, PeerMessage::Auth2fa { code }, after, step),
        !s.reg.tfa_failures.dom().contains(s.conn.trace.ip@),
        env.epoch_secs is None,
    ensures
        step == LoginStep::Done(true),
        after == s,
{
}

} // verus!
