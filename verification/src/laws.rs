//! What holds of a connection as a whole: who gets in, and what a peer can bring about.

use vstd::prelude::*;

use crate::connection::{login_error, Auth, Connection, Purpose, Scene};
use crate::env::Env;
use crate::failures::{
    attempt_noted, attempts_keep_counts, counts_fit, failure_of, may_try, minute_of,
    refusal_actions, Factor,
};
use crate::input::{modifier_of, modifiers_stay_distinct};
use crate::login::{
    cm_ipc_started, desktop_known, forward_known, login_requested, never_let_in, only_click,
    purpose_error, purpose_known, purpose_taken, request_taken, second_factor_judged,
    wrong_machine, DesktopStart, LoginStep,
};
use crate::logon::{conn_kind, logon, owes_second_factor, LogonFacts};
use crate::message::{LoginError, LoginRequest, Message, Misc, PeerMessage};
use crate::opening::{is_new, Opening};
use crate::peer_message::message_taken;
use crate::registry::{
    is_other, other_conns, released_connection_is_gone, ConnectionID, RegistryView,
};
use crate::retina::DisplayInfo;
use crate::run::{
    cm_taken, delay_timer_passed, outgoing_taken, rights_switched, second_passed, taken_away,
    CmEvent,
};
use crate::session::{is_recent, password_seen, sessions_seen, shows_permanent, shows_temporary};
use crate::switch_sides::{token_right, token_taken};
use crate::target::{Os, Target};

verus! {

/// Letting a peer in changes what the connection is about in nothing else.
proof fn lemma_logon(s: Scene, env: Env, facts: LogonFacts)
    ensures
        logon(s, env, facts).conn.auth.authorized == (s.conn.auth.authorized
            || !owes_second_factor(s.conn, s.reg, env.now)),
        logon(s, env, facts).conn.rights == s.conn.rights,
        logon(s, env, facts).conn.inner == s.conn.inner,
        logon(s, env, facts).conn.lr == s.conn.lr,
        logon(s, env, facts).conn.trace == s.conn.trace,
        logon(s, env, facts).conn.purpose.port_forward == s.conn.purpose.port_forward,
{
}

/// What holds of every connection at all times: it is authorised exactly where it is entered among
/// the authorised ones, under its own number; a modifier counts as pressed once; and removals are
/// recorded under its own number.
pub open spec fn sound(c: Connection) -> bool {
    &&& c.auth.authorized <==> c.auth.authed_conn_id is Some
    &&& c.auth.authed_conn_id matches Some(authed) ==> authed.0 == c.inner.id
    &&& c.pressed_modifiers@.no_duplicates()
    &&& c.file_remove_log_control.conn_id == c.inner.id
}

/// What holds of the registry at all times: the counts of wrong attempts are those that can come of
/// attempts that were let through.
pub open spec fn sound_registry(reg: RegistryView) -> bool {
    counts_fit(reg.password_failures) && counts_fit(reg.tfa_failures)
}

/// Letting a peer in keeps what holds at all times.
#[verifier::rlimit(60)]
proof fn lemma_logon_sound(s: Scene, env: Env, facts: LogonFacts)
    ensures
        sound(s.conn) ==> sound(logon(s, env, facts).conn),
        logon(s, env, facts).reg.password_failures == s.reg.password_failures,
        logon(s, env, facts).reg.tfa_failures == s.reg.tfa_failures,
{
}

/// A peer that owes the second factor is not let in by anything but the second factor, a session
/// in which it was given, a token for swapping sides, or the user of this machine: it is answered
/// that the second factor is needed.
pub proof fn second_factor_cannot_be_skipped(s: Scene, env: Env, facts: LogonFacts)
    requires
        !s.conn.auth.authorized,
        s.conn.auth.require_2fa is Some,
        !s.conn.auth.from_switch,
        !is_recent(s.conn, s.reg, env.now, true),
    ensures
        !logon(s, env, facts).conn.auth.authorized,
        logon(s, env, facts).conn == s.conn,
        logon(s, env, facts).out == s.out.push(
            login_error(LoginError::Require2fa),
        ),
        logon(s, env, facts).reg.authed_conns == s.reg.authed_conns,
{
}

/// A peer that is in is not let in a second time.
pub proof fn logon_happens_once(s: Scene, env: Env, facts: LogonFacts, again: LogonFacts)
    requires
        logon(s, env, facts).conn.auth.authorized,
    ensures
        logon(logon(s, env, facts), env, again) == logon(s, env, facts),
{
}

/// A peer that is let in is entered among the authorised connections, once and with what it is
/// for.
pub proof fn logon_is_entered(s: Scene, env: Env, facts: LogonFacts)
    requires
        !s.conn.auth.authorized,
        logon(s, env, facts).conn.auth.authorized,
    ensures
        logon(s, env, facts).reg.authed_conns == s.reg.authed_conns.push(
            (s.conn.inner.id, conn_kind(s.conn).1),
        ),
{
}

/// The peer shows a password that is in use, and may still try.
pub open spec fn password_accepted(c: Connection, reg: RegistryView, env: Env) -> bool {
    &&& c.lr.password@.len() > 0
    &&& may_try(failure_of(reg, Factor::Password, c.trace.ip@), minute_of(env.epoch_ms))
    &&& shows_temporary(c, env) || shows_permanent(c, env)
}

/// The peer asks for this machine, peers are let in by password, and the peer comes back to a
/// session or shows a password.
pub open spec fn lets_itself_in(c: Connection, reg: RegistryView, env: Env) -> bool {
    &&& !wrong_machine(c, env)
    &&& !only_click(env)
    &&& !never_let_in(env)
    &&& is_recent(c, reg, env.now, false) || password_accepted(c, reg, env)
}

/// A message with which a peer that is not in can get in.
pub open spec fn invites(s: Scene, env: Env, msg: PeerMessage) -> bool {
    let c = s.conn;
    match msg {
        PeerMessage::LoginRequest(lr) => {
            &&& purpose_error(request_taken(c, lr), env) is None
            &&& lets_itself_in(request_taken(c, lr), s.reg, env)
        },
        PeerMessage::Auth2fa { code } => {
            &&& may_try(
                failure_of(s.reg, Factor::Second, c.trace.ip@),
                minute_of(env.epoch_ms),
            )
            &&& c.auth.require_2fa matches Some(totp) && totp.verdict(code@, env.epoch_secs)
                == Some(true)
        },
        PeerMessage::SwitchSidesResponse { uuid, lr } => {
            &&& env.target.flutter
            &&& lr matches Some(lr) && token_right(s.reg, env.now, lr.my_id@, uuid@)
        },
        _ => false,
    }
}

/// Once a desktop session is there, a peer gets in only where it lets itself in.
#[verifier::rlimit(60)]
pub proof fn desktop_lets_in(s: Scene, env: Env, facts: LogonFacts, start: DesktopStart)
    ensures
        !s.conn.auth.authorized && desktop_known(s, env, facts, start).0.conn.auth.authorized
            ==> lets_itself_in(s.conn, s.reg, env) && start is Ready,
        s.conn.auth.authorized ==> desktop_known(
            s,
            env,
            facts,
            start,
        ).0.conn.auth.authorized,
        desktop_known(s, env, facts, start).0.conn.rights == s.conn.rights,
        desktop_known(s, env, facts, start).0.conn.inner == s.conn.inner,
{
    let seen = Scene {
        reg: sessions_seen(s.conn, s.reg, env.now, false),
        ..s
    };
    let c = s.conn;
    let out = if env.target.os == Os::Linux {
        c.auth.linux_headless_handle.wait_actions(seen.out)
    } else {
        seen.out
    };
    lemma_logon(Scene { out, ..seen }, env, facts);
    let reg = attempt_noted(
        password_seen(c, seen.reg, env),
        Factor::Password,
        c.trace.ip@,
        failure_of(seen.reg, Factor::Password, c.trace.ip@),
        minute_of(env.epoch_ms),
        true,
    );
    lemma_logon(Scene { out, reg, ..seen }, env, facts);
}

/// Once it is known what a peer wants, it gets in only where it lets itself in.
proof fn lemma_purpose_known(s: Scene, env: Env, facts: LogonFacts)
    ensures
        !s.conn.auth.authorized && purpose_known(s, env, facts).0.conn.auth.authorized
            ==> lets_itself_in(s.conn, s.reg, env),
        s.conn.auth.authorized ==> purpose_known(s, env, facts).0.conn.auth.authorized,
        purpose_known(s, env, facts).0.conn.rights == s.conn.rights,
        purpose_known(s, env, facts).0.conn.inner == s.conn.inner,
{
    desktop_lets_in(cm_ipc_started(s, env), env, facts, DesktopStart::Ready);
}

/// When the address is reached whose port is forwarded, a peer gets in only where it lets itself
/// in; when it is not reached, it does not.
pub proof fn forward_lets_in(s: Scene, env: Env, facts: LogonFacts, reached: bool)
    requires
        !s.conn.auth.authorized,
    ensures
        forward_known(s, env, facts, reached).0.conn.auth.authorized ==> reached
            && lets_itself_in(s.conn, s.reg, env),
        forward_known(s, env, facts, reached).0.conn.rights == s.conn.rights,
{
    lemma_purpose_known(
        Scene {
            conn: Connection {
                purpose: Purpose { port_forward: true, ..s.conn.purpose },
                ..s.conn
            },
            ..s
        },
        env,
        facts,
    );
}

/// A request to log on lets a peer in only where the peer lets itself in.
#[verifier::rlimit(60)]
proof fn lemma_login_requested(
    s: Scene,
    env: Env,
    facts: LogonFacts,
    lr: LoginRequest,
    address: String,
)
    ensures
        ({
            let after = login_requested(s, env, facts, lr, address).0;
            &&& !s.conn.auth.authorized && after.conn.auth.authorized ==> invites(
                s,
                env,
                PeerMessage::LoginRequest(lr),
            )
            &&& s.conn.auth.authorized ==> after.conn.auth.authorized
            &&& after.conn.rights == s.conn.rights
            &&& after.conn.inner == s.conn.inner
        }),
{
    let c = request_taken(s.conn, lr);
    lemma_purpose_known(
        Scene { conn: purpose_taken(c, address), ..s },
        env,
        facts,
    );
}

/// A code for the second factor lets a peer in only where the code is right.
proof fn lemma_second_factor(s: Scene, env: Env, facts: LogonFacts, verdict: Option<bool>)
    ensures
        ({
            let after = second_factor_judged(s, env, facts, verdict);
            &&& !s.conn.auth.authorized && after.conn.auth.authorized ==> verdict == Some(true)
                && may_try(
                failure_of(s.reg, Factor::Second, s.conn.trace.ip@),
                minute_of(env.epoch_ms),
            )
            &&& s.conn.auth.authorized ==> after.conn.auth.authorized
            &&& after.conn.rights == s.conn.rights
            &&& after.conn.inner == s.conn.inner
        }),
{
    let c = s.conn;
    lemma_logon(
        Scene {
            conn: Connection {
                auth: Auth { require_2fa: None, ..c.auth },
                ..c
            },
            reg: attempt_noted(
                s.reg,
                Factor::Second,
                c.trace.ip@,
                failure_of(s.reg, Factor::Second, c.trace.ip@),
                minute_of(env.epoch_ms),
                true,
            ),
            ..s
        },
        env,
        facts,
    );
}

/// A peer gets in only with a right password that it may still try, a session that it comes back
/// to, the right code for the second factor, or a token for swapping sides.
pub proof fn only_the_invited_get_in(
    s: Scene,
    env: Env,
    facts: LogonFacts,
    msg: PeerMessage,
    after: Scene,
    step: LoginStep,
)
    requires
        message_taken(s, env, facts, msg, after, step),
        !s.conn.auth.authorized,
        after.conn.auth.authorized,
    ensures
        invites(s, env, msg),
{
    lemma_message(s, env, facts, msg, after, step);
}

/// What every message of a peer keeps.
#[verifier::rlimit(60)]
proof fn lemma_message(
    s: Scene,
    env: Env,
    facts: LogonFacts,
    msg: PeerMessage,
    after: Scene,
    step: LoginStep,
)
    requires
        message_taken(s, env, facts, msg, after, step),
    ensures
        !s.conn.auth.authorized && after.conn.auth.authorized ==> invites(s, env, msg),
        s.conn.auth.authorized ==> after.conn.auth.authorized,
        after.conn.rights == s.conn.rights,
        after.conn.inner == s.conn.inner,
{
    match msg {
        PeerMessage::LoginRequest(lr) => {
            let address = choose|address: String|
                (after, step) == #[trigger] login_requested(s, env, facts, lr, address);
            lemma_login_requested(s, env, facts, lr, address);
        },
        PeerMessage::Auth2fa { code } => {
            let verdict = match s.conn.auth.require_2fa {
                Some(totp) => totp.verdict(code@, env.epoch_secs),
                None => None,
            };
            lemma_second_factor(s, env, facts, verdict);
        },
        PeerMessage::SwitchSidesResponse { uuid, lr } => {
            if env.target.flutter && lr is Some {
                let c = request_taken(s.conn, lr->0);
                lemma_logon(
                    Scene {
                        conn: Connection {
                            auth: Auth { from_switch: true, ..c.auth },
                            ..c
                        },
                        reg: token_taken(s.reg, env.now, c.lr.my_id@),
                        ..s
                    },
                    env,
                    facts,
                );
            }
        },
        _ => {},
    }
}

/// No message of a peer changes what the user of this machine lets it do.
pub proof fn peer_cannot_change_its_rights(
    s: Scene,
    env: Env,
    facts: LogonFacts,
    msg: PeerMessage,
    after: Scene,
    step: LoginStep,
)
    requires
        message_taken(s, env, facts, msg, after, step),
    ensures
        after.conn.rights == s.conn.rights,
{
    lemma_message(s, env, facts, msg, after, step);
}

/// No message of a peer throws it out: what is authorised stays authorised.
pub proof fn authorisation_lasts(
    s: Scene,
    env: Env,
    facts: LogonFacts,
    msg: PeerMessage,
    after: Scene,
    step: LoginStep,
)
    requires
        message_taken(s, env, facts, msg, after, step),
        s.conn.auth.authorized,
    ensures
        after.conn.auth.authorized,
{
    lemma_message(s, env, facts, msg, after, step);
}

/// Messages other than those for logging on, swapping sides and measuring the delay change nothing
/// and ask for nothing while the peer is not authorised.
pub proof fn stranger_is_powerless(
    s: Scene,
    env: Env,
    facts: LogonFacts,
    msg: PeerMessage,
    after: Scene,
    step: LoginStep,
)
    requires
        message_taken(s, env, facts, msg, after, step),
        !s.conn.auth.authorized,
        !(msg is LoginRequest || msg is Auth2fa || msg is TestDelay
            || msg is SwitchSidesResponse),
    ensures
        after == s,
        step == LoginStep::Done(true),
{
}

/// While a port is forwarded, no message but those for logging on, swapping sides and measuring
/// the delay does anything.
pub proof fn forwarding_peer_is_confined(
    s: Scene,
    env: Env,
    facts: LogonFacts,
    msg: PeerMessage,
    after: Scene,
    step: LoginStep,
)
    requires
        message_taken(s, env, facts, msg, after, step),
        s.conn.auth.authorized,
        s.conn.purpose.port_forward,
        !(msg is LoginRequest || msg is Auth2fa || msg is TestDelay
            || msg is SwitchSidesResponse),
    ensures
        after == s,
        step == LoginStep::Done(true),
{
}

/// The connection manager lets a peer in only by saying so, and changes its rights only by saying
/// so.
pub proof fn only_the_user_decides(
    s: Scene,
    env: Env,
    facts: LogonFacts,
    event: CmEvent,
    after: Scene,
    go_on: bool,
)
    requires
        cm_taken(s, env, facts, event, after, go_on),
    ensures
        !s.conn.auth.authorized && after.conn.auth.authorized ==> event is Authorize,
        event is Authorize ==> after.conn.auth.authorized,
        after.conn.rights == match event {
            CmEvent::SwitchPermission { name, enabled } => rights_switched(
                s.conn.rights,
                name@,
                enabled,
            ),
            _ => s.conn.rights,
        },
{
    lemma_logon(
        Scene {
            conn: Connection {
                auth: Auth { require_2fa: None, ..s.conn.auth },
                ..s.conn
            },
            ..s
        },
        env,
        facts,
    );
}

/// An address that is locked out does not get in by password, and its attempts are not even looked
/// at: nothing is counted, no session begins, and the peer is told that it may not try.
#[verifier::rlimit(60)]
pub proof fn locked_out_gets_nothing(s: Scene, env: Env, facts: LogonFacts)
    requires
        !s.conn.auth.authorized,
        s.conn.lr.password@.len() > 0,
        !is_recent(s.conn, s.reg, env.now, false),
        !may_try(
            failure_of(s.reg, Factor::Password, s.conn.trace.ip@),
            minute_of(env.epoch_ms),
        ),
    ensures
        ({
            let after = desktop_known(s, env, facts, DesktopStart::Ready).0;
            let ip = s.conn.trace.ip@;
            let failure = failure_of(s.reg, Factor::Password, ip);
            &&& !after.conn.auth.authorized
            &&& after.reg.password_failures == s.reg.password_failures
            &&& after.reg.authed_conns == s.reg.authed_conns
            &&& after.reg.sessions.dom().subset_of(s.reg.sessions.dom())
            &&& !wrong_machine(s.conn, env) && !only_click(env) && !never_let_in(env)
                ==> after.out == refusal_actions(
                s.conn,
                env,
                s.out,
                failure,
                minute_of(env.epoch_ms),
            )
        }),
{
    desktop_lets_in(s, env, facts, DesktopStart::Ready);
}

/// A wrong password is counted against the address, and the peer stays out.
#[verifier::rlimit(60)]
pub proof fn wrong_password_is_counted(s: Scene, env: Env, facts: LogonFacts)
    requires
        !s.conn.auth.authorized,
        s.conn.lr.password@.len() > 0,
        !wrong_machine(s.conn, env),
        !only_click(env),
        !never_let_in(env),
        !is_recent(s.conn, s.reg, env.now, false),
        may_try(
            failure_of(s.reg, Factor::Password, s.conn.trace.ip@),
            minute_of(env.epoch_ms),
        ),
        !shows_temporary(s.conn, env),
        !shows_permanent(s.conn, env),
    ensures
        ({
            let after = desktop_known(s, env, facts, DesktopStart::Ready).0;
            let ip = s.conn.trace.ip@;
            &&& !after.conn.auth.authorized
            &&& failure_of(after.reg, Factor::Password, ip).2 == failure_of(
                s.reg,
                Factor::Password,
                ip,
            ).2 + 1
        }),
{
}

/// A right password lets a peer in that owes no second factor, asks for this machine, and may
/// still try.
#[verifier::rlimit(60)]
pub proof fn right_password_lets_in(s: Scene, env: Env, facts: LogonFacts)
    requires
        !s.conn.auth.authorized,
        s.conn.auth.require_2fa is None,
        !wrong_machine(s.conn, env),
        !only_click(env),
        !never_let_in(env),
        password_accepted(s.conn, s.reg, env),
    ensures
        desktop_known(s, env, facts, DesktopStart::Ready).0.conn.auth.authorized,
        desktop_known(s, env, facts, DesktopStart::Ready).1,
{
}

/// A connection that begins is sound.
pub proof fn new_connection_is_sound(c: Connection, env: Env, id: i32, opening: Opening)
    requires
        is_new(c, env, id, opening),
    ensures
        sound(c),
{
}

/// What follows a request to log on keeps what holds at all times, once it is known whether there
/// is a desktop session.
#[verifier::rlimit(60)]
pub proof fn desktop_keeps_sound(s: Scene, env: Env, facts: LogonFacts, start: DesktopStart)
    requires
        sound(s.conn),
        sound_registry(s.reg),
    ensures
        sound(desktop_known(s, env, facts, start).0.conn),
        sound_registry(desktop_known(s, env, facts, start).0.reg),
{
    let c = s.conn;
    let ip = c.trace.ip@;
    let time = minute_of(env.epoch_ms);
    let seen = Scene { reg: sessions_seen(c, s.reg, env.now, false), ..s };
    let failure = failure_of(seen.reg, Factor::Password, ip);
    let out = if env.target.os == Os::Linux {
        c.auth.linux_headless_handle.wait_actions(seen.out)
    } else {
        seen.out
    };
    lemma_logon_sound(Scene { out, ..seen }, env, facts);
    let known = password_seen(c, seen.reg, env);
    let reg = attempt_noted(known, Factor::Password, ip, failure, time, true);
    lemma_logon_sound(Scene { out, reg, ..seen }, env, facts);
    if may_try(failure, time) {
        attempts_keep_counts(known, Factor::Password, Factor::Password, ip, time, true);
        attempts_keep_counts(known, Factor::Password, Factor::Second, ip, time, true);
        attempts_keep_counts(seen.reg, Factor::Password, Factor::Password, ip, time, false);
        attempts_keep_counts(seen.reg, Factor::Password, Factor::Second, ip, time, false);
    }
}

/// What follows a request to log on keeps what holds at all times, once it is known what the peer
/// wants.
proof fn lemma_purpose_sound(s: Scene, env: Env, facts: LogonFacts)
    requires
        sound(s.conn),
        sound_registry(s.reg),
    ensures
        sound(purpose_known(s, env, facts).0.conn),
        sound_registry(purpose_known(s, env, facts).0.reg),
{
    desktop_keeps_sound(cm_ipc_started(s, env), env, facts, DesktopStart::Ready);
}

/// What follows when an address was to be reached keeps what holds at all times.
pub proof fn forward_keeps_sound(s: Scene, env: Env, facts: LogonFacts, reached: bool)
    requires
        sound(s.conn),
        sound_registry(s.reg),
    ensures
        sound(forward_known(s, env, facts, reached).0.conn),
        sound_registry(forward_known(s, env, facts, reached).0.reg),
{
    lemma_purpose_sound(
        Scene {
            conn: Connection {
                purpose: Purpose { port_forward: true, ..s.conn.purpose },
                ..s.conn
            },
            ..s
        },
        env,
        facts,
    );
}

/// A code for the second factor keeps what holds at all times.
proof fn lemma_second_factor_sound(s: Scene, env: Env, facts: LogonFacts, verdict: Option<bool>)
    requires
        sound(s.conn),
        sound_registry(s.reg),
    ensures
        sound(second_factor_judged(s, env, facts, verdict).conn),
        sound_registry(second_factor_judged(s, env, facts, verdict).reg),
{
    let c = s.conn;
    let ip = c.trace.ip@;
    let time = minute_of(env.epoch_ms);
    let failure = failure_of(s.reg, Factor::Second, ip);
    if may_try(failure, time) {
        attempts_keep_counts(s.reg, Factor::Second, Factor::Password, ip, time, true);
        attempts_keep_counts(s.reg, Factor::Second, Factor::Second, ip, time, true);
        attempts_keep_counts(s.reg, Factor::Second, Factor::Password, ip, time, false);
        attempts_keep_counts(s.reg, Factor::Second, Factor::Second, ip, time, false);
        lemma_logon_sound(
            Scene {
                conn: Connection {
                    auth: Auth { require_2fa: None, ..c.auth },
                    ..c
                },
                reg: attempt_noted(s.reg, Factor::Second, ip, failure, time, true),
                ..s
            },
            env,
            facts,
        );
    }
}

/// Every message of a peer keeps what holds at all times.
#[verifier::rlimit(60)]
pub proof fn messages_keep_sound(
    s: Scene,
    env: Env,
    facts: LogonFacts,
    msg: PeerMessage,
    after: Scene,
    step: LoginStep,
)
    requires
        message_taken(s, env, facts, msg, after, step),
        sound(s.conn),
        sound_registry(s.reg),
    ensures
        sound(after.conn),
        sound_registry(after.reg),
{
    match msg {
        PeerMessage::LoginRequest(lr) => {
            let address = choose|address: String|
                (after, step) == #[trigger] login_requested(s, env, facts, lr, address);
            let c = request_taken(s.conn, lr);
            lemma_purpose_sound(
                Scene { conn: purpose_taken(c, address), ..s },
                env,
                facts,
            );
        },
        PeerMessage::Auth2fa { code } => {
            let verdict = match s.conn.auth.require_2fa {
                Some(totp) => totp.verdict(code@, env.epoch_secs),
                None => None,
            };
            lemma_second_factor_sound(s, env, facts, verdict);
        },
        PeerMessage::SwitchSidesResponse { uuid, lr } => {
            if env.target.flutter && lr is Some {
                let c = request_taken(s.conn, lr->0);
                lemma_logon_sound(
                    Scene {
                        conn: Connection {
                            auth: Auth { from_switch: true, ..c.auth },
                            ..c
                        },
                        reg: token_taken(s.reg, env.now, c.lr.my_id@),
                        ..s
                    },
                    env,
                    facts,
                );
            }
        },
        PeerMessage::KeyEvent(e) => {
            modifiers_stay_distinct(
                s.conn.pressed_modifiers@,
                modifier_of(e, env),
                e.counts_as_press(env.target),
            );
        },
        _ => {},
    }
}

/// Everything that the connection manager tells keeps what holds at all times.
pub proof fn cm_keeps_sound(
    s: Scene,
    env: Env,
    facts: LogonFacts,
    event: CmEvent,
    after: Scene,
    go_on: bool,
)
    requires
        cm_taken(s, env, facts, event, after, go_on),
        sound(s.conn),
        sound_registry(s.reg),
    ensures
        sound(after.conn),
        sound_registry(after.reg),
{
    lemma_logon_sound(
        Scene {
            conn: Connection {
                auth: Auth { require_2fa: None, ..s.conn.auth },
                ..s.conn
            },
            ..s
        },
        env,
        facts,
    );
}

/// The clock and the services keep what holds at all times.
#[verifier::rlimit(60)]
pub proof fn clock_and_services_keep_sound(
    s: Scene,
    env: Env,
    after_second: Scene,
    go_on: bool,
    at: u64,
    message: Message,
    displays: Vec<DisplayInfo>,
)
    requires
        second_passed(s, env, after_second, go_on),
        sound(s.conn),
        sound_registry(s.reg),
    ensures
        sound(after_second.conn) && sound_registry(after_second.reg),
        sound(delay_timer_passed(s.conn, env, s.out).0),
        sound(outgoing_taken(s, env, at, message, displays).0.conn),
        sound_registry(outgoing_taken(s, env, at, message, displays).0.reg),
{
}

/// A peer that says goodbye is gone: the connection closes and ends, and the peer cannot come back
/// to its session.
pub proof fn goodbye_is_final(
    s: Scene,
    env: Env,
    facts: LogonFacts,
    after: Scene,
    step: LoginStep,
    later: u64,
)
    requires
        message_taken(
            s,
            env,
            facts,
            PeerMessage::Misc(Misc::CloseReason),
            after,
            step,
        ),
        s.conn.auth.authorized,
        !s.conn.purpose.port_forward,
    ensures
        step == LoginStep::Done(false),
        after.conn.trace.closed,
        !is_recent(after.conn, after.reg, later, false),
        !is_recent(after.conn, after.reg, later, true),
{
}

/// What is left of a connection when it is taken away: nothing in the lists of connections.
pub proof fn nothing_is_left(s: Scene, target: Target, entered: ConnectionID)
    requires
        sound(s.conn),
        s.conn.auth.authorized,
        entered.0 == s.conn.inner.id,
    ensures
        ({
            let reg = taken_away(s, target, entered).0;
            &&& !reg.alive_conns.contains(entered.0)
            &&& forall|i: int|
                0 <= i < reg.authed_conns.len() ==> (#[trigger] reg.authed_conns[i]).0
                    != entered.0
        }),
{
    let id = entered.0;
    released_connection_is_gone(s.reg.alive_conns, id, id);
    let left = other_conns(s.reg.authed_conns, id);
    assert forall|i: int| 0 <= i < left.len() implies (#[trigger] left[i]).0 != id by {
        s.reg.authed_conns.lemma_filter_pred(is_other(id), i);
    }
}

} // verus!
