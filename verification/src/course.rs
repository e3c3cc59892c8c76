//! The course of a connection from its first moment to its last, in terms of the clock, the
//! settings and what is done.

use vstd::prelude::*;

use crate::action::{Action, CmData, EncoderUpdate, QosUpdate};
use crate::audit::{AlarmAudit, AlarmInfo, ConnAudit, ConnEvent};
use crate::closing::close_actions;
use crate::connection::{Connection, Scene, Timing};
use crate::deeds::on_phone;
use crate::env::Env;
use crate::login::LoginStep;
use crate::logon::LogonFacts;
use crate::message::{
    CloseReason, LoginError, LoginResponse, Message, Permission, SupportedEncoding, TestDelay,
};
use crate::opening::{denied, is_new, open_actions, open_error, run_actions, Opening};
use crate::registry::{
    authed_entered, authed_new_actions, authed_release_actions, authed_released, AuthConnType,
    AuthedConnID, ConnectionID, RegistryView, WakeLockCounts,
};
use crate::run::{
    delay_timer_passed, end_actions, loop_end_actions, second_passed, stream_taken, taken_away,
    StreamEvent,
};
use crate::target::{Os, Target};
use crate::whitelist::{cidr_answer, PeerAddr};

verus! {

/// The option of the user of this machine under a name, if it is set.
pub open spec fn set_to(env: Env, name: Seq<char>, value: Seq<char>) -> bool {
    env.config.options@.dom().contains(name) && env.config.options@[name] == value
}

/// Nothing is set under a name.
pub open spec fn unset(env: Env, name: Seq<char>) -> bool {
    !env.config.options@.dom().contains(name) || env.config.options@[name].len() == 0
}

/// A new peer may do what the user of this machine has not switched off, each by its own option.
/// In the new window the access mode comes first: full access gives all rights, and access to the
/// view gives none.
pub proof fn new_peer_gets_rights(c: Connection, env: Env, id: i32, opening: Opening)
    requires
        is_new(c, env, id, opening),
    ensures
        !c.auth.authorized,
        c.inner.id == id,
        c.auth.hash == opening.hash,
        c.auth.require_2fa == opening.require_2fa,
        ({
            let window = env.target.flutter && !on_phone(env.target);
            let full = window && set_to(env, "access-mode"@, "full"@);
            let view = window && set_to(env, "access-mode"@, "view"@);
            &&& full ==> c.rights.keyboard && c.rights.clipboard && c.rights.audio && c.rights.file
                && c.rights.restart && c.rights.recording && c.rights.block_input
            &&& view ==> !c.rights.keyboard && !c.rights.clipboard && !c.rights.audio
                && !c.rights.file && !c.rights.restart && !c.rights.recording
                && !c.rights.block_input
            &&& !full && !view ==> {
                &&& c.rights.keyboard == unset(env, "enable-keyboard"@)
                &&& c.rights.clipboard == unset(env, "enable-clipboard"@)
                &&& c.rights.audio == unset(env, "enable-audio"@)
                &&& c.rights.file == unset(env, "enable-file-transfer"@)
                &&& c.rights.restart == unset(env, "enable-remote-restart"@)
                &&& c.rights.recording == unset(env, "enable-record-session"@)
                &&& c.rights.block_input == unset(env, "enable-block-input"@)
            }
        }),
{
    reveal_strlit("full");
    reveal_strlit("view");
    assert("full"@.len() == 4 && "view"@.len() == 4);
    assert("full"@[0] == 'f' && "view"@[0] == 'v');
}

/// A peer that may connect gets the salt and the challenge of its connection and, where reports are
/// wanted, a new connection from its address is reported.
pub proof fn peer_gets_challenge(c: Connection, env: Env, out: Seq<Action>, addr: PeerAddr)
    requires
        open_error(env, addr) is None,
    ensures
        ({
            let hash = Action::Send(
                Message::Hash { salt: c.auth.hash.salt, challenge: c.auth.hash.challenge },
            );
            let report = Action::ConnAudit(
                ConnAudit {
                    url: env.audit.conn,
                    event: ConnEvent::New { ip: addr.text },
                    conn_id: c.inner.id,
                    session_id: c.lr.session_id,
                },
            );
            &&& env.audit.conn@.len() == 0 ==> open_actions(c, env, out, addr) == out.push(hash)
            &&& env.audit.conn@.len() > 0 ==> open_actions(c, env, out, addr) == out.push(
                hash,
            ).push(report)
        }),
{
}

/// A list of addresses lets in whom it names: without a list everybody, and with the entry of one
/// block only the addresses that the block holds, unless it is the entry for all.
pub proof fn whitelist_decides(env: Env, addr: PeerAddr)
    requires
        !(env.is_server && set_to(env, "allow-only-conn-window-open"@, "Y"@)),
    ensures
        unset(env, "whitelist"@) ==> open_error(env, addr) is None,
        ({
            let list = env.config.options@["whitelist"@];
            let entries = crate::text::filled_pieces(list, ',');
            let octets = addr.ip.octets();
            env.config.options@.dom().contains("whitelist"@) && entries.len() > 0 ==> {
                &&& open_error(env, addr) is None || open_error(env, addr) == Some(
                    LoginError::IpBlocked,
                )
                &&& open_error(env, addr) is None <==> exists|i: int|
                    0 <= i < entries.len() && (#[trigger] entries[i] == "0.0.0.0"@ || cidr_answer(
                        entries[i],
                        octets,
                    ) == Some(true))
            }
        }),
{
    reveal_strlit("Y");
    assert("Y"@.len() == 1);
    let list = env.config.option("whitelist"@);
    let entries = crate::text::filled_pieces(list, ',');
    if unset(env, "whitelist"@) {
        assert(list =~= Seq::<char>::empty());
        reveal_with_fuel(Seq::filter, 2);
        let parts = crate::text::pieces(list, ',');
        assert(parts =~= seq![Seq::<char>::empty()]);
        assert(parts.drop_last() =~= Seq::<Seq<char>>::empty());
        assert(entries.len() == 0);
    } else {
        let held = |entry: Seq<char>| crate::whitelist::cidr_holds(entry, addr.ip.octets());
        if exists|i: int|
            0 <= i < entries.len() && (#[trigger] entries[i] == "0.0.0.0"@ || cidr_answer(
                entries[i],
                addr.ip.octets(),
            ) == Some(true)) {
            let i = choose|i: int|
                0 <= i < entries.len() && (#[trigger] entries[i] == "0.0.0.0"@ || cidr_answer(
                    entries[i],
                    addr.ip.octets(),
                ) == Some(true));
            assert(crate::whitelist::is_wildcard(entries[i]) || held(entries[i]));
        }
        if crate::whitelist::list_admits(entries, held) && entries.len() > 0 {
            let i = choose|i: int|
                0 <= i < entries.len() && (crate::whitelist::is_wildcard(#[trigger] entries[i])
                    || held(entries[i]));
            assert(entries[i] == "0.0.0.0"@ || cidr_answer(entries[i], addr.ip.octets()) == Some(
                true,
            ));
        }
    }
}

/// A peer whose address is not let in hears so, and where alarms are reported one goes out. Where
/// the user lets peers in only with the main window open, a peer hears that it is not.
pub proof fn blocked_peer_hears_why(c: Connection, env: Env, out: Seq<Action>, addr: PeerAddr)
    ensures
        open_error(env, addr) == Some(LoginError::IpBlocked) ==> {
            let told = out.push(
                Action::Send(
                    Message::LoginResponse(LoginResponse::Error(LoginError::IpBlocked)),
                ),
            );
            &&& env.audit.alarm@.len() == 0 ==> open_actions(c, env, out, addr) == told
            &&& env.audit.alarm@.len() > 0 ==> open_actions(c, env, out, addr) == told.push(
                Action::AlarmAudit(
                    AlarmAudit {
                        url: env.audit.alarm,
                        typ: 0,
                        info: AlarmInfo::Ip { ip: addr.text },
                    },
                ),
            )
        },
        unset(env, "whitelist"@) ==> (open_error(env, addr) == Some(LoginError::MainWindowNotOpen)
            <==> !on_phone(env.target) && env.is_server && !env.main_window_open && set_to(
            env,
            "allow-only-conn-window-open"@,
            "Y"@,
        )),
        open_error(env, addr) == Some(LoginError::MainWindowNotOpen) ==> open_actions(
            c,
            env,
            out,
            addr,
        ) == out.push(
            Action::Send(
                Message::LoginResponse(LoginResponse::Error(LoginError::MainWindowNotOpen)),
            ),
        ),
{
    reveal_strlit("Y");
    assert("Y"@.len() == 1);
    if unset(env, "whitelist"@) {
        let list = env.config.option("whitelist"@);
        let parts = crate::text::pieces(list, ',');
        assert(list =~= Seq::<char>::empty());
        reveal_with_fuel(Seq::filter, 2);
        assert(parts =~= seq![Seq::<char>::empty()]);
        assert(parts.drop_last() =~= Seq::<Seq<char>>::empty());
    }
}

/// What a peer hears of a right that it has, or has not.
pub open spec fn heard(given: bool, permission: Permission) -> Seq<Action> {
    if given {
        seq![]
    } else {
        seq![Action::Send(Message::Permission { permission, enabled: false })]
    }
}

/// Telling of a right adds what is heard of it.
proof fn lemma_heard(out: Seq<Action>, given: bool, permission: Permission)
    ensures
        denied(out, given, permission) == out + heard(given, permission),
{
    assert(denied(out, given, permission) =~= out + heard(given, permission));
}

/// A new peer hears of each right that it does not have, in a fixed order, and of none that it
/// has. Sending pictures may take twelve seconds, and sending anything else two minutes.
pub proof fn missing_rights_are_told(c: Connection, env: Env, out: Seq<Action>)
    ensures
        ({
            let r = c.rights;
            let begun = if env.target.os == Os::Android {
                out.push(Action::StartChannel)
            } else {
                out
            };
            let told = begun + heard(r.keyboard, Permission::Keyboard) + heard(
                r.clipboard,
                Permission::Clipboard,
            ) + heard(r.audio, Permission::Audio) + heard(r.file, Permission::File) + heard(
                r.restart,
                Permission::Restart,
            ) + heard(r.recording, Permission::Recording) + heard(
                r.block_input,
                Permission::BlockInput,
            );
            let pictures = c.purpose.file_transfer is None && !c.purpose.port_forward;
            let timed = told.push(
                Action::SetSendTimeout {
                    ms: if pictures {
                        12_000
                    } else {
                        120_000
                    },
                },
            );
            run_actions(c, env, out) == if on_phone(env.target) {
                timed
            } else {
                timed.push(Action::StartInputThread)
            }
        }),
{
    let r = c.rights;
    let o0 = if env.target.os == Os::Android {
        out.push(Action::StartChannel)
    } else {
        out
    };
    let o1 = o0 + heard(r.keyboard, Permission::Keyboard);
    let o2 = o1 + heard(r.clipboard, Permission::Clipboard);
    let o3 = o2 + heard(r.audio, Permission::Audio);
    let o4 = o3 + heard(r.file, Permission::File);
    let o5 = o4 + heard(r.restart, Permission::Restart);
    let o6 = o5 + heard(r.recording, Permission::Recording);
    lemma_heard(o0, r.keyboard, Permission::Keyboard);
    lemma_heard(o1, r.clipboard, Permission::Clipboard);
    lemma_heard(o2, r.audio, Permission::Audio);
    lemma_heard(o3, r.file, Permission::File);
    lemma_heard(o4, r.restart, Permission::Restart);
    lemma_heard(o5, r.recording, Permission::Recording);
    lemma_heard(o6, r.block_input, Permission::BlockInput);
}

/// A peer that has been silent for thirty seconds is cut off; the screen may be locked. Otherwise a
/// probe goes out where none is under way, except to a peer that is in and forwards a port, and the
/// encoder hears how long no answer came.
pub proof fn silence_ends_connection(c: Connection, env: Env, out: Seq<Action>)
    ensures
        ({
            let (after, acts, go_on) = delay_timer_passed(c, env, out);
            let silent = env.now >= c.timing.last_recv_time && env.now - c.timing.last_recv_time
                >= 30_000;
            let probe = c.timing.last_test_delay is None && !(c.purpose.port_forward
                && c.auth.authorized);
            let since = if env.now > c.timing.delay_response_instant {
                (env.now - c.timing.delay_response_instant) as u64
            } else {
                0u64
            };
            let waited = Action::Qos {
                id: c.inner.id,
                update: QosUpdate::DelayResponseElapsed(since),
            };
            &&& go_on == !silent
            &&& silent ==> after.trace.closed && after.auth == c.auth
            &&& silent && c.trace.closed ==> acts == out
            &&& !silent && !probe ==> after == c && acts == out.push(waited)
            &&& !silent && probe ==> {
                &&& after == (Connection {
                    timing: Timing { last_test_delay: Some(env.now), ..c.timing },
                    ..c
                })
                &&& acts == out.push(
                    Action::Send(
                        Message::TestDelay(
                            TestDelay {
                                time: 0,
                                from_client: false,
                                last_delay: c.timing.network_delay,
                                target_bitrate: env.bitrate,
                            },
                        ),
                    ),
                ).push(waited)
            }
        }),
{
}

/// A connection that closes leaves what was to be seen in view, locks the screen where that is
/// wanted and may be, and closes the forwarded port; one that is closed does nothing more.
pub proof fn closing_is_carried_out(c: Connection, env: Env, out: Seq<Action>, lock: bool)
    ensures
        c.trace.closed ==> close_actions(c, env, out, lock) == out,
        !c.trace.closed ==> {
            let locks = lock && c.wishes.lock_after_session_end && c.rights.keyboard && !on_phone(
                env.target,
            );
            let keep = !on_phone(env.target) && (c.trace.chat_unanswered
                || c.trace.file_transferred && env.target.flutter);
            close_actions(c, env, out, lock) == out + (if locks {
                seq![Action::LockScreen]
            } else {
                seq![]
            }) + seq![
                Action::ToCm(
                    if keep {
                        CmData::Disconnected
                    } else {
                        CmData::Close
                    },
                ),
            ] + (if c.purpose.port_forward {
                seq![Action::CloseForward]
            } else {
                seq![]
            })
        },
{
}

/// A peer that has done nothing for more minutes than it is given is cut off: it hears why, and its
/// session is dropped. One that has more time goes on, and one without a limit always does.
pub proof fn idleness_ends_connection(s: Scene, env: Env, after: Scene, go_on: bool)
    requires
        second_passed(s, env, after, go_on),
        env.target.os != Os::Windows,
    ensures
        s.conn.timing.auto_disconnect_timer is None ==> go_on,
        s.conn.timing.auto_disconnect_timer matches Some((since, minutes)) ==> {
            let idle = if env.now > since {
                (env.now - since) / 1_000
            } else {
                0
            };
            &&& go_on == (idle <= minutes * 60)
            &&& !go_on ==> {
                &&& after.conn.trace.closed
                &&& after.reg == (RegistryView {
                    sessions: s.reg.sessions.remove(s.conn.lr.my_id@),
                    ..s.reg
                })
                &&& after.out.len() > s.out.len()
                &&& after.out[s.out.len() as int] == Action::Send(
                    Message::CloseReason(CloseReason::Inactivity),
                )
            }
        },
{
}

/// A second in which nothing was removed for a while, the codecs are as they were and the peer is
/// not idle asks for nothing. News of the codecs goes to the peer, and is remembered.
pub proof fn seconds_bring_news(s: Scene, env: Env, after: Scene, go_on: bool)
    requires
        second_passed(s, env, after, go_on),
        env.target.os != Os::Windows,
        s.conn.timing.auto_disconnect_timer is None,
        s.conn.file_remove_log_control.removed_files@.len() == 0,
        s.conn.file_remove_log_control.removed_dirs@.len() == 0,
    ensures
        go_on,
        after.reg == s.reg,
        !env.target.hwcodec ==> after.out == s.out,
        env.target.hwcodec ==> (s.conn.media.last_supported_encoding matches Some(last) ==> (
        env.usable_encoding matches Some(usable) ==> {
            let news = SupportedEncoding {
                vp8: usable.vp8,
                av1: usable.av1,
                h264: usable.h264,
                h265: usable.h265,
                i444: last.i444,
            };
            &&& news == last ==> after.out == s.out
            &&& after.conn.media.last_supported_encoding == Some(news)
            &&& news != last ==> (s.conn.inner.tx matches Some(channel) ==> after.out
                == s.out.push(
                Action::Queue { channel, message: Message::SupportedEncoding(news) },
            ))
        })),
        s.conn.media.last_supported_encoding is None || env.usable_encoding is None ==> after.out
            == s.out,
{
    let c = s.conn;
    assert(crate::run::removals_told(c, env.now) =~= seq![]);
    assert(s.out + Seq::<Action>::empty() =~= s.out);
}

/// Removed files and directories are told a second after the last removal, each once: first the
/// files, then the directories, under the number of the connection. Until then nothing is told, and
/// afterwards nothing is left to tell.
pub proof fn removals_are_told(s: Scene, env: Env, after: Scene, go_on: bool, i: int)
    requires
        second_passed(s, env, after, go_on),
        env.target.os != Os::Windows,
        !env.target.hwcodec,
        s.conn.timing.auto_disconnect_timer is None,
    ensures
        ({
            let log = s.conn.file_remove_log_control;
            let left = after.conn.file_remove_log_control;
            let quiet = env.now >= log.instant && env.now - log.instant >= 1_000;
            let files = log.removed_files@.len();
            let dirs = log.removed_dirs@.len();
            let n = s.out.len();
            &&& !quiet ==> after.out == s.out && left == log
            &&& quiet ==> {
                &&& left.removed_files@.len() == 0
                &&& left.removed_dirs@.len() == 0
                &&& after.out.len() == n + files + dirs
                &&& after.out.take(n as int) == s.out
                &&& 0 <= i < files ==> {
                    &&& after.out[n + i] matches Action::ToCm(
                        CmData::FileTransferLog(crate::action::TransferLog::Remove(told)),
                    )
                    &&& told.id == log.removed_files@[i].id
                    &&& told.path == log.removed_files@[i].path
                    &&& told.conn_id == log.conn_id
                    &&& !told.dir
                }
                &&& 0 <= i < dirs ==> {
                    &&& after.out[n + files + i] matches Action::ToCm(
                        CmData::FileTransferLog(crate::action::TransferLog::Remove(told)),
                    )
                    &&& told.id == log.removed_dirs@[i].id
                    &&& told.path == log.removed_dirs@[i].path
                    &&& told.conn_id == log.conn_id
                    &&& told.dir
                }
            }
        }),
{
    let told = crate::run::removals_told(s.conn, env.now);
    assert(after.out =~= s.out + told);
    if told.len() == 0 {
        assert(s.out + told =~= s.out);
    }
    assert(after.out.take(s.out.len() as int) =~= s.out);
}

/// What comes from the peer shows that it is there; what cannot be read shows no more. A peer that
/// is gone or whose connection fails ends the connection.
pub proof fn receipt_is_noted(
    s: Scene,
    env: Env,
    facts: LogonFacts,
    event: StreamEvent,
    after: Scene,
    step: LoginStep,
)
    requires
        stream_taken(s, env, facts, event, after, step),
    ensures
        event == StreamEvent::Bytes(None) ==> {
            &&& step == LoginStep::Done(true)
            &&& after.out == s.out
            &&& after.conn == (Connection {
                timing: Timing { last_recv_time: env.now, ..s.conn.timing },
                ..s.conn
            })
            &&& after.reg == (RegistryView {
                recv_times: s.reg.recv_times.insert(s.conn.inner.id, env.now),
                ..s.reg
            })
        },
        event is Failed || event is Closed ==> {
            &&& step == LoginStep::Done(false)
            &&& after.conn.trace.closed
            &&& after.reg == s.reg
        },
{
}

/// At the end of the loop privacy mode that this connection turned on is turned off, plugins hear
/// that the peer is gone, pictures are waited for no more, and where the peer was in there is a new
/// password of the day.
pub proof fn loop_end_cleans_up(c: Connection, env: Env, out: Seq<Action>)
    ensures
        ({
            let own = env.privacy_conn == Some(c.inner.id);
            let plugins = env.target.flutter && env.target.plugin_framework && !on_phone(
                env.target,
            );
            loop_end_actions(c, env, out) == out + (if own {
                seq![Action::TurnOffPrivacy { conn: Some(c.inner.id), answer: false }]
            } else {
                seq![]
            }) + (if plugins {
                seq![Action::PluginConnClosed { peer: c.lr.my_id }]
            } else {
                seq![]
            }) + seq![Action::NotifyFrameFetched { at: None }] + (if c.auth.authorized {
                seq![Action::UpdateTemporaryPassword]
            } else {
                seq![]
            })
        }),
{
}

/// The end of a connection is reported where reports are wanted, and the server is told while it is
/// there.
pub proof fn end_is_reported(c: Connection, env: Env, out: Seq<Action>)
    requires
        c.trace.closed,
    ensures
        ({
            let report = Action::ConnAudit(
                ConnAudit {
                    url: c.trace.server_audit_conn,
                    event: ConnEvent::Close,
                    conn_id: c.inner.id,
                    session_id: c.lr.session_id,
                },
            );
            end_actions(c, env, out) == out + (if c.trace.server_audit_conn@.len() > 0 {
                seq![report]
            } else {
                seq![]
            }) + (if env.server_alive {
                seq![Action::RemoveConnection]
            } else {
                seq![]
            })
        }),
{
}

/// A connection that becomes authorised is entered behind the others, the wake lock hears how many
/// there are now, and the hook for the end of the program is set by the first.
pub proof fn entry_is_counted(reg: RegistryView, id: i32, kind: AuthConnType)
    ensures
        authed_entered(reg, id, kind) == (RegistryView {
            authed_conns: reg.authed_conns.push((id, kind)),
            shutdown_hook: true,
            ..reg
        }),
        ({
            let acts = authed_new_actions(reg, id, kind);
            &&& acts[0] matches Action::WakeLock(counts)
            &&& reg.authed_conns.len() < usize::MAX ==> counts.connections
                == reg.authed_conns.len() + 1
            &&& reg.shutdown_hook ==> acts.len() == 1
            &&& !reg.shutdown_hook ==> acts.len() == 2 && acts[1] == Action::AddShutdownHook
        }),
{
}

/// The last connection goes: the encoder forgets it where it controlled this machine, what was
/// changed for peers is undone, and the wake lock hears that none is left.
pub proof fn last_connection_leaves(reg: RegistryView, target: Target, id: i32, kind: AuthConnType)
    requires
        reg.authed_conns == seq![(id, kind)],
    ensures
        authed_released(reg, target, id).authed_conns.len() == 0,
        target.os == Os::Windows || target.os == Os::Linux ==> !authed_released(
            reg,
            target,
            id,
        ).wallpaper_remover,
        ({
            let encoder = if kind == AuthConnType::Remote {
                seq![Action::Encoder { id, update: EncoderUpdate::Remove }]
            } else {
                seq![]
            };
            let undone = if target.os == Os::Windows {
                seq![
                    Action::RestoreWallpaper,
                    Action::ResetResolutions,
                    Action::ResetVirtualDisplays,
                ]
            } else if target.os == Os::Linux {
                seq![
                    Action::RestoreWallpaper,
                    Action::ResetResolutions,
                    Action::CloseWaylandSession,
                ]
            } else if target.os == Os::Macos {
                seq![Action::ResetResolutions]
            } else {
                seq![]
            };
            authed_release_actions(target, reg.authed_conns, AuthedConnID(id, kind)) == encoder
                + undone + seq![
                Action::WakeLock(WakeLockCounts { connections: 0, remote: 0 }),
            ]
        }),
{
    reveal_with_fuel(Seq::filter, 3);
    let left = crate::registry::other_conns(reg.authed_conns, id);
    assert(reg.authed_conns.drop_last() =~= Seq::<(i32, AuthConnType)>::empty());
    assert(left =~= Seq::<(i32, AuthConnType)>::empty());
    assert(crate::registry::remote_conns(left).len() == 0);
}

/// What is left of a connection that never got in: its keys are let go, and it is alive no more.
pub proof fn stranger_leaves(s: Scene, target: Target, entered: ConnectionID)
    requires
        s.conn.auth.authed_conn_id is None,
    ensures
        ({
            let (reg, out) = taken_away(s, target, entered);
            let keys = s.conn.pressed_modifiers@;
            let gone = Action::Qos { id: entered.0, update: QosUpdate::ConnectionClose };
            &&& !reg.alive_conns.contains(entered.0)
            &&& reg.authed_conns == s.reg.authed_conns
            &&& reg.sessions == s.reg.sessions
            &&& on_phone(target) ==> out == s.out.push(gone)
            &&& !on_phone(target) ==> out.len() == s.out.len() + keys.len() + 1
            &&& !on_phone(target) ==> forall|i: int|
                0 <= i < keys.len() ==> #[trigger] out[s.out.len() + i] == (Action::ReleaseKey {
                    key: keys[i],
                })
            &&& out.last() == gone
        }),
{
    crate::registry::released_connection_is_gone(s.reg.alive_conns, entered.0, entered.0);
}

/// The loop does not go on once a peer is in whose port is forwarded and no probe is under way.
pub proof fn forwarding_leaves_loop(
    s: Scene,
    env: Env,
    facts: LogonFacts,
    event: StreamEvent,
    after: Scene,
    step: LoginStep,
)
    requires
        stream_taken(s, env, facts, event, after, step),
        event matches StreamEvent::Bytes(Some(_)),
        after.conn.purpose.port_forward,
        after.conn.auth.authorized,
        after.conn.timing.last_test_delay is None,
    ensures
        step != LoginStep::Done(true),
{
}

/// What waits for a new connection: nothing was wanted, said or recorded yet, the clock begins, and
/// a desktop session is only looked for by the server, where a machine may run without a display.
pub proof fn new_connection_is_blank(c: Connection, env: Env, id: i32, opening: Opening)
    requires
        is_new(c, env, id, opening),
    ensures
        c.inner.tx == opening.tx,
        c.inner.tx_video == opening.tx_video,
        !c.wishes.disable_keyboard && !c.wishes.disable_clipboard && !c.wishes.disable_audio,
        !c.wishes.enable_file_transfer && !c.wishes.lock_after_session_end,
        !c.wishes.show_remote_cursor && !c.wishes.follow_remote_cursor,
        !c.wishes.follow_remote_window,
        !c.auth.from_switch,
        c.auth.authed_conn_id is None,
        c.auth.options_in_login is None,
        c.auth.start_cm_ipc_para,
        c.auth.linux_headless_handle.wait_ipc_timeout == 10_000,
        c.auth.linux_headless_handle.is_headless_allowed <==> env.is_server
            && env.headless_allowed,
        c.auth.linux_headless_handle.is_headless <==> env.is_server && env.headless_allowed
            && env.headless,
        c.purpose.file_transfer is None,
        c.purpose.delayed_read_dir is None,
        !c.purpose.port_forward,
        c.timing.last_recv_time == env.now,
        c.timing.delay_response_instant == env.now,
        c.timing.last_test_delay is None,
        c.timing.auto_disconnect_timer is None,
        c.timing.network_delay == 0,
        c.media.display_idx == env.primary_display,
        !c.media.services_subed && !c.media.audio_sender && !c.media.video_ack_required,
        !c.media.multi_ui_session,
        c.media.last_supported_encoding is None,
        c.media.voice_call_request_timestamp is None,
        c.media.audio_input_device_before_voice_call is None,
        !c.trace.closed && !c.trace.chat_unanswered && !c.trace.file_transferred,
        c.portable.is_installed == env.installed,
        c.portable.last_running is None,
        !c.portable.last_uac && !c.portable.last_foreground_window_elevated,
        c.read_jobs@.len() == 0,
        c.pressed_modifiers@.len() == 0,
        c.lr.my_id@.len() == 0,
        c.lr.password@.len() == 0,
{
}

/// While another connection still controls this machine, nothing that was changed for peers is
/// undone: the encoder forgets the one that goes, where it controlled the machine too, and the wake
/// lock hears how many are left.
pub proof fn others_keep_what_was_changed(
    reg: RegistryView,
    target: Target,
    gone: AuthedConnID,
    i: int,
)
    requires
        0 <= i < reg.authed_conns.len(),
        reg.authed_conns[i].0 != gone.0,
        reg.authed_conns[i].1 == AuthConnType::Remote,
    ensures
        authed_released(reg, target, gone.0).wallpaper_remover == reg.wallpaper_remover,
        authed_released(reg, target, gone.0).authed_conns.contains(reg.authed_conns[i]),
        ({
            let acts = authed_release_actions(target, reg.authed_conns, gone);
            &&& acts.last() is WakeLock
            &&& gone.1 == AuthConnType::Remote ==> acts.len() == 2 && acts[0] == (Action::Encoder {
                id: gone.0,
                update: EncoderUpdate::Remove,
            })
            &&& gone.1 != AuthConnType::Remote ==> acts.len() == 1
        }),
{
    let left = crate::registry::other_conns(reg.authed_conns, gone.0);
    reg.authed_conns.lemma_filter_contains(crate::registry::is_other(gone.0), i);
    let k = choose|k: int| 0 <= k < left.len() && left[k] == reg.authed_conns[i];
    left.lemma_filter_contains(|c: (i32, AuthConnType)| c.1 == AuthConnType::Remote, k);
    assert(crate::registry::remote_conns(left).contains(left[k]));
}

} // verus!
