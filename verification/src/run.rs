//! The life of a connection: what the connection manager, the peer, the services and the clock
//! bring, and the end.

use vstd::prelude::*;

use crate::action::{add_if, push_if, Action, CmData, QosUpdate, Service};
use crate::audit::ConnEvent;
use crate::closing::{close_actions, close_reason_told, closed, session_dropped};
use crate::connection::{
    conn_audit, Auth, Connection, Purpose, Rights, Scene, Timing, Trace,
};
use crate::display::{encoding_news, follow_cursor_actions};
use crate::env::{elapsed, elapsed_since, Env};
use crate::forward::has_conn;
use crate::input::released;
use crate::login::LoginStep;
use crate::logon::{logon, LogonFacts};
use crate::message::{
    CloseReason, CursorPosition, Details, Handle, Message, PeerMessage, Permission,
    PrivacyModeState, TestDelay,
};
use crate::peer_message::{message_taken, scene_with};
use crate::portable::{portable_actions, portable_told};
use crate::privacy::privacy_told;
use crate::registry::{
    authed_release_actions, authed_released, other_than, ConnectionID, Registry, RegistryView,
};
use crate::removal_log::{reports, QUIET_MS};
use crate::retina::{cursor_in_pixels, DisplayInfo, Retina};
use crate::target::{Os, Target};
use crate::text::same_text;
use crate::voice::{begins_call, call_close_actions, call_closed, call_handled, may_call};

verus! {

/// How long a peer may be silent, in milliseconds.
pub const PEER_TIMEOUT_MS: u64 = 30_000;

/// Sound that has waited longer than this is not sent any more, in milliseconds.
pub const AUDIO_LATENCY_MS: u64 = 1_000;

/// How privacy mode came to an end.
#[derive(Clone, Copy, Debug, PartialEq, Eq, Structural)]
pub enum PrivacyEnd {
    OffSucceeded,
    OffByPeer,
    OffUnknown,
}

/// What the connection manager tells a connection.
#[derive(Debug, PartialEq, Eq)]
pub enum CmEvent {
    /// The user of this machine lets the peer in.
    Authorize,
    /// The user of this machine ends the connection.
    Close,
    CmErr(String),
    ChatMessage { text: String },
    SwitchPermission { name: String, enabled: bool },
    RawMessage(Handle),
    ClipboardFile(Handle),
    PrivacyModeState { end: PrivacyEnd, impl_key: String },
    /// The service that runs with more rights is to be started.
    StartPortableService,
    SwitchSidesBack,
    VoiceCallResponse(bool),
    CloseVoiceCall,
    Other,
}

/// What comes from the peer.
#[derive(Debug, PartialEq, Eq)]
pub enum StreamEvent {
    Failed,
    /// The peer has closed.
    Closed,
    /// A message; absent where what came is none.
    Bytes(Option<PeerMessage>),
}

/// The rights with one more given or taken back.
pub open spec fn rights_switched(r: Rights, name: Seq<char>, enabled: bool) -> Rights {
    if name == "keyboard"@ {
        Rights { keyboard: enabled, ..r }
    } else if name == "clipboard"@ {
        Rights { clipboard: enabled, ..r }
    } else if name == "audio"@ {
        Rights { audio: enabled, ..r }
    } else if name == "file"@ {
        Rights { file: enabled, ..r }
    } else if name == "restart"@ {
        Rights { restart: enabled, ..r }
    } else if name == "recording"@ {
        Rights { recording: enabled, ..r }
    } else if name == "block_input"@ {
        Rights { block_input: enabled, ..r }
    } else {
        r
    }
}

/// The right that a name stands for.
pub open spec fn permission_named(name: Seq<char>) -> Option<Permission> {
    if name == "keyboard"@ {
        Some(Permission::Keyboard)
    } else if name == "clipboard"@ {
        Some(Permission::Clipboard)
    } else if name == "audio"@ {
        Some(Permission::Audio)
    } else if name == "file"@ {
        Some(Permission::File)
    } else if name == "restart"@ {
        Some(Permission::Restart)
    } else if name == "recording"@ {
        Some(Permission::Recording)
    } else if name == "block_input"@ {
        Some(Permission::BlockInput)
    } else {
        None
    }
}

/// The connection with one more right, or one less.
pub open spec fn permission_switched(c: Connection, name: Seq<char>, enabled: bool) -> Connection {
    Connection { rights: rights_switched(c.rights, name, enabled), ..c }
}

/// The service that a right decides on, and whether the connection is subscribed to it then.
pub open spec fn service_of(c: Connection, permission: Permission) -> Option<(Service, bool)> {
    match permission {
        Permission::Keyboard => Some(
            (Service::Cursor, c.rights.keyboard || c.wishes.show_remote_cursor),
        ),
        Permission::Clipboard => Some((Service::Clipboard, c.clipboard_on() && c.keyboard_on())),
        Permission::Audio => Some((Service::Audio, c.audio_on())),
        _ => None,
    }
}

/// What a right that is given or taken back asks for.
pub open spec fn permission_actions(
    c: Connection,
    env: Env,
    out: Seq<Action>,
    name: Seq<char>,
    enabled: bool,
) -> Seq<Action> {
    match permission_named(name) {
        Some(permission) => {
            let out = out.push(Action::Send(Message::Permission { permission, enabled }));
            match service_of(permission_switched(c, name, enabled), permission) {
                Some((service, on)) => push_if(
                    out,
                    env.server_alive,
                    Action::Subscribe { service, on },
                ),
                None => out,
            }
        },
        None => out,
    }
}

/// The peer hears how privacy mode came to an end.
pub open spec fn privacy_state(end: PrivacyEnd) -> PrivacyModeState {
    match end {
        PrivacyEnd::OffSucceeded => PrivacyModeState::OffSucceeded,
        PrivacyEnd::OffByPeer => PrivacyModeState::OffByPeer,
        PrivacyEnd::OffUnknown => PrivacyModeState::OffUnknown,
    }
}

/// The connection when the user of this machine has seen all that the peer left.
pub open spec fn all_seen(c: Connection) -> Connection {
    Connection { trace: Trace { chat_unanswered: false, file_transferred: false, ..c.trace }, ..c }
}

/// The server closes the connection, and says why.
pub open spec fn closed_with_reason(
    s: Scene,
    env: Env,
    reason: CloseReason,
    lock: bool,
) -> Scene {
    Scene {
        conn: closed(s.conn),
        reg: session_dropped(s.conn, s.reg),
        out: close_actions(s.conn, env, close_reason_told(s.out, reason), lock),
    }
}

/// What the connection manager brings about.
pub open spec fn cm_taken(
    s: Scene,
    env: Env,
    facts: LogonFacts,
    event: CmEvent,
    after: Scene,
    go_on: bool,
) -> bool {
    let c = s.conn;
    match event {
        CmEvent::Authorize => {
            let free = Connection { auth: Auth { require_2fa: None, ..c.auth }, ..c };
            &&& after == logon(Scene { conn: free, ..s }, env, facts)
            &&& go_on == !after.conn.purpose.port_forward
        },
        CmEvent::Close => !go_on && after == closed_with_reason(
            Scene { conn: all_seen(c), ..s },
            env,
            CloseReason::ClosedByPeer,
            true,
        ),
        CmEvent::CmErr(error) => if error@ == "expected"@ {
            go_on && after == s
        } else {
            !go_on && after == scene_with(s, closed(c), close_actions(c, env, s.out, false))
        },
        CmEvent::ChatMessage { text } => go_on && after == scene_with(
            s,
            Connection { trace: Trace { chat_unanswered: false, ..c.trace }, ..c },
            s.out.push(Action::Send(Message::ChatMessage { text })),
        ),
        CmEvent::SwitchPermission { name, enabled } => go_on && after == scene_with(
            s,
            permission_switched(c, name@, enabled),
            permission_actions(c, env, s.out, name@, enabled),
        ),
        CmEvent::RawMessage(bytes) => go_on && after == scene_with(
            s,
            c,
            s.out.push(Action::Send(Message::Raw(bytes))),
        ),
        CmEvent::ClipboardFile(clip) => go_on && after == scene_with(
            s,
            c,
            push_if(
                s.out,
                env.target.is_desktop(),
                Action::Send(Message::ClipboardFile(clip)),
            ),
        ),
        CmEvent::PrivacyModeState { end, impl_key } => go_on && after == scene_with(
            s,
            c,
            s.out.push(privacy_told(privacy_state(end), Details::Empty, Some(impl_key))),
        ),
        CmEvent::StartPortableService => go_on && after == scene_with(
            s,
            c,
            push_if(s.out, env.target.os == Os::Windows, Action::StartPortableService),
        ),
        CmEvent::SwitchSidesBack => go_on && after == scene_with(
            s,
            c,
            s.out.push(Action::Send(Message::SwitchBack)),
        ),
        CmEvent::VoiceCallResponse(accepted) => {
            &&& go_on
            &&& after.reg == s.reg
            &&& call_handled(c, s.out, env, accepted, after.conn, after.out)
        },
        CmEvent::CloseVoiceCall => go_on && after == scene_with(
            s,
            call_closed(c),
            call_close_actions(c, s.out).push(
                Action::Send(Message::VoiceCallRequest { is_connect: false }),
            ),
        ),
        CmEvent::Other => go_on && after == s,
    }
}

/// The connection leaves its loop to forward a port: the peer is authorised, and no delay probe is
/// under way whose answer would get among the forwarded bytes.
pub open spec fn starts_forwarding(c: Connection) -> bool {
    c.purpose.port_forward && c.auth.authorized && c.timing.last_test_delay is None
}

/// What a step of logging on means for the loop.
pub open spec fn settled(c: Connection, step: LoginStep) -> LoginStep {
    match step {
        LoginStep::Done(go_on) => LoginStep::Done(go_on && !starts_forwarding(c)),
        step => step,
    }
}

/// The scene when something was received.
pub open spec fn received(s: Scene, env: Env) -> Scene {
    Scene {
        conn: Connection {
            timing: Timing { last_recv_time: env.now, ..s.conn.timing },
            ..s.conn
        },
        reg: RegistryView {
            recv_times: s.reg.recv_times.insert(s.conn.inner.id, env.now),
            ..s.reg
        },
        ..s
    }
}

/// What comes from the peer, and what follows.
pub open spec fn stream_taken(
    s: Scene,
    env: Env,
    facts: LogonFacts,
    event: StreamEvent,
    after: Scene,
    step: LoginStep,
) -> bool {
    match event {
        StreamEvent::Bytes(Some(msg)) => exists|taken: LoginStep| #[trigger]
            message_taken(received(s, env), env, facts, msg, after, taken) && step == settled(
                after.conn,
                taken,
            ),
        StreamEvent::Bytes(None) => after == received(s, env) && step == LoginStep::Done(true),
        _ => {
            &&& step == LoginStep::Done(false)
            &&& after == scene_with(s, closed(s.conn), close_actions(s.conn, env, s.out, true))
        },
    }
}

/// Sound that has waited too long is dropped.
pub open spec fn is_stale(now: u64, at: u64, message: Message) -> bool {
    elapsed(now, at) > AUDIO_LATENCY_MS && message is AudioFrame
}

/// A message as it goes to the peer: a cursor position is told in pixels.
pub open spec fn told_in_pixels(c: Connection, env: Env, message: Message) -> Message {
    match message {
        Message::CursorPosition(pos) => {
            let pixels = cursor_in_pixels(c.retina.displays@, pos, c.media.display_idx as int);
            if env.target.os == Os::Macos && pixels is Some {
                Message::CursorPosition(pixels->0)
            } else {
                message
            }
        },
        _ => message,
    }
}

/// What a message of a service asks for before it goes to the peer.
pub open spec fn outgoing_actions(
    c: Connection,
    env: Env,
    out: Seq<Action>,
    message: Message,
) -> Seq<Action> {
    match message {
        Message::PeerInfo(_) => out.push(Action::RefreshVideo { display: None }),
        Message::CursorPosition(pos) => if env.target.is_desktop()
            && c.wishes.follow_remote_cursor {
            follow_cursor_actions(c, env, out, pos)
        } else {
            out
        },
        _ => out,
    }
}

/// What a message of a service brings about. `displays` are those that a message on the displays
/// tells of.
pub open spec fn outgoing_taken(
    s: Scene,
    env: Env,
    at: u64,
    message: Message,
    displays: Vec<DisplayInfo>,
) -> (Scene, bool) {
    let c = s.conn;
    if is_stale(env.now, at, message) {
        (s, true)
    } else if message is StopService {
        (closed_with_reason(s, env, CloseReason::ClosedByPeer, false), false)
    } else {
        (
            Scene {
                conn: if message is PeerInfo && env.target.os == Os::Macos {
                    Connection { retina: Retina { displays }, ..c }
                } else {
                    c
                },
                out: outgoing_actions(c, env, s.out, message).push(
                    Action::SendOrClose(told_in_pixels(c, env, message)),
                ),
                ..s
            },
            true,
        )
    }
}

/// The peer has done nothing for too long.
pub open spec fn is_inactive(c: Connection, now: u64) -> bool {
    match c.timing.auto_disconnect_timer {
        Some((since, minutes)) => elapsed(now, since) as int / 1_000 > minutes * 60,
        None => false,
    }
}

/// Reports to the connection manager.
pub open spec fn told_to_cm(told: Seq<CmData>) -> Seq<Action> {
    told.map_values(|data: CmData| Action::ToCm(data))
}

/// What is told of removed files when a second has passed.
pub open spec fn removals_told(c: Connection, now: u64) -> Seq<Action> {
    if elapsed(now, c.file_remove_log_control.instant) < QUIET_MS {
        seq![]
    } else {
        told_to_cm(reports(c.file_remove_log_control))
    }
}

/// What each second brings about before the transfers are looked at.
pub open spec fn second_begun(s: Scene, env: Env) -> Scene {
    if env.target.os == Os::Windows {
        scene_with(
            s,
            Connection { portable: portable_told(s.conn, env), ..s.conn },
            portable_actions(s.conn, env, s.out),
        )
    } else {
        s
    }
}

/// The peer hears of codecs that turned out to work or not.
pub open spec fn encoding_told(c: Connection, env: Env, out: Seq<Action>) -> Seq<Action> {
    match encoding_news(c, env) {
        Some(news) => if env.target.hwcodec {
            c.inner.queued(out, Message::SupportedEncoding(news))
        } else {
            out
        },
        None => out,
    }
}

/// What each second brings about.
pub open spec fn second_passed(s: Scene, env: Env, after: Scene, go_on: bool) -> bool {
    let s = second_begun(s, env);
    let c = s.conn;
    if is_inactive(c, env.now) {
        !go_on && after == closed_with_reason(s, env, CloseReason::Inactivity, true)
    } else {
        &&& go_on
        &&& after.reg == s.reg
        &&& after.out == encoding_told(c, env, s.out + removals_told(c, env.now))
        &&& after.conn == (Connection {
            file_remove_log_control: after.conn.file_remove_log_control,
            media: crate::connection::Media {
                last_supported_encoding: if env.target.hwcodec && encoding_news(c, env) is Some {
                    encoding_news(c, env)
                } else {
                    c.media.last_supported_encoding
                },
                ..c.media
            },
            ..c
        })
        &&& {
            let log = c.file_remove_log_control;
            let log_after = after.conn.file_remove_log_control;
            if elapsed(env.now, log.instant) < QUIET_MS {
                log_after == log
            } else {
                &&& log_after.conn_id == log.conn_id
                &&& log_after.instant == log.instant
                &&& log_after.removed_files@.len() == 0
                &&& log_after.removed_dirs@.len() == 0
            }
        }
    }
}

/// A delay probe is sent: none is under way, and its answer would not get among forwarded bytes.
pub open spec fn probes(c: Connection) -> bool {
    c.timing.last_test_delay is None && !(c.purpose.port_forward && c.auth.authorized)
}

/// What the timer of the delay probe brings about.
pub open spec fn delay_timer_passed(c: Connection, env: Env, out: Seq<Action>) -> (
    Connection,
    Seq<Action>,
    bool,
) {
    if elapsed(env.now, c.timing.last_recv_time) >= PEER_TIMEOUT_MS {
        (closed(c), close_actions(c, env, out, true), false)
    } else {
        (
            if probes(c) {
                Connection {
                    timing: Timing { last_test_delay: Some(env.now), ..c.timing },
                    ..c
                }
            } else {
                c
            },
            push_if(
                out,
                probes(c),
                Action::Send(
                    Message::TestDelay(
                        TestDelay {
                            time: 0,
                            from_client: false,
                            last_delay: c.timing.network_delay,
                            target_bitrate: env.bitrate,
                        },
                    ),
                ),
            ).push(
                Action::Qos {
                    id: c.inner.id,
                    update: QosUpdate::DelayResponseElapsed(
                        elapsed(env.now, c.timing.delay_response_instant),
                    ),
                },
            ),
            true,
        )
    }
}

/// What the end of the loop asks for.
pub open spec fn loop_end_actions(c: Connection, env: Env, out: Seq<Action>) -> Seq<Action> {
    let out = push_if(
        out,
        env.privacy_conn == Some(c.inner.id),
        Action::TurnOffPrivacy { conn: Some(c.inner.id), answer: false },
    );
    let out = push_if(
        out,
        env.target.has_plugins(),
        Action::PluginConnClosed { peer: c.lr.my_id },
    );
    push_if(
        out.push(Action::NotifyFrameFetched { at: None }),
        c.auth.authorized,
        Action::UpdateTemporaryPassword,
    )
}

/// What the end of the connection asks for.
pub open spec fn end_actions(c: Connection, env: Env, out: Seq<Action>) -> Seq<Action> {
    close_actions(
        c,
        env,
        push_if(
            conn_audit(c, out, ConnEvent::Close),
            env.server_alive,
            Action::RemoveConnection,
        ),
        true,
    )
}

/// What is left of a connection is taken away.
pub open spec fn taken_away(s: Scene, target: Target, entered: ConnectionID) -> (
    RegistryView,
    Seq<Action>,
) {
    let c = s.conn;
    let out = if target.is_desktop() {
        s.out + released(c.pressed_modifiers@)
    } else {
        s.out
    };
    let reg = match c.auth.authed_conn_id {
        Some(authed) => authed_released(s.reg, target, authed.0),
        None => s.reg,
    };
    let out = match c.auth.authed_conn_id {
        Some(authed) => out + authed_release_actions(target, s.reg.authed_conns, authed),
        None => out,
    };
    (
        RegistryView {
            alive_conns: reg.alive_conns.filter(other_than(entered.0)),
            ..reg
        },
        out.push(Action::Qos { id: entered.0, update: QosUpdate::ConnectionClose }),
    )
}

impl Connection {
    /// Gives a right or takes it back.
    fn switch_right(&mut self, permission: Permission, enabled: bool)
        ensures
            *final(self) == (Connection {
                rights: match permission {
                    Permission::Keyboard => Rights { keyboard: enabled, ..old(self).rights },
                    Permission::Clipboard => Rights { clipboard: enabled, ..old(self).rights },
                    Permission::Audio => Rights { audio: enabled, ..old(self).rights },
                    Permission::File => Rights { file: enabled, ..old(self).rights },
                    Permission::Restart => Rights { restart: enabled, ..old(self).rights },
                    Permission::Recording => Rights { recording: enabled, ..old(self).rights },
                    Permission::BlockInput => Rights { block_input: enabled, ..old(self).rights },
                },
                ..*old(self)
            }),
    {
        let r = self.rights;
        self.rights = match permission {
            Permission::Keyboard => Rights { keyboard: enabled, ..r },
            Permission::Clipboard => Rights { clipboard: enabled, ..r },
            Permission::Audio => Rights { audio: enabled, ..r },
            Permission::File => Rights { file: enabled, ..r },
            Permission::Restart => Rights { restart: enabled, ..r },
            Permission::Recording => Rights { recording: enabled, ..r },
            Permission::BlockInput => Rights { block_input: enabled, ..r },
        };
    }

    /// The right that a name stands for.
    fn permission_of(name: &str) -> (permission: Option<Permission>)
        ensures
            permission == permission_named(name@),
    {
        if same_text(name, "keyboard") {
            Some(Permission::Keyboard)
        } else if same_text(name, "clipboard") {
            Some(Permission::Clipboard)
        } else if same_text(name, "audio") {
            Some(Permission::Audio)
        } else if same_text(name, "file") {
            Some(Permission::File)
        } else if same_text(name, "restart") {
            Some(Permission::Restart)
        } else if same_text(name, "recording") {
            Some(Permission::Recording)
        } else if same_text(name, "block_input") {
            Some(Permission::BlockInput)
        } else {
            None
        }
    }

    /// Takes up that the user of this machine gives a right or takes it back.
    fn switch_permission(&mut self, env: &Env, name: &String, enabled: bool, out: &mut Vec<Action>)
        ensures
            *final(self) == permission_switched(*old(self), name@, enabled),
            final(out)@ == permission_actions(*old(self), *env, old(out)@, name@, enabled),
    {
        let permission = match Self::permission_of(name.as_str()) {
            Some(permission) => permission,
            None => {
                return ;
            },
        };
        self.switch_right(permission, enabled);
        self.send_permission(permission, enabled, out);
        let change: Option<(Service, bool)> = match permission {
            Permission::Keyboard => Some(
                (Service::Cursor, enabled || self.wishes.show_remote_cursor),
            ),
            Permission::Clipboard => Some(
                (Service::Clipboard, self.clipboard_enabled() && self.peer_keyboard_enabled()),
            ),
            Permission::Audio => Some((Service::Audio, self.audio_enabled())),
            _ => None,
        };
        if let Some((service, on)) = change {
            add_if(out, env.server_alive, Action::Subscribe { service, on });
        }
    }

    /// Closes the connection and tells the peer why.
    fn close_with_reason(
        &mut self,
        reg: &mut Registry,
        env: &Env,
        reason: CloseReason,
        lock: bool,
        out: &mut Vec<Action>,
    )
        ensures
            (Scene { conn: *final(self), reg: final(reg)@, out: final(out)@ })
                == closed_with_reason(
                Scene { conn: *old(self), reg: old(reg)@, out: old(out)@ },
                *env,
                reason,
                lock,
            ),
    {
        self.send_close_reason_no_retry(reg, reason, out);
        self.on_close(env, lock, out);
    }

    /// Takes what the connection manager tells, and says whether the loop goes on.
    pub fn on_cm(
        &mut self,
        reg: &mut Registry,
        env: &Env,
        facts: LogonFacts,
        event: CmEvent,
        out: &mut Vec<Action>,
    ) -> (go_on: bool)
        ensures
            cm_taken(
                Scene { conn: *old(self), reg: old(reg)@, out: old(out)@ },
                *env,
                facts,
                event,
                Scene { conn: *final(self), reg: final(reg)@, out: final(out)@ },
                go_on,
            ),
    {
        match event {
            CmEvent::Authorize => {
                self.auth.require_2fa = None;
                self.send_logon_response(reg, env, facts, out);
                return !self.purpose.port_forward;
            },
            CmEvent::Close => {
                self.trace.chat_unanswered = false;
                self.trace.file_transferred = false;
                self.close_with_reason(reg, env, CloseReason::ClosedByPeer, true, out);
                return false;
            },
            CmEvent::CmErr(error) => {
                if !same_text(error.as_str(), "expected") {
                    self.on_close(env, false, out);
                    return false;
                }
            },
            CmEvent::ChatMessage { text } => {
                out.push(Action::Send(Message::ChatMessage { text }));
                self.trace.chat_unanswered = false;
            },
            CmEvent::SwitchPermission { name, enabled } => {
                self.switch_permission(env, &name, enabled, out);
            },
            CmEvent::RawMessage(bytes) => out.push(Action::Send(Message::Raw(bytes))),
            CmEvent::ClipboardFile(clip) => {
                add_if(out, env.target.desktop(), Action::Send(Message::ClipboardFile(clip)));
            },
            CmEvent::PrivacyModeState { end, impl_key } => {
                let state = match end {
                    PrivacyEnd::OffSucceeded => PrivacyModeState::OffSucceeded,
                    PrivacyEnd::OffByPeer => PrivacyModeState::OffByPeer,
                    PrivacyEnd::OffUnknown => PrivacyModeState::OffUnknown,
                };
                out.push(
                    Action::Send(
                        Message::PrivacyMode {
                            state,
                            details: Details::Empty,
                            impl_key: Some(impl_key),
                        },
                    ),
                );
            },
            CmEvent::StartPortableService => {
                add_if(out, env.target.os == Os::Windows, Action::StartPortableService);
            },
            CmEvent::SwitchSidesBack => out.push(Action::Send(Message::SwitchBack)),
            CmEvent::VoiceCallResponse(accepted) => self.handle_voice_call(env, accepted, out),
            CmEvent::CloseVoiceCall => {
                self.close_voice_call(out);
                out.push(Action::Send(Message::VoiceCallRequest { is_connect: false }));
            },
            CmEvent::Other => {},
        }
        true
    }

    /// What a step of logging on means for the loop.
    pub fn settle(&self, step: LoginStep) -> (after: LoginStep)
        ensures
            after == settled(*self, step),
    {
        match step {
            LoginStep::Done(go_on) => {
                let forward = self.purpose.port_forward && self.auth.authorized
                    && self.timing.last_test_delay.is_none();
                LoginStep::Done(go_on && !forward)
            },
            step => step,
        }
    }

    /// Takes what comes from the peer.
    pub fn on_stream(
        &mut self,
        reg: &mut Registry,
        env: &Env,
        facts: LogonFacts,
        event: StreamEvent,
        out: &mut Vec<Action>,
    ) -> (step: LoginStep)
        requires
            may_call(*old(self)) && (event matches StreamEvent::Bytes(Some(msg)) && begins_call(
                msg,
            )) ==> env.epoch_ms != 0,
        ensures
            stream_taken(
                Scene { conn: *old(self), reg: old(reg)@, out: old(out)@ },
                *env,
                facts,
                event,
                Scene { conn: *final(self), reg: final(reg)@, out: final(out)@ },
                step,
            ),
    {
        match event {
            StreamEvent::Bytes(message) => {
                self.timing.last_recv_time = env.now;
                reg.note_receipt(self.inner.id, env.now);
                match message {
                    Some(message) => {
                        let taken = self.on_message(reg, env, facts, message, out);
                        let ghost step = taken;
                        assert(message_taken(
                            received(
                                Scene { conn: *old(self), reg: old(reg)@, out: old(out)@ },
                                *env,
                            ),
                            *env,
                            facts,
                            message,
                            Scene { conn: *self, reg: reg@, out: out@ },
                            step,
                        ));
                        self.settle(taken)
                    },
                    None => LoginStep::Done(true),
                }
            },
            _ => {
                self.on_close(env, true, out);
                LoginStep::Done(false)
            },
        }
    }

    /// Takes up which connections are to be ended, and says whether the loop goes on.
    pub fn on_web_console(
        &mut self,
        reg: &mut Registry,
        env: &Env,
        conns: &Vec<i32>,
        out: &mut Vec<Action>,
    ) -> (go_on: bool)
        ensures
            go_on == !conns@.contains(old(self).inner.id),
            (Scene { conn: *final(self), reg: final(reg)@, out: final(out)@ }) == ({
                let s = Scene { conn: *old(self), reg: old(reg)@, out: old(out)@ };
                if go_on {
                    s
                } else {
                    closed_with_reason(s, *env, CloseReason::ClosedByWebConsole, true)
                }
            }),
    {
        if has_conn(conns, self.inner.id) {
            self.close_with_reason(reg, env, CloseReason::ClosedByWebConsole, true, out);
            return false;
        }
        true
    }

    /// Takes a picture that waited since `at`.
    pub fn on_video(&self, at: u64, message: Message, out: &mut Vec<Action>)
        ensures
            final(out)@ == push_if(
                old(out)@,
                !self.media.video_ack_required,
                Action::NotifyFrameFetched { at: Some(at) },
            ).push(Action::SendOrClose(message)),
    {
        add_if(
            out,
            !self.media.video_ack_required,
            Action::NotifyFrameFetched { at: Some(at) },
        );
        out.push(Action::SendOrClose(message));
    }

    /// Takes up that a message could not be sent: the connection ends.
    pub fn on_send_failed(&mut self, env: &Env, out: &mut Vec<Action>)
        ensures
            *final(self) == closed(*old(self)),
            final(out)@ == close_actions(*old(self), *env, old(out)@, false),
    {
        self.on_close(env, false, out);
    }

    /// The position of the cursor as the peer is told it.
    fn tell_cursor(&self, env: &Env, pos: CursorPosition, out: &mut Vec<Action>) -> (
        message: Message)
        ensures
            message == told_in_pixels(*self, *env, Message::CursorPosition(pos)),
            final(out)@ == outgoing_actions(
                *self,
                *env,
                old(out)@,
                Message::CursorPosition(pos),
            ),
    {
        if env.target.desktop() && self.wishes.follow_remote_cursor {
            self.handle_cursor_switch_display(env, &pos, out);
        }
        if env.target.os == Os::Macos {
            if let Some(message) = self.retina.on_cursor_pos(&pos, self.media.display_idx) {
                return message;
            }
        }
        Message::CursorPosition(pos)
    }

    /// Takes a message of a service that waited since `at`, and says whether the loop goes on.
    pub fn on_outgoing(
        &mut self,
        reg: &mut Registry,
        env: &Env,
        at: u64,
        message: Message,
        displays: Vec<DisplayInfo>,
        out: &mut Vec<Action>,
    ) -> (go_on: bool)
        ensures
            (Scene { conn: *final(self), reg: final(reg)@, out: final(out)@ }, go_on)
                == outgoing_taken(
                Scene { conn: *old(self), reg: old(reg)@, out: old(out)@ },
                *env,
                at,
                message,
                displays,
            ),
    {
        let late = elapsed_since(env.now, at) > AUDIO_LATENCY_MS;
        match message {
            Message::AudioFrame(frame) => {
                if !late {
                    out.push(Action::SendOrClose(Message::AudioFrame(frame)));
                }
            },
            Message::StopService => {
                self.close_with_reason(reg, env, CloseReason::ClosedByPeer, false, out);
                return false;
            },
            Message::PeerInfo(info) => {
                self.refresh_video_display(None, out);
                out.push(Action::SendOrClose(Message::PeerInfo(info)));
                if env.target.os == Os::Macos {
                    self.retina.set_displays(displays);
                }
            },
            Message::CursorPosition(pos) => {
                let message = self.tell_cursor(env, pos, out);
                out.push(Action::SendOrClose(message));
            },
            message => out.push(Action::SendOrClose(message)),
        }
        true
    }

    /// Whether the peer has done nothing for too long.
    fn inactive(&self, now: u64) -> (yes: bool)
        ensures
            yes == is_inactive(*self, now),
    {
        match self.timing.auto_disconnect_timer {
            Some((since, minutes)) => {
                let seconds: u128 = (elapsed_since(now, since) / 1_000) as u128;
                seconds > minutes as u128 * 60
            },
            None => false,
        }
    }

    /// Tells the connection manager of removed files.
    fn tell_removals(&mut self, now: u64, out: &mut Vec<Action>)
        ensures
            *final(self) == (Connection {
                file_remove_log_control: final(self).file_remove_log_control,
                ..*old(self)
            }),
            final(out)@ == old(out)@ + removals_told(*old(self), now),
            ({
                let log = old(self).file_remove_log_control;
                let log_after = final(self).file_remove_log_control;
                if elapsed(now, log.instant) < QUIET_MS {
                    log_after == log
                } else {
                    &&& log_after.conn_id == log.conn_id
                    &&& log_after.instant == log.instant
                    &&& log_after.removed_files@.len() == 0
                    &&& log_after.removed_dirs@.len() == 0
                }
            }),
    {
        let told = self.file_remove_log_control.on_timer(now);
        tell_all(told, out);
        assert(out@ =~= old(out)@ + removals_told(*old(self), now));
    }

    /// Does what each second brings, and says whether the loop goes on.
    pub fn on_second_timer(&mut self, reg: &mut Registry, env: &Env, out: &mut Vec<Action>) -> (
        go_on: bool)
        ensures
            second_passed(
                Scene { conn: *old(self), reg: old(reg)@, out: old(out)@ },
                *env,
                Scene { conn: *final(self), reg: final(reg)@, out: final(out)@ },
                go_on,
            ),
    {
        if env.target.os == Os::Windows {
            self.portable_check(env, out);
        }
        if self.inactive(env.now) {
            self.close_with_reason(reg, env, CloseReason::Inactivity, true, out);
            return false;
        }
        self.tell_removals(env.now, out);
        if env.target.hwcodec {
            self.update_supported_encoding(env, out);
        }
        true
    }

    /// Does what the timer of the delay probe brings, and says whether the loop goes on.
    pub fn on_delay_timer(&mut self, env: &Env, out: &mut Vec<Action>) -> (go_on: bool)
        ensures
            (*final(self), final(out)@, go_on) == delay_timer_passed(
                *old(self),
                *env,
                old(out)@,
            ),
    {
        if elapsed_since(env.now, self.timing.last_recv_time) >= PEER_TIMEOUT_MS {
            self.on_close(env, true, out);
            return false;
        }
        let probe = self.timing.last_test_delay.is_none() && !(self.purpose.port_forward
            && self.auth.authorized);
        let test = TestDelay {
            time: 0,
            from_client: false,
            last_delay: self.timing.network_delay,
            target_bitrate: env.bitrate,
        };
        add_if(out, probe, Action::Send(Message::TestDelay(test)));
        let silent = elapsed_since(env.now, self.timing.delay_response_instant);
        out.push(
            Action::Qos {
                id: self.inner.id,
                update: QosUpdate::DelayResponseElapsed(silent),
            },
        );
        if probe {
            self.timing.last_test_delay = Some(env.now);
        }
        true
    }

    /// Does what the end of the loop brings, and says whether a port is forwarded from now on.
    pub fn on_loop_end(&mut self, env: &Env, out: &mut Vec<Action>) -> (forwards: bool)
        ensures
            forwards == old(self).purpose.port_forward,
            *final(self) == (Connection {
                purpose: Purpose { port_forward: false, ..old(self).purpose },
                ..*old(self)
            }),
            final(out)@ == loop_end_actions(*old(self), *env, old(out)@),
    {
        let id = self.inner.id;
        let private = match env.privacy_conn {
            Some(conn) => conn == id,
            None => false,
        };
        add_if(out, private, Action::TurnOffPrivacy { conn: Some(id), answer: false });
        let peer = self.lr.my_id.clone();
        add_if(out, env.target.plugins(), Action::PluginConnClosed { peer });
        out.push(Action::NotifyFrameFetched { at: None });
        add_if(out, self.auth.authorized, Action::UpdateTemporaryPassword);
        let forwards = self.purpose.port_forward;
        self.purpose.port_forward = false;
        forwards
    }

    /// Takes up that a forwarded port has failed.
    pub fn on_forward_ended(&mut self, env: &Env, out: &mut Vec<Action>)
        ensures
            *final(self) == closed(*old(self)),
            final(out)@ == close_actions(*old(self), *env, old(out)@, false),
    {
        self.on_close(env, false, out);
    }

    /// Ends the connection.
    pub fn on_end(&mut self, env: &Env, out: &mut Vec<Action>)
        ensures
            *final(self) == closed(*old(self)),
            final(out)@ == end_actions(*old(self), *env, old(out)@),
    {
        self.post_conn_audit(ConnEvent::Close, out);
        add_if(out, env.server_alive, Action::RemoveConnection);
        self.on_close(env, true, out);
    }

    /// Takes away what is left of the connection.
    pub fn release(
        self,
        reg: &mut Registry,
        target: &Target,
        entered: ConnectionID,
        out: &mut Vec<Action>,
    )
        ensures
            (final(reg)@, final(out)@) == taken_away(
                Scene { conn: self, reg: old(reg)@, out: old(out)@ },
                *target,
                entered,
            ),
    {
        let mut conn = self;
        if target.desktop() {
            conn.release_pressed_modifiers(out);
        }
        if let Some(authed) = conn.auth.authed_conn_id {
            authed.release(reg, target, out);
        }
        entered.release(reg, out);
    }
}

/// Tells the connection manager several things.
fn tell_all(told: Vec<CmData>, out: &mut Vec<Action>)
    ensures
        final(out)@ == old(out)@ + told_to_cm(told@),
{
    let mut told = told;
    let ghost all = told@;
    let ghost before = out@;
    assert(before + told_to_cm(all.take(0)) =~= before);
    let ghost mut n: int = 0;
    assert(told@ =~= all.skip(0));
    while told.len() > 0
        invariant
            0 <= n <= all.len(),
            told@ == all.skip(n),
            out@ == before + told_to_cm(all.take(n)),
        decreases told@.len(),
    {
        let data = told.remove(0);
        out.push(Action::ToCm(data));
        proof {
            assert(told@ =~= all.skip(n + 1));
            assert(out@ =~= before + told_to_cm(all.take(n + 1)));
            n = n + 1;
        }
    }
    assert(all.take(n) =~= all);
}

} // verus!
