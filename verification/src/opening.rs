//! The start of a connection.

use vstd::prelude::*;

use crate::action::{add_if, push_if, Action};
use crate::audit::{AlarmAuditType, AlarmInfo, ConnEvent};
use crate::connection::{
    alarm_audit, conn_audit, login_error, permitted, Auth, ConnInner, Connection, Media, Purpose,
    Rights, Timing, Trace, Wishes,
};
use crate::env::Env;
use crate::headless::{LinuxHeadlessHandle, WAIT_IPC_MS};
use crate::message::{LoginError, LoginKind, LoginRequest, Message, PeerVersion, Permission, Sender};
use crate::password::LoginHash;
use crate::portable::PortableState;
use crate::registry::{ConnectionID, Registry, RegistryView};
use crate::removal_log::FileRemoveLogControl;
use crate::retina::Retina;
use crate::target::Os;
use crate::totp::Totp;
use crate::whitelist::{admits, whitelist_admits, PeerAddr};

verus! {

/// How long sending pictures may take, in milliseconds.
pub const SEND_TIMEOUT_VIDEO_MS: u64 = 12_000;

/// How long sending anything else may take, in milliseconds.
pub const SEND_TIMEOUT_OTHER_MS: u64 = 120_000;

/// How long a peer that may not connect is kept, in milliseconds, so that it reads why.
pub const CLOSE_PAUSE_MS: u64 = 1_000;

/// What a new connection begins with.
pub struct Opening {
    pub tx: Option<Sender>,
    pub tx_video: Option<Sender>,
    pub hash: LoginHash,
    pub require_2fa: Option<Totp>,
}

/// What the user of this machine lets a new peer do.
pub open spec fn given_rights(env: Env) -> Rights {
    Rights {
        keyboard: permitted(env, "enable-keyboard"@),
        clipboard: permitted(env, "enable-clipboard"@),
        audio: permitted(env, "enable-audio"@),
        file: permitted(env, "enable-file-transfer"@),
        restart: permitted(env, "enable-remote-restart"@),
        recording: permitted(env, "enable-record-session"@),
        block_input: permitted(env, "enable-block-input"@),
    }
}

/// A peer that has not yet wanted anything.
pub open spec fn no_wishes() -> Wishes {
    Wishes {
        disable_keyboard: false,
        disable_clipboard: false,
        disable_audio: false,
        enable_file_transfer: false,
        lock_after_session_end: false,
        show_remote_cursor: false,
        follow_remote_cursor: false,
        follow_remote_window: false,
    }
}

/// A request to log on that says nothing.
pub open spec fn blank_request(lr: LoginRequest) -> bool {
    &&& lr.username@.len() == 0
    &&& lr.password@.len() == 0
    &&& lr.my_id@.len() == 0
    &&& lr.my_name@.len() == 0
    &&& lr.option is None
    &&& lr.kind is Remote
    &&& !lr.video_ack_required
    &&& lr.session_id == 0
    &&& lr.version == (PeerVersion {
        number: 0,
        multi_ui_session: false,
        overwrite_detection: false,
    })
    &&& lr.os_login is None
}

/// A connection that has just begun.
pub open spec fn is_new(c: Connection, env: Env, id: i32, opening: Opening) -> bool {
    &&& c.inner == (ConnInner { id, tx: opening.tx, tx_video: opening.tx_video })
    &&& c.rights == given_rights(env)
    &&& c.wishes == no_wishes()
    &&& c.auth == (Auth {
        hash: opening.hash,
        authorized: false,
        require_2fa: opening.require_2fa,
        from_switch: false,
        authed_conn_id: None,
        options_in_login: None,
        start_cm_ipc_para: true,
        linux_headless_handle: LinuxHeadlessHandle {
            is_headless_allowed: env.is_server && env.headless_allowed,
            is_headless: env.is_server && env.headless_allowed && env.headless,
            wait_ipc_timeout: WAIT_IPC_MS,
        },
    })
    &&& blank_request(c.lr)
    &&& c.purpose.file_transfer is None
    &&& c.purpose.delayed_read_dir is None
    &&& !c.purpose.port_forward
    &&& c.purpose.port_forward_address@.len() == 0
    &&& c.timing == (Timing {
        last_recv_time: env.now,
        last_test_delay: None,
        network_delay: 0,
        delay_response_instant: env.now,
        auto_disconnect_timer: None,
    })
    &&& c.media == (Media {
        display_idx: env.primary_display,
        multi_ui_session: false,
        video_ack_required: false,
        last_supported_encoding: None,
        services_subed: false,
        audio_sender: false,
        voice_call_request_timestamp: None,
        audio_input_device_before_voice_call: None,
    })
    &&& c.trace.ip@.len() == 0
    &&& c.trace.server_audit_conn@.len() == 0
    &&& c.trace.server_audit_file@.len() == 0
    &&& !c.trace.chat_unanswered
    &&& !c.trace.file_transferred
    &&& !c.trace.closed
    &&& c.portable == (PortableState {
        last_uac: false,
        last_foreground_window_elevated: false,
        last_running: None,
        is_installed: env.installed,
    })
    &&& c.read_jobs@.len() == 0
    &&& c.pressed_modifiers@.len() == 0
    &&& c.file_remove_log_control.conn_id == id
    &&& c.file_remove_log_control.instant == env.now
    &&& c.file_remove_log_control.removed_files@.len() == 0
    &&& c.file_remove_log_control.removed_dirs@.len() == 0
    &&& c.retina.displays@.len() == 0
}

/// Why a peer at an address may not connect.
pub open spec fn open_error(env: Env, addr: PeerAddr) -> Option<LoginError> {
    if !whitelist_admits(env.config.option("whitelist"@), addr.ip) {
        Some(LoginError::IpBlocked)
    } else if env.target.is_desktop() && env.is_server && env.config.option(
        "allow-only-conn-window-open"@,
    ) == "Y"@ && !env.main_window_open {
        Some(LoginError::MainWindowNotOpen)
    } else {
        None
    }
}

/// The connection once it is open.
pub open spec fn opened(c: Connection, env: Env, addr: PeerAddr) -> Connection {
    Connection {
        trace: Trace {
            ip: addr.text,
            server_audit_conn: env.audit.conn,
            server_audit_file: env.audit.file,
            ..c.trace
        },
        ..c
    }
}

/// What opening a connection asks for: the peer gets the challenge, or hears why not.
pub open spec fn open_actions(c: Connection, env: Env, out: Seq<Action>, addr: PeerAddr) -> Seq<
    Action,
> {
    match open_error(env, addr) {
        Some(error) => {
            let out = out.push(login_error(error));
            if error is IpBlocked {
                alarm_audit(
                    env.audit,
                    out,
                    AlarmAuditType::IpWhitelist,
                    AlarmInfo::Ip { ip: addr.text },
                )
            } else {
                out
            }
        },
        None => conn_audit(
            opened(c, env, addr),
            out.push(
                Action::Send(
                    Message::Hash {
                        salt: c.auth.hash.salt,
                        challenge: c.auth.hash.challenge,
                    },
                ),
            ),
            ConnEvent::New { ip: addr.text },
        ),
    }
}

/// The peer hears of a permission that it does not have.
pub open spec fn denied(out: Seq<Action>, given: bool, permission: Permission) -> Seq<Action> {
    push_if(out, !given, Action::Send(Message::Permission { permission, enabled: false }))
}

/// The peer hears of all permissions that it does not have.
pub open spec fn rights_told(r: Rights, out: Seq<Action>) -> Seq<Action> {
    let out = denied(out, r.keyboard, Permission::Keyboard);
    let out = denied(out, r.clipboard, Permission::Clipboard);
    let out = denied(out, r.audio, Permission::Audio);
    let out = denied(out, r.file, Permission::File);
    let out = denied(out, r.restart, Permission::Restart);
    let out = denied(out, r.recording, Permission::Recording);
    denied(out, r.block_input, Permission::BlockInput)
}

/// How long sending may take.
pub open spec fn send_timeout(c: Connection) -> u64 {
    if c.is_remote() {
        SEND_TIMEOUT_VIDEO_MS
    } else {
        SEND_TIMEOUT_OTHER_MS
    }
}

/// What the start of a connection asks for once it is open.
pub open spec fn run_actions(c: Connection, env: Env, out: Seq<Action>) -> Seq<Action> {
    let out = push_if(out, env.target.os == Os::Android, Action::StartChannel);
    let out = rights_told(c.rights, out).push(Action::SetSendTimeout { ms: send_timeout(c) });
    push_if(out, env.target.is_desktop(), Action::StartInputThread)
}

/// A connection that was started, and whether it goes on.
pub struct Started {
    pub conn: Connection,
    pub entered: ConnectionID,
    pub open: bool,
}

impl Connection {
    /// A connection that has just begun.
    fn new(env: &Env, id: i32, opening: Opening) -> (c: Self)
        ensures
            is_new(c, *env, id, opening),
    {
        Connection {
            inner: ConnInner::new(id, opening.tx, opening.tx_video),
            rights: Rights {
                keyboard: Self::permission(env, "enable-keyboard"),
                clipboard: Self::permission(env, "enable-clipboard"),
                audio: Self::permission(env, "enable-audio"),
                file: Self::permission(env, "enable-file-transfer"),
                restart: Self::permission(env, "enable-remote-restart"),
                recording: Self::permission(env, "enable-record-session"),
                block_input: Self::permission(env, "enable-block-input"),
            },
            wishes: Wishes {
                disable_keyboard: false,
                disable_clipboard: false,
                disable_audio: false,
                enable_file_transfer: false,
                lock_after_session_end: false,
                show_remote_cursor: false,
                follow_remote_cursor: false,
                follow_remote_window: false,
            },
            auth: Auth {
                hash: opening.hash,
                authorized: false,
                require_2fa: opening.require_2fa,
                from_switch: false,
                authed_conn_id: None,
                options_in_login: None,
                start_cm_ipc_para: true,
                linux_headless_handle: LinuxHeadlessHandle::new(env),
            },
            lr: LoginRequest {
                username: String::new(),
                password: Vec::new(),
                my_id: String::new(),
                my_name: String::new(),
                option: None,
                kind: LoginKind::Remote,
                video_ack_required: false,
                session_id: 0,
                version: PeerVersion {
                    number: 0,
                    multi_ui_session: false,
                    overwrite_detection: false,
                },
                os_login: None,
            },
            purpose: Purpose {
                file_transfer: None,
                delayed_read_dir: None,
                port_forward: false,
                port_forward_address: String::new(),
            },
            timing: Timing {
                last_recv_time: env.now,
                last_test_delay: None,
                network_delay: 0,
                delay_response_instant: env.now,
                auto_disconnect_timer: None,
            },
            media: Media {
                display_idx: env.primary_display,
                multi_ui_session: false,
                video_ack_required: false,
                last_supported_encoding: None,
                services_subed: false,
                audio_sender: false,
                voice_call_request_timestamp: None,
                audio_input_device_before_voice_call: None,
            },
            trace: Trace {
                ip: String::new(),
                server_audit_conn: String::new(),
                server_audit_file: String::new(),
                chat_unanswered: false,
                file_transferred: false,
                closed: false,
            },
            portable: PortableState::new(env.installed),
            read_jobs: Vec::new(),
            pressed_modifiers: Vec::new(),
            file_remove_log_control: FileRemoveLogControl::new(id, env.now),
            retina: Retina { displays: Vec::new() },
        }
    }

    /// Whether the address of the peer may connect; where not, the peer is told so and an alarm
    /// goes out.
    fn check_whitelist(&self, env: &Env, addr: &PeerAddr, out: &mut Vec<Action>) -> (
        admitted: bool)
        ensures
            admitted == whitelist_admits(env.config.option("whitelist"@), addr.ip),
            final(out)@ == if admitted {
                old(out)@
            } else {
                alarm_audit(
                    env.audit,
                    old(out)@.push(login_error(LoginError::IpBlocked)),
                    AlarmAuditType::IpWhitelist,
                    AlarmInfo::Ip { ip: addr.text },
                )
            },
    {
        let list = env.config.get_option("whitelist");
        if admits(list.as_str(), &addr.ip) {
            return true;
        }
        self.send_login_error(LoginError::IpBlocked, out);
        let info = AlarmInfo::Ip { ip: addr.text.clone() };
        Self::post_alarm_audit(&env.audit, AlarmAuditType::IpWhitelist, info, out);
        false
    }

    /// Learns where reports go.
    fn get_api_server(&mut self, env: &Env)
        ensures
            *final(self) == (Connection {
                trace: Trace {
                    server_audit_conn: env.audit.conn,
                    server_audit_file: env.audit.file,
                    ..old(self).trace
                },
                ..*old(self)
            }),
    {
        self.trace.server_audit_conn = env.audit.conn.clone();
        self.trace.server_audit_file = env.audit.file.clone();
    }

    /// Opens the connection to a peer at an address, unless it may not connect.
    fn on_open(&mut self, env: &Env, addr: &PeerAddr, out: &mut Vec<Action>) -> (open: bool)
        ensures
            open == (open_error(*env, *addr) is None),
            *final(self) == if open {
                opened(*old(self), *env, *addr)
            } else {
                *old(self)
            },
            final(out)@ == open_actions(*old(self), *env, old(out)@, *addr),
    {
        if !self.check_whitelist(env, addr, out) {
            return false;
        }
        if env.target.desktop() && env.is_server && env.config.is_set_to(
            "allow-only-conn-window-open",
            "Y",
        ) {
            if !env.main_window_open {
                self.send_login_error(LoginError::MainWindowNotOpen, out);
                return false;
            }
        }
        self.trace.ip = addr.text.clone();
        out.push(
            Action::Send(
                Message::Hash {
                    salt: self.auth.hash.salt.clone(),
                    challenge: self.auth.hash.challenge.clone(),
                },
            ),
        );
        self.get_api_server(env);
        self.post_conn_audit(ConnEvent::New { ip: addr.text.clone() }, out);
        true
    }

    /// Tells the peer of a permission that it does not have.
    fn tell_denied(&self, given: bool, permission: Permission, out: &mut Vec<Action>)
        ensures
            final(out)@ == denied(old(out)@, given, permission),
    {
        if !given {
            self.send_permission(permission, false, out);
        }
    }

    /// Prepares what an open connection needs.
    fn on_opened(&self, env: &Env, out: &mut Vec<Action>)
        ensures
            final(out)@ == run_actions(*self, *env, old(out)@),
    {
        add_if(out, env.target.os == Os::Android, Action::StartChannel);
        let r = self.rights;
        self.tell_denied(r.keyboard, Permission::Keyboard, out);
        self.tell_denied(r.clipboard, Permission::Clipboard, out);
        self.tell_denied(r.audio, Permission::Audio, out);
        self.tell_denied(r.file, Permission::File, out);
        self.tell_denied(r.restart, Permission::Restart, out);
        self.tell_denied(r.recording, Permission::Recording, out);
        self.tell_denied(r.block_input, Permission::BlockInput, out);
        let ms: u64 = if self.purpose.file_transfer.is_some() || self.purpose.port_forward {
            SEND_TIMEOUT_OTHER_MS
        } else {
            SEND_TIMEOUT_VIDEO_MS
        };
        out.push(Action::SetSendTimeout { ms });
        add_if(out, env.target.desktop(), Action::StartInputThread);
    }

    /// Starts a connection with a peer at an address. A peer that may not connect hears why, and
    /// the connection is closed.
    pub fn start(
        reg: &mut Registry,
        env: &Env,
        addr: &PeerAddr,
        id: i32,
        opening: Opening,
        out: &mut Vec<Action>,
    ) -> (started: Started)
        ensures
            started.entered.0 == id,
            started.open == (open_error(*env, *addr) is None),
            final(reg)@ == (RegistryView {
                alive_conns: old(reg)@.alive_conns.push(id),
                recv_times: old(reg)@.recv_times.insert(id, env.now),
                ..old(reg)@
            }),
            exists|c: Connection| #[trigger]
                is_new(c, *env, id, opening) && if started.open {
                    &&& started.conn == opened(c, *env, *addr)
                    &&& final(out)@ == run_actions(
                        started.conn,
                        *env,
                        open_actions(c, *env, old(out)@, *addr),
                    )
                } else {
                    &&& started.conn == (Connection {
                        trace: Trace { closed: true, ..c.trace },
                        ..c
                    })
                    &&& final(out)@ == open_actions(c, *env, old(out)@, *addr).push(
                        Action::Sleep { ms: 1_000 },
                    )
                },
    {
        let entered = ConnectionID::new(reg, id);
        reg.note_receipt(id, env.now);
        let mut conn = Self::new(env, id, opening);
        let ghost begun = conn;
        assert(is_new(begun, *env, id, opening));
        let open = conn.on_open(env, addr, out);
        if open {
            conn.on_opened(env, out);
        } else {
            conn.trace.closed = true;
            out.push(Action::Sleep { ms: CLOSE_PAUSE_MS });
        }
        Started { conn, entered, open }
    }
}

/// A peer whose address is not admitted gets no challenge, and so cannot show a password.
pub proof fn blocked_peer_gets_no_challenge(
    c: Connection,
    env: Env,
    out: Seq<Action>,
    addr: PeerAddr,
    hash: Message,
)
    requires
        !whitelist_admits(env.config.option("whitelist"@), addr.ip),
        hash is Hash,
        !out.contains(Action::Send(hash)),
    ensures
        !open_actions(c, env, out, addr).contains(Action::Send(hash)),
{
    let x = Action::Send(hash);
    let told = login_error(LoginError::IpBlocked);
    crate::action::lemma_push_if_contains(out, true, told, x);
    let alarm = Action::AlarmAudit(
        crate::audit::AlarmAudit {
            url: env.audit.alarm,
            typ: AlarmAuditType::IpWhitelist.number(),
            info: AlarmInfo::Ip { ip: addr.text },
        },
    );
    crate::action::lemma_push_if_contains(out.push(told), true, alarm, x);
}

} // verus!
