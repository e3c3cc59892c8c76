//! A connection with a peer.

use vstd::prelude::*;

use crate::action::{Action, CmData, Fs};
use crate::audit::{AlarmAudit, AlarmAuditType, AlarmInfo, ConnAudit, ConnEvent};
use crate::env::{AuditUrls, Env};
use crate::headless::LinuxHeadlessHandle;
use crate::message::{
    BlockInputState, Details, LoginError, LoginRequest, LoginResponse, Message, OptionMessage,
    Permission, Sender, SupportedEncoding,
};
use crate::password::LoginHash;
use crate::portable::PortableState;
use crate::registry::{AuthedConnID, Registry, RegistryView};
use crate::removal_log::FileRemoveLogControl;
use crate::retina::Retina;
use crate::totp::Totp;

verus! {

/// The number of a connection and the channels to the task that writes to the peer.
#[derive(Clone, Copy, Debug, PartialEq, Eq)]
pub struct ConnInner {
    pub id: i32,
    pub tx: Option<Sender>,
    pub tx_video: Option<Sender>,
}

impl ConnInner {
    /// A connection with its channels.
    pub fn new(id: i32, tx: Option<Sender>, tx_video: Option<Sender>) -> (inner: Self)
        ensures
            inner == (ConnInner { id, tx, tx_video }),
    {
        ConnInner { id, tx, tx_video }
    }

    /// The channel that a message goes through. A change of display goes through the channel of
    /// the pictures, so that it keeps its place among them.
    pub open spec fn channel(self, message: Message) -> Option<Sender> {
        if message is VideoFrame || message is SwitchDisplay {
            self.tx_video
        } else {
            self.tx
        }
    }

    /// What sending a message through its channel asks for.
    pub open spec fn queued(self, out: Seq<Action>, message: Message) -> Seq<Action> {
        match self.channel(message) {
            Some(channel) => out.push(Action::Queue { channel, message }),
            None => out,
        }
    }

    /// Sends a message through its channel, if there is one.
    pub fn send(&self, message: Message, out: &mut Vec<Action>)
        ensures
            final(out)@ == self.queued(old(out)@, message),
    {
        let tx_by_video = match &message {
            Message::VideoFrame(_) => true,
            Message::SwitchDisplay(_) => true,
            _ => false,
        };
        let channel = if tx_by_video {
            self.tx_video
        } else {
            self.tx
        };
        match channel {
            Some(channel) => out.push(Action::Queue { channel, message }),
            None => {},
        }
    }
}

/// What the user of this machine lets the peer do.
#[derive(Clone, Copy, Debug, PartialEq, Eq)]
pub struct Rights {
    pub keyboard: bool,
    pub clipboard: bool,
    pub audio: bool,
    pub file: bool,
    pub restart: bool,
    pub recording: bool,
    pub block_input: bool,
}

/// What the peer wants of what it may do.
#[derive(Clone, Copy, Debug, PartialEq, Eq)]
pub struct Wishes {
    pub disable_keyboard: bool,
    pub disable_clipboard: bool,
    pub disable_audio: bool,
    pub enable_file_transfer: bool,
    pub lock_after_session_end: bool,
    pub show_remote_cursor: bool,
    pub follow_remote_cursor: bool,
    pub follow_remote_window: bool,
}

/// How far the peer has got in logging on.
pub struct Auth {
    pub hash: LoginHash,
    pub authorized: bool,
    pub require_2fa: Option<Totp>,
    /// The peer has shown a token for swapping sides.
    pub from_switch: bool,
    pub authed_conn_id: Option<AuthedConnID>,
    pub options_in_login: Option<OptionMessage>,
    /// The task that talks to the connection manager is still to be started.
    pub start_cm_ipc_para: bool,
    pub linux_headless_handle: LinuxHeadlessHandle,
}

/// What the connection is for.
pub struct Purpose {
    /// The directory that the peer transfers files of, and whether hidden files count.
    pub file_transfer: Option<(String, bool)>,
    /// The directory to be read once the peer has chosen a session.
    pub delayed_read_dir: Option<(Option<String>, bool)>,
    /// The connection forwards a port, and the other end of that is open.
    pub port_forward: bool,
    pub port_forward_address: String,
}

/// When things happened.
#[derive(Clone, Copy, Debug, PartialEq, Eq)]
pub struct Timing {
    /// When something was last received.
    pub last_recv_time: u64,
    /// When the delay probe was sent that is not yet answered.
    pub last_test_delay: Option<u64>,
    pub network_delay: u32,
    /// When the peer last answered a delay probe.
    pub delay_response_instant: u64,
    /// When the peer last did something, and after how many minutes without that it is cut off.
    pub auto_disconnect_timer: Option<(u64, u64)>,
}

/// Pictures and sound.
pub struct Media {
    pub display_idx: usize,
    pub multi_ui_session: bool,
    pub video_ack_required: bool,
    pub last_supported_encoding: Option<SupportedEncoding>,
    pub services_subed: bool,
    /// The thread that plays the peer's sound is there.
    pub audio_sender: bool,
    pub voice_call_request_timestamp: Option<i64>,
    pub audio_input_device_before_voice_call: Option<String>,
}

/// What is told to others about the connection.
pub struct Trace {
    pub ip: String,
    pub server_audit_conn: String,
    pub server_audit_file: String,
    pub chat_unanswered: bool,
    pub file_transferred: bool,
    pub closed: bool,
}

/// A connection with a peer.
pub struct Connection {
    pub inner: ConnInner,
    pub rights: Rights,
    pub wishes: Wishes,
    pub auth: Auth,
    /// The last request to log on.
    pub lr: LoginRequest,
    pub purpose: Purpose,
    pub timing: Timing,
    pub media: Media,
    pub trace: Trace,
    pub portable: PortableState,
    /// The transfers to the peer that are under way.
    pub read_jobs: Vec<i32>,
    /// Modifier keys that the peer presses.
    pub pressed_modifiers: Vec<u32>,
    pub file_remove_log_control: FileRemoveLogControl,
    pub retina: Retina,
}

/// A connection, what the connections share, and what was asked for so far.
pub struct Scene {
    pub conn: Connection,
    pub reg: RegistryView,
    pub out: Seq<Action>,
}

/// The message that tells a peer why it may not log on.
pub open spec fn login_error(error: LoginError) -> Action {
    Action::Send(Message::LoginResponse(LoginResponse::Error(error)))
}

/// The permission named `name` is given.
pub open spec fn permitted(env: Env, name: Seq<char>) -> bool {
    let mode = env.config.option("access-mode"@);
    if env.target.flutter && env.target.is_desktop() && mode == "full"@ {
        true
    } else if env.target.flutter && env.target.is_desktop() && mode == "view"@ {
        false
    } else {
        env.config.option(name).len() == 0
    }
}

/// The report on a connection, where reports are wanted.
pub open spec fn conn_audit(c: Connection, out: Seq<Action>, event: ConnEvent) -> Seq<Action> {
    if c.trace.server_audit_conn@.len() == 0 {
        out
    } else {
        out.push(
            Action::ConnAudit(
                ConnAudit {
                    url: c.trace.server_audit_conn,
                    event,
                    conn_id: c.inner.id,
                    session_id: c.lr.session_id,
                },
            ),
        )
    }
}

/// The report on an alarm, where reports are wanted.
pub open spec fn alarm_audit(
    urls: AuditUrls,
    out: Seq<Action>,
    typ: AlarmAuditType,
    info: AlarmInfo,
) -> Seq<Action> {
    if urls.alarm@.len() == 0 {
        out
    } else {
        out.push(Action::AlarmAudit(AlarmAudit { url: urls.alarm, typ: typ.number(), info }))
    }
}

impl Connection {
    /// The peer may use the keyboard and the mouse, and wants to.
    pub open spec fn keyboard_on(self) -> bool {
        self.rights.keyboard && !self.wishes.disable_keyboard
    }

    /// The peer may use the clipboard, and wants to.
    pub open spec fn clipboard_on(self) -> bool {
        self.rights.clipboard && !self.wishes.disable_clipboard
    }

    /// The peer may hear the sound, and wants to.
    pub open spec fn audio_on(self) -> bool {
        self.rights.audio && !self.wishes.disable_audio
    }

    /// The peer may copy files through the clipboard, and wants to.
    pub open spec fn file_copy_on(self) -> bool {
        self.rights.file && self.wishes.enable_file_transfer
    }

    /// The connection is for control of this machine.
    pub open spec fn is_remote(self) -> bool {
        self.purpose.file_transfer is None && !self.purpose.port_forward
    }

    /// Whether the peer may use the keyboard and the mouse, and wants to.
    pub fn peer_keyboard_enabled(&self) -> (yes: bool)
        ensures
            yes == self.keyboard_on(),
    {
        self.rights.keyboard && !self.wishes.disable_keyboard
    }

    /// Whether the peer may use the clipboard, and wants to.
    pub fn clipboard_enabled(&self) -> (yes: bool)
        ensures
            yes == self.clipboard_on(),
    {
        self.rights.clipboard && !self.wishes.disable_clipboard
    }

    /// Whether the peer may hear the sound, and wants to.
    pub fn audio_enabled(&self) -> (yes: bool)
        ensures
            yes == self.audio_on(),
    {
        self.rights.audio && !self.wishes.disable_audio
    }

    /// Whether the peer may copy files through the clipboard, and wants to.
    pub fn file_transfer_enabled(&self) -> (yes: bool)
        ensures
            yes == self.file_copy_on(),
    {
        self.rights.file && self.wishes.enable_file_transfer
    }

    /// Whether the user of this machine gives the permission named `name`.
    pub fn permission(env: &Env, name: &str) -> (given: bool)
        ensures
            given == permitted(*env, name@),
    {
        if env.target.flutter && env.target.desktop() {
            if env.config.is_set_to("access-mode", "full") {
                return true;
            } else if env.config.is_set_to("access-mode", "view") {
                return false;
            }
        }
        env.config.is_unset(name)
    }

    /// Tells the peer of a permission.
    pub(crate) fn send_permission(
        &self,
        permission: Permission,
        enabled: bool,
        out: &mut Vec<Action>,
    )
        ensures
            final(out)@ == old(out)@.push(Action::Send(Message::Permission { permission, enabled })),
    {
        out.push(Action::Send(Message::Permission { permission, enabled }));
    }

    /// Tells the peer why it may not log on.
    pub(crate) fn send_login_error(&self, error: LoginError, out: &mut Vec<Action>)
        ensures
            final(out)@ == old(out)@.push(login_error(error)),
    {
        out.push(Action::Send(Message::LoginResponse(LoginResponse::Error(error))));
    }

    /// Tells the connection manager something.
    pub(crate) fn send_to_cm(&self, data: CmData, out: &mut Vec<Action>)
        ensures
            final(out)@ == old(out)@.push(Action::ToCm(data)),
    {
        out.push(Action::ToCm(data));
    }

    /// Hands a request on files to the connection manager.
    pub(crate) fn send_fs(&self, request: Fs, out: &mut Vec<Action>)
        ensures
            final(out)@ == old(out)@.push(Action::ToCm(CmData::Fs(request))),
    {
        self.send_to_cm(CmData::Fs(request), out);
    }

    /// Asks for the entries of a directory.
    pub(crate) fn read_dir(&self, dir: Option<String>, include_hidden: bool, out: &mut Vec<Action>)
        ensures
            final(out)@ == old(out)@.push(
                Action::ToCm(CmData::Fs(Fs::ReadDir { dir, include_hidden })),
            ),
    {
        self.send_fs(Fs::ReadDir { dir, include_hidden }, out);
    }

    /// Tells a peer, through the channel `s`, that input could not be blocked or freed.
    pub fn send_block_input_error(
        s: &Sender,
        state: BlockInputState,
        details: Details,
        out: &mut Vec<Action>,
    )
        ensures
            final(out)@ == old(out)@.push(
                Action::Queue { channel: *s, message: Message::BlockInput { state, details } },
            ),
    {
        out.push(Action::Queue { channel: *s, message: Message::BlockInput { state, details } });
    }

    /// Reports on the connection.
    pub(crate) fn post_conn_audit(&self, event: ConnEvent, out: &mut Vec<Action>)
        ensures
            final(out)@ == conn_audit(*self, old(out)@, event),
    {
        if self.trace.server_audit_conn.as_str().is_empty() {
            return ;
        }
        out.push(
            Action::ConnAudit(
                ConnAudit {
                    url: self.trace.server_audit_conn.clone(),
                    event,
                    conn_id: self.inner.id,
                    session_id: self.lr.session_id,
                },
            ),
        );
    }

    /// Reports an alarm.
    pub fn post_alarm_audit(
        urls: &AuditUrls,
        typ: AlarmAuditType,
        info: AlarmInfo,
        out: &mut Vec<Action>,
    )
        ensures
            final(out)@ == alarm_audit(*urls, old(out)@, typ, info),
    {
        if urls.alarm.as_str().is_empty() {
            return ;
        }
        out.push(
            Action::AlarmAudit(AlarmAudit { url: urls.alarm.clone(), typ: typ.code(), info }),
        );
    }

    /// All connections that are there, authorised or not.
    pub fn alive_conns(reg: &Registry) -> (conns: Vec<i32>)
        ensures
            conns@ == reg@.alive_conns,
    {
        let conns = reg.alive_conns.clone();
        assert(conns@ =~= reg@.alive_conns);
        conns
    }

    /// Starts the time without input anew.
    pub(crate) fn update_auto_disconnect_timer(&mut self, now: u64)
        ensures
            *final(self) == touched(*old(self), now),
    {
        self.timing.auto_disconnect_timer = match self.timing.auto_disconnect_timer {
            Some((_, minutes)) => Some((now, minutes)),
            None => None,
        };
    }
}

/// The connection when its peer does something at `now`.
pub open spec fn touched(c: Connection, now: u64) -> Connection {
    Connection {
        timing: Timing {
            auto_disconnect_timer: match c.timing.auto_disconnect_timer {
                Some((_, minutes)) => Some((now, minutes)),
                None => None,
            },
            ..c.timing
        },
        ..c
    }
}

/// Pictures and changes of display go through the channel of the pictures, and everything else
/// through the other one; without its channel a message is not sent.
pub proof fn pictures_have_their_channel(inner: ConnInner, out: Seq<Action>, message: Message)
    ensures
        ({
            let pictures = message is VideoFrame || message is SwitchDisplay;
            &&& pictures ==> (inner.tx_video matches Some(channel) ==> inner.queued(out, message)
                == out.push(Action::Queue { channel, message }))
            &&& pictures && inner.tx_video is None ==> inner.queued(out, message) == out
            &&& !pictures ==> (inner.tx matches Some(channel) ==> inner.queued(out, message)
                == out.push(Action::Queue { channel, message }))
            &&& !pictures && inner.tx is None ==> inner.queued(out, message) == out
        }),
{
}

} // verus!
