//! How a peer logs on.

use vstd::prelude::*;

use crate::action::{add_if, push_if, Action, CmData, CmLogin};
use crate::connection::{login_error, permitted, Auth, Connection, Media, Purpose, Scene};
use crate::env::{ApproveMode, Env};
use crate::failures::{
    attempt_noted, failure_of, may_try, minute_of, refusal_actions, Factor,
};
use crate::headless::DesktopLogin;
use crate::logon::{logon, LogonFacts};
use crate::message::{LoginError, LoginKind, LoginRequest};
use crate::registry::{Registry, RegistryView};
use crate::session::{
    is_recent, password_seen, second_factor_given, sessions_seen, shows_permanent,
    shows_temporary,
};
use crate::switch_sides::{take_switch_sides_uuid, token_right, token_taken};
use crate::target::Os;
use crate::text::{decimal_i32, decimal_of, same_text};

verus! {

/// How long a peer that may not come in is kept, in milliseconds, so that it reads why.
pub const REFUSAL_PAUSE_MS: u64 = 1_000;

/// What a request to log on needs next.
#[derive(Debug, PartialEq, Eq)]
pub enum LoginStep {
    /// Nothing; the connection goes on where it says so.
    Done(bool),
    /// A connection to the address whose port is forwarded.
    Connect,
    /// A desktop session.
    StartDesktop(DesktopLogin),
}

/// What came of starting a desktop session.
#[derive(Debug, PartialEq, Eq)]
pub enum DesktopStart {
    /// There is one, or none is needed.
    Ready,
    /// There is none yet.
    NotReady,
    Failed(String),
}

/// The connection with a request to log on that is not yet looked at.
pub open spec fn request_taken(c: Connection, lr: LoginRequest) -> Connection {
    Connection {
        lr,
        auth: Auth {
            options_in_login: if lr.option is Some {
                lr.option
            } else {
                c.auth.options_in_login
            },
            ..c.auth
        },
        media: Media { video_ack_required: lr.video_ack_required, ..c.media },
        ..c
    }
}

/// The peer asks for the remote desktop service of this machine.
pub open spec fn wants_rdp(kind: LoginKind) -> bool {
    kind matches LoginKind::PortForward { host, port } && host@ == "RDP"@ && port == 0
}

/// The address whose port is forwarded.
pub open spec fn forward_address(host: Seq<char>, port: i32) -> Seq<char> {
    if host == "RDP"@ && port == 0 {
        "localhost"@ + ":"@ + decimal_of(3389)
    } else if host.len() == 0 {
        "localhost"@ + ":"@ + decimal_of(port as int)
    } else {
        host + ":"@ + decimal_of(port as int)
    }
}

/// The request is for something that this machine does not give.
pub open spec fn purpose_error(c: Connection, env: Env) -> Option<LoginError> {
    match c.lr.kind {
        LoginKind::FileTransfer { .. } => if permitted(env, "enable-file-transfer"@) {
            None
        } else {
            Some(LoginError::NoFileTransferPermission)
        },
        LoginKind::PortForward { .. } => if permitted(env, "enable-tunnel"@) {
            None
        } else {
            Some(LoginError::NoTunnelPermission)
        },
        LoginKind::Remote => if env.in_privacy_mode {
            Some(LoginError::PrivacyModeOn)
        } else {
            None
        },
    }
}

/// What a request for something that this machine does not give is answered. A peer that wants
/// to control the machine is not kept.
pub open spec fn purpose_refused(c: Connection, out: Seq<Action>, error: LoginError) -> Seq<Action> {
    push_if(
        out.push(login_error(error)),
        !(c.lr.kind is Remote),
        Action::Sleep { ms: REFUSAL_PAUSE_MS },
    )
}

/// The connection once it is known what the peer wants.
pub open spec fn purpose_taken(c: Connection, address: String) -> Connection {
    match c.lr.kind {
        LoginKind::FileTransfer { dir, show_hidden } => Connection {
            purpose: Purpose { file_transfer: Some((dir, show_hidden)), ..c.purpose },
            ..c
        },
        LoginKind::PortForward { .. } => Connection {
            purpose: Purpose { port_forward_address: address, ..c.purpose },
            ..c
        },
        LoginKind::Remote => c,
    }
}

/// The connection and the actions once the task that talks to the connection manager is started.
pub open spec fn cm_ipc_started(s: Scene, env: Env) -> Scene {
    if env.target.is_desktop() && s.conn.auth.start_cm_ipc_para {
        Scene {
            conn: Connection {
                auth: Auth { start_cm_ipc_para: false, ..s.conn.auth },
                ..s.conn
            },
            out: s.out.push(Action::StartCmIpc),
            ..s
        }
    } else {
        s
    }
}

/// What the connection manager is told of a peer.
pub open spec fn cm_login(c: Connection, authorized: bool) -> Action {
    Action::ToCm(
        CmData::Login(
            CmLogin {
                id: c.inner.id,
                is_file_transfer: c.purpose.file_transfer is Some,
                port_forward: c.purpose.port_forward_address,
                peer_id: c.lr.my_id,
                name: c.lr.my_name,
                authorized,
                keyboard: c.rights.keyboard,
                clipboard: c.rights.clipboard,
                audio: c.rights.audio,
                file: c.rights.file,
                file_transfer_enabled: c.rights.file,
                restart: c.rights.restart,
                recording: c.rights.recording,
                block_input: c.rights.block_input,
                from_switch: c.auth.from_switch,
            },
        ),
    )
}

/// The peer is let in, and the connection manager is told.
pub open spec fn logon_and_tell(s: Scene, env: Env, facts: LogonFacts) -> Scene {
    let s = logon(s, env, facts);
    Scene { out: s.out.push(cm_login(s.conn, s.conn.auth.authorized)), ..s }
}

/// The peer is let in, once the desktop session is there where one is needed.
pub open spec fn wait_and_logon(s: Scene, env: Env, facts: LogonFacts) -> Scene {
    let out = if env.target.os == Os::Linux {
        s.conn.auth.linux_headless_handle.wait_actions(s.out)
    } else {
        s.out
    };
    logon_and_tell(Scene { out, ..s }, env, facts)
}

/// The scene with one more action.
pub open spec fn and_then(s: Scene, action: Action) -> Scene {
    Scene { out: s.out.push(action), ..s }
}

/// A password that the peer shows is looked at.
pub open spec fn password_shown(s: Scene, env: Env, facts: LogonFacts, ready: bool) -> Scene {
    let c = s.conn;
    let ip = c.trace.ip@;
    let failure = failure_of(s.reg, Factor::Password, ip);
    let time = minute_of(env.epoch_ms);
    if !may_try(failure, time) {
        Scene { out: refusal_actions(c, env, s.out, failure, time), ..s }
    } else if shows_temporary(c, env) || shows_permanent(c, env) {
        let reg = attempt_noted(
            password_seen(c, s.reg, env),
            Factor::Password,
            ip,
            failure,
            time,
            true,
        );
        let s = Scene { reg, ..s };
        if ready {
            wait_and_logon(s, env, facts)
        } else {
            and_then(s, login_error(LoginError::DesktopSessionNotReady))
        }
    } else {
        let reg = attempt_noted(s.reg, Factor::Password, ip, failure, time, false);
        let s = Scene { reg, ..s };
        if ready {
            and_then(
                and_then(s, login_error(LoginError::PasswordWrong)),
                cm_login(c, false),
            )
        } else {
            and_then(s, login_error(LoginError::DesktopSessionNotReadyPasswordWrong))
        }
    }
}

/// Peers are let in by the user of this machine alone.
pub open spec fn only_click(env: Env) -> bool {
    env.passwords.approve_mode == ApproveMode::Click || env.passwords.approve_mode
        == ApproveMode::Both && !env.passwords.has_valid_password
}

/// Peers are let in by a password alone, and there is none.
pub open spec fn never_let_in(env: Env) -> bool {
    env.passwords.approve_mode == ApproveMode::Password && !env.passwords.has_valid_password
}

/// The peer asks for another machine.
pub open spec fn wrong_machine(c: Connection, env: Env) -> bool {
    !env.username_is_address && c.lr.username@ != env.own_id@
}

/// What follows a request to log on when it is known whether there is a desktop session.
pub open spec fn desktop_known(
    s: Scene,
    env: Env,
    facts: LogonFacts,
    start: DesktopStart,
) -> (Scene, bool) {
    let c = s.conn;
    let ready = start is Ready;
    let seen = Scene { reg: sessions_seen(c, s.reg, env.now, false), ..s };
    if start is Failed {
        (and_then(s, login_error(LoginError::Other(start->Failed_0))), true)
    } else if wrong_machine(c, env) {
        (and_then(s, login_error(LoginError::Offline)), false)
    } else if only_click(env) {
        let told = and_then(s, cm_login(c, false));
        if c.lr.version.number >= env.version_1_2_0 {
            (and_then(told, login_error(LoginError::NoPasswordAccess)), true)
        } else {
            (told, true)
        }
    } else if never_let_in(env) {
        (and_then(s, login_error(LoginError::NotAllowed)), false)
    } else if is_recent(c, s.reg, env.now, false) {
        if ready {
            (wait_and_logon(seen, env, facts), true)
        } else {
            (and_then(seen, login_error(LoginError::DesktopSessionNotReady)), true)
        }
    } else if c.lr.password@.len() == 0 {
        if ready {
            (and_then(seen, cm_login(c, false)), true)
        } else {
            (
                and_then(seen, login_error(LoginError::DesktopSessionNotReadyPasswordEmpty)),
                true,
            )
        }
    } else {
        (password_shown(seen, env, facts, ready), true)
    }
}

/// What follows a request to log on when it is known what the peer wants and that it may have it.
pub open spec fn purpose_known(s: Scene, env: Env, facts: LogonFacts) -> (Scene, LoginStep) {
    let s = cm_ipc_started(s, env);
    let login = s.conn.auth.linux_headless_handle.desktop_login(s.conn.lr.os_login);
    if env.target.os == Os::Linux && login is Some {
        (s, LoginStep::StartDesktop(login->0))
    } else {
        let done = desktop_known(s, env, facts, DesktopStart::Ready);
        (done.0, LoginStep::Done(done.1))
    }
}

/// What follows when the address was to be reached whose port is forwarded.
pub open spec fn forward_known(
    s: Scene,
    env: Env,
    facts: LogonFacts,
    reached: bool,
) -> (Scene, LoginStep) {
    if reached {
        purpose_known(
            Scene {
                conn: Connection {
                    purpose: Purpose { port_forward: true, ..s.conn.purpose },
                    ..s.conn
                },
                ..s
            },
            env,
            facts,
        )
    } else if wants_rdp(s.conn.lr.kind) {
        (and_then(s, login_error(LoginError::RdpUnreachable)), LoginStep::Done(false))
    } else {
        (
            and_then(
                s,
                login_error(
                    LoginError::ForwardUnreachable { addr: s.conn.purpose.port_forward_address },
                ),
            ),
            LoginStep::Done(false),
        )
    }
}

/// What follows a request to log on. `address` is the text of the address whose port is
/// forwarded.
pub open spec fn login_requested(
    s: Scene,
    env: Env,
    facts: LogonFacts,
    lr: LoginRequest,
    address: String,
) -> (Scene, LoginStep) {
    let c = request_taken(s.conn, lr);
    let s = Scene { conn: c, ..s };
    if c.auth.authorized {
        (s, LoginStep::Done(true))
    } else if purpose_error(c, env) is Some {
        (
            Scene { out: purpose_refused(c, s.out, purpose_error(c, env)->0), ..s },
            LoginStep::Done(false),
        )
    } else if lr.kind is PortForward {
        (Scene { conn: purpose_taken(c, address), ..s }, LoginStep::Connect)
    } else {
        purpose_known(Scene { conn: purpose_taken(c, address), ..s }, env, facts)
    }
}

/// What follows a code for the second factor.
pub open spec fn second_factor_shown(
    s: Scene,
    env: Env,
    facts: LogonFacts,
    code: Seq<char>,
) -> Scene {
    let verdict = match s.conn.auth.require_2fa {
        Some(totp) => totp.verdict(code, env.epoch_secs),
        None => None,
    };
    second_factor_judged(s, env, facts, verdict)
}

/// What follows a code for the second factor that is right, wrong, or of which that is not known.
pub open spec fn second_factor_judged(
    s: Scene,
    env: Env,
    facts: LogonFacts,
    verdict: Option<bool>,
) -> Scene {
    let c = s.conn;
    let ip = c.trace.ip@;
    let failure = failure_of(s.reg, Factor::Second, ip);
    let time = minute_of(env.epoch_ms);
    if !may_try(failure, time) {
        Scene { out: refusal_actions(c, env, s.out, failure, time), ..s }
    } else {
        match verdict {
            Some(true) => {
                let s = logon_and_tell(
                    Scene {
                        conn: Connection { auth: Auth { require_2fa: None, ..c.auth }, ..c },
                        reg: attempt_noted(s.reg, Factor::Second, ip, failure, time, true),
                        ..s
                    },
                    env,
                    facts,
                );
                Scene { reg: second_factor_given(s.conn, s.reg), ..s }
            },
            Some(false) => and_then(
                Scene {
                    reg: attempt_noted(s.reg, Factor::Second, ip, failure, time, false),
                    ..s
                },
                login_error(LoginError::Wrong2fa),
            ),
            None => s,
        }
    }
}

/// What follows when a peer says that it swaps sides.
pub open spec fn sides_switched(
    s: Scene,
    env: Env,
    facts: LogonFacts,
    uuid: Seq<u8>,
    lr: Option<LoginRequest>,
) -> Scene {
    if env.target.flutter && lr is Some {
        let c = request_taken(s.conn, lr->0);
        let reg = token_taken(s.reg, env.now, c.lr.my_id@);
        if token_right(s.reg, env.now, c.lr.my_id@, uuid) {
            cm_ipc_started(
                logon_and_tell(
                    Scene {
                        conn: Connection { auth: Auth { from_switch: true, ..c.auth }, ..c },
                        reg,
                        ..s
                    },
                    env,
                    facts,
                ),
                env,
            )
        } else {
            Scene { conn: c, reg, ..s }
        }
    } else {
        s
    }
}

impl Connection {
    /// Takes a request to log on without looking at it.
    fn handle_login_request_without_validation(&mut self, lr: LoginRequest)
        ensures
            *final(self) == request_taken(*old(self), lr),
    {
        let options = match lr.option {
            Some(o) => Some(o),
            None => self.auth.options_in_login,
        };
        self.auth.options_in_login = options;
        self.media.video_ack_required = lr.video_ack_required;
        self.lr = lr;
    }

    /// Starts the task that talks to the connection manager, once.
    fn try_start_cm_ipc(&mut self, env: &Env, out: &mut Vec<Action>)
        ensures
            forall|reg: RegistryView|
                (Scene { conn: *final(self), reg, out: final(out)@ }) == #[trigger] cm_ipc_started(
                    Scene { conn: *old(self), reg, out: old(out)@ },
                    *env,
                ),
    {
        if env.target.desktop() && self.auth.start_cm_ipc_para {
            self.auth.start_cm_ipc_para = false;
            out.push(Action::StartCmIpc);
        }
    }

    /// Tells the connection manager of the peer.
    fn try_start_cm(&self, authorized: bool, out: &mut Vec<Action>)
        ensures
            final(out)@ == old(out)@.push(cm_login(*self, authorized)),
    {
        let login = CmLogin {
            id: self.inner.id,
            is_file_transfer: self.purpose.file_transfer.is_some(),
            port_forward: self.purpose.port_forward_address.clone(),
            peer_id: self.lr.my_id.clone(),
            name: self.lr.my_name.clone(),
            authorized,
            keyboard: self.rights.keyboard,
            clipboard: self.rights.clipboard,
            audio: self.rights.audio,
            file: self.rights.file,
            file_transfer_enabled: self.rights.file,
            restart: self.rights.restart,
            recording: self.rights.recording,
            block_input: self.rights.block_input,
            from_switch: self.auth.from_switch,
        };
        self.send_to_cm(CmData::Login(login), out);
    }

    /// Lets the peer in, and tells the connection manager.
    fn logon_and_tell_cm(
        &mut self,
        reg: &mut Registry,
        env: &Env,
        facts: LogonFacts,
        out: &mut Vec<Action>,
    )
        ensures
            (Scene { conn: *final(self), reg: final(reg)@, out: final(out)@ }) == logon_and_tell(
                Scene { conn: *old(self), reg: old(reg)@, out: old(out)@ },
                *env,
                facts,
            ),
    {
        self.send_logon_response(reg, env, facts, out);
        self.try_start_cm(self.auth.authorized, out);
    }

    /// Lets the peer in once the desktop session is there, and tells the connection manager.
    fn wait_and_logon(
        &mut self,
        reg: &mut Registry,
        env: &Env,
        facts: LogonFacts,
        out: &mut Vec<Action>,
    )
        ensures
            (Scene { conn: *final(self), reg: final(reg)@, out: final(out)@ }) == wait_and_logon(
                Scene { conn: *old(self), reg: old(reg)@, out: old(out)@ },
                *env,
                facts,
            ),
    {
        if env.target.os == Os::Linux {
            self.auth.linux_headless_handle.wait_desktop_cm_ready(out);
        }
        self.logon_and_tell_cm(reg, env, facts, out);
    }

    /// Looks at a password that the peer shows.
    fn check_password(
        &mut self,
        reg: &mut Registry,
        env: &Env,
        facts: LogonFacts,
        ready: bool,
        out: &mut Vec<Action>,
    )
        ensures
            (Scene { conn: *final(self), reg: final(reg)@, out: final(out)@ }) == password_shown(
                Scene { conn: *old(self), reg: old(reg)@, out: old(out)@ },
                *env,
                facts,
                ready,
            ),
    {
        let ((failure, time), allowed) = self.check_failure(reg, env, Factor::Password, out);
        if !allowed {
            return ;
        }
        if self.validate_password(reg, env) {
            self.update_failure(reg, failure, time, true, Factor::Password);
            if ready {
                self.wait_and_logon(reg, env, facts, out);
            } else {
                self.send_login_error(LoginError::DesktopSessionNotReady, out);
            }
        } else {
            self.update_failure(reg, failure, time, false, Factor::Password);
            if ready {
                self.send_login_error(LoginError::PasswordWrong, out);
                self.try_start_cm(false, out);
            } else {
                self.send_login_error(LoginError::DesktopSessionNotReadyPasswordWrong, out);
            }
        }
    }

    /// Goes on with a request to log on when it is known whether there is a desktop session.
    pub fn on_desktop_started(
        &mut self,
        reg: &mut Registry,
        env: &Env,
        facts: LogonFacts,
        start: DesktopStart,
        out: &mut Vec<Action>,
    ) -> (go_on: bool)
        ensures
            (Scene { conn: *final(self), reg: final(reg)@, out: final(out)@ }, go_on)
                == desktop_known(
                Scene { conn: *old(self), reg: old(reg)@, out: old(out)@ },
                *env,
                facts,
                start,
            ),
    {
        let ready = match start {
            DesktopStart::Failed(error) => {
                self.send_login_error(LoginError::Other(error), out);
                return true;
            },
            DesktopStart::Ready => true,
            DesktopStart::NotReady => false,
        };
        if !env.username_is_address && !same_text(
            self.lr.username.as_str(),
            env.own_id.as_str(),
        ) {
            self.send_login_error(LoginError::Offline, out);
            return false;
        }
        let mode = env.passwords.approve_mode;
        if mode == ApproveMode::Click || mode == ApproveMode::Both
            && !env.passwords.has_valid_password {
            self.try_start_cm(false, out);
            if self.lr.version.number >= env.version_1_2_0 {
                self.send_login_error(LoginError::NoPasswordAccess, out);
            }
            return true;
        }
        if mode == ApproveMode::Password && !env.passwords.has_valid_password {
            self.send_login_error(LoginError::NotAllowed, out);
            return false;
        }
        if self.is_recent_session(reg, env.now, false) {
            if ready {
                self.wait_and_logon(reg, env, facts, out);
            } else {
                self.send_login_error(LoginError::DesktopSessionNotReady, out);
            }
        } else if self.lr.password.len() == 0 {
            if ready {
                self.try_start_cm(false, out);
            } else {
                self.send_login_error(LoginError::DesktopSessionNotReadyPasswordEmpty, out);
            }
        } else {
            self.check_password(reg, env, facts, ready, out);
        }
        true
    }

    /// Goes on with a request to log on when it is known what the peer wants.
    fn on_purpose_known(
        &mut self,
        reg: &mut Registry,
        env: &Env,
        facts: LogonFacts,
        out: &mut Vec<Action>,
    ) -> (step: LoginStep)
        ensures
            (Scene { conn: *final(self), reg: final(reg)@, out: final(out)@ }, step)
                == purpose_known(
                Scene { conn: *old(self), reg: old(reg)@, out: old(out)@ },
                *env,
                facts,
            ),
    {
        let ghost before = Scene { conn: *self, reg: reg@, out: out@ };
        self.try_start_cm_ipc(env, out);
        assert((Scene { conn: *self, reg: reg@, out: out@ }) == cm_ipc_started(before, *env));
        if env.target.os == Os::Linux {
            let start = self.auth.linux_headless_handle.try_start_desktop(&self.lr.os_login);
            if let Some(login) = start {
                return LoginStep::StartDesktop(login);
            }
        }
        LoginStep::Done(self.on_desktop_started(reg, env, facts, DesktopStart::Ready, out))
    }

    /// Goes on with a request to log on when the address was to be reached whose port is
    /// forwarded.
    pub fn on_forward_connected(
        &mut self,
        reg: &mut Registry,
        env: &Env,
        facts: LogonFacts,
        reached: bool,
        out: &mut Vec<Action>,
    ) -> (step: LoginStep)
        ensures
            (Scene { conn: *final(self), reg: final(reg)@, out: final(out)@ }, step)
                == forward_known(
                Scene { conn: *old(self), reg: old(reg)@, out: old(out)@ },
                *env,
                facts,
                reached,
            ),
    {
        if reached {
            self.purpose.port_forward = true;
            return self.on_purpose_known(reg, env, facts, out);
        }
        let error = if Self::is_rdp(&self.lr.kind) {
            LoginError::RdpUnreachable
        } else {
            LoginError::ForwardUnreachable { addr: self.purpose.port_forward_address.clone() }
        };
        self.send_login_error(error, out);
        LoginStep::Done(false)
    }

    /// Whether the peer asks for the remote desktop service of this machine.
    fn is_rdp(kind: &LoginKind) -> (yes: bool)
        ensures
            yes == wants_rdp(*kind),
    {
        match kind {
            LoginKind::PortForward { host, port } => same_text(host.as_str(), "RDP") && *port == 0,
            _ => false,
        }
    }

    /// The address whose port is forwarded.
    fn forward_addr(host: &String, port: i32) -> (addr: String)
        ensures
            addr@ == forward_address(host@, port),
    {
        let rdp = same_text(host.as_str(), "RDP") && port == 0;
        let mut addr = if rdp || host.as_str().is_empty() {
            "localhost".to_owned()
        } else {
            host.clone()
        };
        let number = if rdp {
            decimal_i32(3389)
        } else {
            decimal_i32(port)
        };
        addr.append(":");
        addr.append(number.as_str());
        addr
    }

    /// Why this machine does not give what the request is for.
    fn purpose_problem(&self, env: &Env) -> (error: Option<LoginError>)
        ensures
            error == purpose_error(*self, *env),
    {
        match &self.lr.kind {
            LoginKind::FileTransfer { .. } => {
                if Self::permission(env, "enable-file-transfer") {
                    None
                } else {
                    Some(LoginError::NoFileTransferPermission)
                }
            },
            LoginKind::PortForward { .. } => {
                if Self::permission(env, "enable-tunnel") {
                    None
                } else {
                    Some(LoginError::NoTunnelPermission)
                }
            },
            LoginKind::Remote => {
                if env.in_privacy_mode {
                    Some(LoginError::PrivacyModeOn)
                } else {
                    None
                }
            },
        }
    }

    /// Takes a request to log on as far as it goes without help from outside.
    pub fn on_login_request(
        &mut self,
        reg: &mut Registry,
        env: &Env,
        facts: LogonFacts,
        lr: LoginRequest,
        out: &mut Vec<Action>,
    ) -> (step: LoginStep)
        ensures
            exists|address: String|
                #![trigger login_requested(
                    Scene { conn: *old(self), reg: old(reg)@, out: old(out)@ },
                    *env,
                    facts,
                    lr,
                    address,
                )]
                (lr.kind matches LoginKind::PortForward { host, port } ==> address@
                    == forward_address(host@, port)) && (
                    Scene { conn: *final(self), reg: final(reg)@, out: final(out)@ },
                    step,
                ) == login_requested(
                    Scene { conn: *old(self), reg: old(reg)@, out: old(out)@ },
                    *env,
                    facts,
                    lr,
                    address,
                ),
    {
        let ghost before = Scene { conn: *self, reg: reg@, out: out@ };
        let address = match &lr.kind {
            LoginKind::PortForward { host, port } => Self::forward_addr(host, *port),
            _ => String::new(),
        };
        let ghost spec_address = address;
        self.handle_login_request_without_validation(lr);
        if self.auth.authorized {
            assert((Scene { conn: *self, reg: reg@, out: out@ }, LoginStep::Done(true))
                == login_requested(before, *env, facts, lr, spec_address));
            return LoginStep::Done(true);
        }
        if let Some(error) = self.purpose_problem(env) {
            let remote = match &self.lr.kind {
                LoginKind::Remote => true,
                _ => false,
            };
            self.send_login_error(error, out);
            add_if(out, !remote, Action::Sleep { ms: REFUSAL_PAUSE_MS });
            assert((Scene { conn: *self, reg: reg@, out: out@ }, LoginStep::Done(false))
                == login_requested(before, *env, facts, lr, spec_address));
            return LoginStep::Done(false);
        }
        let forward = match &self.lr.kind {
            LoginKind::PortForward { .. } => true,
            _ => false,
        };
        if forward {
            self.purpose.port_forward_address = address;
            assert((Scene { conn: *self, reg: reg@, out: out@ }, LoginStep::Connect)
                == login_requested(before, *env, facts, lr, spec_address));
            return LoginStep::Connect;
        }
        let dir = match &self.lr.kind {
            LoginKind::FileTransfer { dir, show_hidden } => Some((dir.clone(), *show_hidden)),
            _ => None,
        };
        if dir.is_some() {
            self.purpose.file_transfer = dir;
        }
        let step = self.on_purpose_known(reg, env, facts, out);
        assert((Scene { conn: *self, reg: reg@, out: out@ }, step) == login_requested(
            before,
            *env,
            facts,
            lr,
            spec_address,
        ));
        step
    }

    /// Takes up that the code for the second factor is right, wrong, or that this is not known. An
    /// address with too many wrong codes is refused whatever the code is.
    pub fn on_second_factor(
        &mut self,
        reg: &mut Registry,
        env: &Env,
        facts: LogonFacts,
        verdict: Option<bool>,
        out: &mut Vec<Action>,
    )
        ensures
            (Scene { conn: *final(self), reg: final(reg)@, out: final(out)@ })
                == second_factor_judged(
                Scene { conn: *old(self), reg: old(reg)@, out: old(out)@ },
                *env,
                facts,
                verdict,
            ),
    {
        let ((failure, time), allowed) = self.check_failure(reg, env, Factor::Second, out);
        if !allowed {
            return ;
        }
        match verdict {
            Some(true) => {
                self.update_failure(reg, failure, time, true, Factor::Second);
                self.auth.require_2fa = None;
                self.logon_and_tell_cm(reg, env, facts, out);
                self.note_second_factor(reg);
            },
            Some(false) => {
                self.update_failure(reg, failure, time, false, Factor::Second);
                self.send_login_error(LoginError::Wrong2fa, out);
            },
            None => {},
        }
    }

    /// Takes a code for the second factor.
    pub fn on_auth_2fa(
        &mut self,
        reg: &mut Registry,
        env: &Env,
        facts: LogonFacts,
        code: &String,
        out: &mut Vec<Action>,
    )
        ensures
            (Scene { conn: *final(self), reg: final(reg)@, out: final(out)@ })
                == second_factor_shown(
                Scene { conn: *old(self), reg: old(reg)@, out: old(out)@ },
                *env,
                facts,
                code@,
            ),
    {
        let verdict = match &self.auth.require_2fa {
            Some(totp) => totp.check_current(code.as_str(), env.epoch_secs),
            None => None,
        };
        self.on_second_factor(reg, env, facts, verdict, out);
    }

    /// Takes up that the peer swaps sides.
    pub fn on_switch_sides(
        &mut self,
        reg: &mut Registry,
        env: &Env,
        facts: LogonFacts,
        uuid: &Vec<u8>,
        lr: Option<LoginRequest>,
        out: &mut Vec<Action>,
    )
        ensures
            (Scene { conn: *final(self), reg: final(reg)@, out: final(out)@ }) == sides_switched(
                Scene { conn: *old(self), reg: old(reg)@, out: old(out)@ },
                *env,
                facts,
                uuid@,
                lr,
            ),
    {
        if !env.target.flutter {
            return ;
        }
        let lr = match lr {
            Some(lr) => lr,
            None => {
                return ;
            },
        };
        self.handle_login_request_without_validation(lr);
        if take_switch_sides_uuid(reg, env.now, &self.lr.my_id, uuid) {
            self.auth.from_switch = true;
            self.logon_and_tell_cm(reg, env, facts, out);
            let ghost before = Scene { conn: *self, reg: reg@, out: out@ };
            self.try_start_cm_ipc(env, out);
            assert((Scene { conn: *self, reg: reg@, out: out@ }) == cm_ipc_started(before, *env));
        }
    }
}

} // verus!
