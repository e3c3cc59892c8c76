//! What follows when a peer is let in.

use vstd::prelude::*;

use crate::action::{add_if, push_if, Action, CmData, EncoderUpdate, Fs, NoPermissions};
use crate::audit::ConnEvent;
use crate::connection::{conn_audit, login_error, Auth, Connection, Media, Purpose, Scene, Timing};
use crate::env::Env;
use crate::message::{
    Handle, LoginError, LoginResponse, Message, PeerInfo, PlatformAdditions, SupportedEncoding,
};
use crate::options::{options_actions, options_set};
use crate::registry::{
    authed_new_actions, remote_and_file_conns, AuthConnType, AuthedConnID, Registry, RegistryView,
};
use crate::retina::{DisplayInfo, Retina};
use crate::session::{is_recent, sessions_seen};
use crate::target::Os;
use crate::text::{number_u64, parse_u64};

verus! {

/// What draws the screen on Linux.
#[derive(Debug, PartialEq, Eq)]
pub enum DisplayServer {
    X11,
    Wayland,
    Other(String),
}

/// The displays of this machine when a peer is let in.
#[derive(Debug)]
pub enum Displays {
    /// The displays as the peer gets them, and their places and sizes.
    Found { list: Handle, infos: Vec<DisplayInfo> },
    Failed(String),
}

/// What this machine tells a peer that is let in.
#[derive(Debug)]
pub struct LogonFacts {
    pub username: String,
    pub hostname: String,
    pub platform: String,
    pub wayland: bool,
    /// What a peer is told of virtual displays.
    pub virtual_displays: Handle,
    /// The kinds of privacy mode that this machine has.
    pub privacy_impls: Handle,
    pub login_screen_wayland: bool,
    pub display_server: DisplayServer,
    /// The sessions of the operating system, with their names.
    pub windows_sessions: Handle,
    pub supported_encoding: SupportedEncoding,
    /// A message on displays that are not ready.
    pub inited: Option<Handle>,
    /// The resolutions that the current display can have.
    pub resolutions: Handle,
    pub displays: Displays,
    pub x11: bool,
}

/// What a connection is for, and the number of that in reports.
pub open spec fn conn_kind(c: Connection) -> (i32, AuthConnType) {
    if c.purpose.file_transfer is Some {
        (1, AuthConnType::FileTransfer)
    } else if c.purpose.port_forward {
        (2, AuthConnType::PortForward)
    } else {
        (0, AuthConnType::Remote)
    }
}

/// What the peer is told about the system.
pub open spec fn additions(env: Env, facts: LogonFacts) -> PlatformAdditions {
    let windows = env.target.os == Os::Windows;
    let linux = env.target.os == Os::Linux;
    PlatformAdditions {
        is_wayland: linux && facts.wayland,
        headless: linux && env.headless_allowed && env.headless,
        is_installed: if windows {
            Some(env.installed)
        } else {
            None
        },
        virtual_displays: if windows && env.installed {
            Some(facts.virtual_displays)
        } else {
            None
        },
        supported_privacy_mode_impl: if windows {
            Some(facts.privacy_impls)
        } else {
            None
        },
        has_file_clipboard: env.target.has_file_clipboard(),
    }
}

/// What every peer that is let in is told.
pub open spec fn basic_info(env: Env, facts: LogonFacts) -> PeerInfo {
    PeerInfo {
        username: Some(facts.username),
        hostname: facts.hostname,
        platform: facts.platform,
        platform_additions: additions(env, facts),
        sas_enabled: false,
        privacy_mode: None,
        encoding: None,
        resolutions: None,
        displays: None,
        current_display: 0,
        windows_sessions: None,
    }
}

/// The peer has to choose a session of the operating system first.
pub open spec fn must_choose_session(c: Connection, reg: RegistryView, env: Env) -> bool {
    &&& env.target.os == Os::Windows
    &&& env.current_sid matches Some(sid) && env.sessions@.contains(sid)
    &&& env.installed
    &&& env.share_rdp
    &&& remote_and_file_conns(reg.authed_conns).len() == 1
    &&& env.sessions@.len() > 1
    &&& c.lr.version.number >= env.version_1_2_4
}

/// What a peer that transfers files or controls this machine is told besides.
pub open spec fn full_info(
    c: Connection,
    reg: RegistryView,
    env: Env,
    facts: LogonFacts,
) -> PeerInfo {
    PeerInfo {
        username: if c.purpose.file_transfer is Some && env.target.is_desktop() && (env.prelogin
            || !env.cm_alive) {
            None
        } else {
            Some(facts.username)
        },
        sas_enabled: env.target.os == Os::Windows && env.root,
        privacy_mode: Some(env.privacy_mode_supported),
        windows_sessions: if must_choose_session(c, reg, env) {
            Some((facts.windows_sessions, env.current_sid->0))
        } else {
            None
        },
        ..basic_info(env, facts)
    }
}

/// What a peer that controls this machine is told.
pub open spec fn remote_info(
    c: Connection,
    reg: RegistryView,
    env: Env,
    facts: LogonFacts,
    list: Handle,
) -> PeerInfo {
    PeerInfo {
        encoding: Some(facts.supported_encoding),
        resolutions: if env.target.is_desktop() {
            Some(facts.resolutions)
        } else {
            None
        },
        displays: Some(list),
        current_display: c.media.display_idx,
        ..full_info(c, reg, env, facts)
    }
}

/// The answer to a peer's request to log on.
pub open spec fn answer(response: LoginResponse) -> Action {
    Action::Send(Message::LoginResponse(response))
}

/// Why a peer cannot control a Linux machine as it is.
pub open spec fn display_server_error(facts: LogonFacts) -> Option<LoginError> {
    if facts.login_screen_wayland {
        Some(LoginError::LoginScreenWayland)
    } else {
        match facts.display_server {
            DisplayServer::Other(kind) => Some(LoginError::UnsupportedDisplayServer { kind }),
            _ => None,
        }
    }
}

/// How long the peer may do nothing: since when it counts, and how many minutes.
pub open spec fn disconnect_timer(env: Env) -> Option<(u64, u64)> {
    if env.config.option("allow-auto-disconnect"@) == "Y"@ {
        let minutes = match number_u64(env.config.option("auto-disconnect-timeout"@)) {
            Some(minutes) => if minutes == 0 {
                10
            } else {
                minutes
            },
            None => 10,
        };
        Some((env.now, minutes))
    } else {
        None
    }
}

/// Services that the connection is not to be subscribed to.
pub open spec fn noperms(c: Connection) -> NoPermissions {
    NoPermissions {
        cursor: !c.keyboard_on() && !c.wishes.show_remote_cursor,
        cursor_position: !c.wishes.show_remote_cursor,
        window_focus: !c.wishes.follow_remote_window,
        clipboard: !c.clipboard_on() || !c.keyboard_on(),
        audio: !c.audio_on(),
    }
}

/// The connection once the services were subscribed to.
pub open spec fn subscribed(c: Connection, env: Env) -> Connection {
    if c.is_remote() && !c.media.services_subed {
        Connection {
            media: Media { services_subed: true, ..c.media },
            timing: Timing {
                auto_disconnect_timer: if env.server_alive {
                    disconnect_timer(env)
                } else {
                    c.timing.auto_disconnect_timer
                },
                ..c.timing
            },
            ..c
        }
    } else {
        c
    }
}

/// What subscribing to the services asks for.
pub open spec fn subscribe_actions(c: Connection, env: Env, out: Seq<Action>) -> Seq<Action> {
    push_if(
        out,
        c.is_remote() && !c.media.services_subed && env.server_alive,
        Action::AddConnection { noperms: noperms(c) },
    )
}

/// What the encoder is told of a new viewer.
pub open spec fn codec_on_login(c: Connection) -> EncoderUpdate {
    match c.lr.option {
        Some(o) => match o.supported_decoding {
            Some(decoding) => EncoderUpdate::Update(decoding),
            None => EncoderUpdate::NewOnlyVp9,
        },
        None => EncoderUpdate::NewOnlyVp9,
    }
}

/// What a peer that controls this machine brings about at once.
pub open spec fn remote_authorized_actions(
    c: Connection,
    reg: RegistryView,
    env: Env,
    out: Seq<Action>,
) -> Seq<Action> {
    push_if(
        out.push(Action::Encoder { id: c.inner.id, update: codec_on_login(c) }),
        (env.target.os == Os::Windows || env.target.os == Os::Linux) && env.config.option(
            "allow-remove-wallpaper"@,
        ).len() > 0 && !reg.wallpaper_remover,
        Action::RemoveWallpaper,
    )
}

/// The connection without the options that came with the request to log on.
pub open spec fn options_taken(c: Connection) -> Connection {
    Connection { auth: Auth { options_in_login: None, ..c.auth }, ..c }
}

/// The connection once the options that came with the request to log on are taken up.
pub open spec fn login_options_set(c: Connection, env: Env) -> Connection {
    match c.auth.options_in_login {
        Some(o) => options_set(options_taken(c), o, env.target),
        None => c,
    }
}

/// What the options that came with the request to log on ask for.
pub open spec fn login_options_actions(c: Connection, env: Env, out: Seq<Action>) -> Seq<Action> {
    match c.auth.options_in_login {
        Some(o) => options_actions(options_taken(c), env, out, o),
        None => out,
    }
}

/// The second factor is still owed.
pub open spec fn owes_second_factor(c: Connection, reg: RegistryView, now: u64) -> bool {
    c.auth.require_2fa is Some && !is_recent(c, reg, now, true) && !c.auth.from_switch
}

/// The registry when it was looked whether the second factor is owed.
pub open spec fn second_factor_seen(c: Connection, reg: RegistryView, now: u64) -> RegistryView {
    if c.auth.require_2fa is Some {
        sessions_seen(c, reg, now, true)
    } else {
        reg
    }
}

/// A peer that owes nothing more is authorised.
pub open spec fn authorized(s: Scene) -> Scene {
    let kind = conn_kind(s.conn);
    let conn = Connection {
        auth: Auth {
            authorized: true,
            authed_conn_id: Some(AuthedConnID(s.conn.inner.id, kind.1)),
            ..s.conn.auth
        },
        ..s.conn
    };
    Scene {
        conn,
        reg: RegistryView {
            authed_conns: s.reg.authed_conns.push((conn.inner.id, kind.1)),
            shutdown_hook: true,
            ..s.reg
        },
        out: conn_audit(
            conn,
            s.out + authed_new_actions(s.reg, conn.inner.id, kind.1),
            ConnEvent::Authorized {
                peer_id: conn.lr.my_id,
                peer_name: conn.lr.my_name,
                kind: kind.0,
            },
        ),
    }
}

/// The registry when plugins can block the input of the peer.
pub open spec fn plugin_input_noted(c: Connection, reg: RegistryView, env: Env) -> RegistryView {
    if env.target.has_plugins() {
        RegistryView {
            plugin_inputs: reg.plugin_inputs.insert(c.lr.my_id@, c.inner.id),
            ..reg
        }
    } else {
        reg
    }
}

/// The directory that a peer that transfers files sees first.
pub open spec fn first_dir(c: Connection, env: Env) -> Option<String> {
    match c.purpose.file_transfer {
        Some((dir, _)) => if dir@.len() > 0 && env.first_dir_exists {
            Some(dir)
        } else {
            None
        },
        None => None,
    }
}

/// A peer that transfers files is told what it needs and sees a directory.
pub open spec fn logon_files(s: Scene, env: Env, facts: LogonFacts) -> Scene {
    let wait = must_choose_session(s.conn, s.reg, env);
    let hidden = (s.conn.purpose.file_transfer->0).1;
    let out = push_if(
        s.out,
        env.target.is_desktop() && !env.prelogin,
        Action::ToCm(CmData::Test),
    );
    let out = out.push(
        answer(LoginResponse::PeerInfo(full_info(s.conn, s.reg, env, facts))),
    );
    let conn = login_options_set(s.conn, env);
    let out = login_options_actions(s.conn, env, out);
    let dir = first_dir(s.conn, env);
    Scene {
        conn: if wait {
            Connection {
                purpose: Purpose { delayed_read_dir: Some((dir, hidden)), ..conn.purpose },
                ..conn
            }
        } else {
            conn
        },
        reg: plugin_input_noted(s.conn, s.reg, env),
        out: push_if(
            out,
            !wait,
            Action::ToCm(CmData::Fs(Fs::ReadDir { dir, include_hidden: hidden })),
        ),
    }
}

/// The connection with a peer that controls this machine.
pub open spec fn viewing(c: Connection, env: Env, facts: LogonFacts) -> Connection {
    Connection {
        media: Media { last_supported_encoding: Some(facts.supported_encoding), ..c.media },
        retina: match facts.displays {
            Displays::Found { infos, .. } if env.target.os == Os::Macos => Retina {
                displays: infos,
            },
            _ => c.retina,
        },
        ..c
    }
}

/// A peer that controls this machine is told what it needs, and the services are subscribed to.
pub open spec fn logon_remote(s: Scene, env: Env, facts: LogonFacts) -> Scene {
    let wait = must_choose_session(s.conn, s.reg, env);
    let found = facts.displays is Found;
    let out = match facts.inited {
        Some(message) => s.out.push(Action::Send(Message::Other(message))),
        None => s.out,
    };
    let out = push_if(out, env.target.os == Os::Windows, Action::ActivateScreen);
    let out = push_if(
        out,
        found && env.target.os == Os::Linux && !facts.x11 && !env.is_server,
        Action::SetupRdpInput,
    );
    let out = remote_authorized_actions(s.conn, s.reg, env, out);
    let out = out.push(
        answer(
            match facts.displays {
                Displays::Found { list, .. } => LoginResponse::PeerInfo(
                    remote_info(s.conn, s.reg, env, facts, list),
                ),
                Displays::Failed(error) => LoginResponse::Error(LoginError::Other(error)),
            },
        ),
    );
    let conn = viewing(s.conn, env, facts);
    let out = login_options_actions(conn, env, out);
    let conn = login_options_set(conn, env);
    Scene {
        conn: if found && !wait {
            subscribed(conn, env)
        } else {
            conn
        },
        reg: plugin_input_noted(s.conn, s.reg, env),
        out: if found && !wait {
            subscribe_actions(conn, env, out)
        } else {
            out
        },
    }
}

/// What follows for a peer that is authorised.
pub open spec fn admitted(s: Scene, env: Env, facts: LogonFacts) -> Scene {
    if s.conn.purpose.port_forward {
        Scene {
            out: s.out.push(answer(LoginResponse::PeerInfo(basic_info(env, facts)))),
            ..s
        }
    } else if s.conn.purpose.file_transfer is Some {
        logon_files(s, env, facts)
    } else if env.target.os == Os::Linux && display_server_error(facts) is Some {
        Scene { out: s.out.push(login_error(display_server_error(facts)->0)), ..s }
    } else {
        logon_remote(s, env, facts)
    }
}

/// What follows when a peer has shown that it may come in: it is let in, unless it already is or
/// owes the second factor.
pub open spec fn logon(s: Scene, env: Env, facts: LogonFacts) -> Scene {
    if s.conn.auth.authorized {
        s
    } else if owes_second_factor(s.conn, s.reg, env.now) {
        Scene {
            reg: second_factor_seen(s.conn, s.reg, env.now),
            out: s.out.push(login_error(LoginError::Require2fa)),
            ..s
        }
    } else {
        admitted(
            authorized(Scene { reg: second_factor_seen(s.conn, s.reg, env.now), ..s }),
            env,
            facts,
        )
    }
}

impl Registry {
    /// Whether a session of the operating system is among those in use.
    fn has_session(sessions: &Vec<u32>, sid: u32) -> (yes: bool)
        ensures
            yes == sessions@.contains(sid),
    {
        let mut i: usize = 0;
        while i < sessions.len()
            invariant
                i <= sessions@.len(),
                forall|j: int| 0 <= j < i ==> sessions@[j] != sid,
            decreases sessions@.len() - i,
        {
            if sessions[i] == sid {
                return true;
            }
            i += 1;
        }
        false
    }

    /// Whether a peer may choose among sessions of the operating system, and is the only one.
    pub(crate) fn sessions_open(&self, env: &Env, sid: u32) -> (yes: bool)
        ensures
            yes == (env.installed && env.share_rdp && remote_and_file_conns(
                self@.authed_conns,
            ).len() == 1 && env.sessions@.len() > 1 && env.sessions@.contains(sid)),
    {
        env.installed && env.share_rdp && AuthedConnID::remote_and_file_conn_count(self) == 1
            && env.sessions.len() > 1 && Self::has_session(&env.sessions, sid)
    }
}

impl Connection {
    /// What the peer is told about the system.
    fn platform_additions(env: &Env, facts: &LogonFacts) -> (told: PlatformAdditions)
        ensures
            told == additions(*env, *facts),
    {
        let windows = env.target.os == Os::Windows;
        let linux = env.target.os == Os::Linux;
        PlatformAdditions {
            is_wayland: linux && facts.wayland,
            headless: linux && env.headless_allowed && env.headless,
            is_installed: if windows {
                Some(env.installed)
            } else {
                None
            },
            virtual_displays: if windows && env.installed {
                Some(facts.virtual_displays)
            } else {
                None
            },
            supported_privacy_mode_impl: if windows {
                Some(facts.privacy_impls)
            } else {
                None
            },
            has_file_clipboard: env.target.file_clipboard(),
        }
    }

    /// What every peer that is let in is told.
    fn basic_peer_info(env: &Env, facts: &LogonFacts) -> (info: PeerInfo)
        ensures
            info == basic_info(*env, *facts),
    {
        PeerInfo {
            username: Some(facts.username.clone()),
            hostname: facts.hostname.clone(),
            platform: facts.platform.clone(),
            platform_additions: Self::platform_additions(env, facts),
            sas_enabled: false,
            privacy_mode: None,
            encoding: None,
            resolutions: None,
            displays: None,
            current_display: 0,
            windows_sessions: None,
        }
    }

    /// The session of the operating system that the peer is in, where it has to choose one first.
    pub(crate) fn handle_windows_specific_session(
        &self,
        reg: &Registry,
        env: &Env,
    ) -> (current: Option<u32>)
        ensures
            current == if must_choose_session(*self, reg@, *env) {
                env.current_sid
            } else {
                None
            },
    {
        if env.target.os != Os::Windows {
            return None;
        }
        match env.current_sid {
            Some(sid) => {
                if reg.sessions_open(env, sid) && self.lr.version.number >= env.version_1_2_4 {
                    Some(sid)
                } else {
                    None
                }
            },
            None => None,
        }
    }

    /// What a peer that transfers files or controls this machine is told.
    fn full_peer_info(&self, reg: &Registry, env: &Env, facts: &LogonFacts) -> (info: PeerInfo)
        ensures
            info == full_info(*self, reg@, *env, *facts),
    {
        let basic = Self::basic_peer_info(env, facts);
        let nobody = self.purpose.file_transfer.is_some() && env.target.desktop() && (env.prelogin
            || !env.cm_alive);
        PeerInfo {
            username: if nobody {
                None
            } else {
                basic.username
            },
            sas_enabled: env.target.os == Os::Windows && env.root,
            privacy_mode: Some(env.privacy_mode_supported),
            windows_sessions: match self.handle_windows_specific_session(reg, env) {
                Some(sid) => Some((facts.windows_sessions, sid)),
                None => None,
            },
            hostname: basic.hostname,
            platform: basic.platform,
            platform_additions: basic.platform_additions,
            encoding: None,
            resolutions: None,
            displays: None,
            current_display: 0,
        }
    }

    /// How long the peer may do nothing.
    pub(crate) fn get_auto_disconnect_timer(env: &Env) -> (timer: Option<(u64, u64)>)
        ensures
            timer == disconnect_timer(*env),
    {
        if env.config.is_set_to("allow-auto-disconnect", "Y") {
            let timeout = env.config.get_option("auto-disconnect-timeout");
            let minutes: u64 = match parse_u64(timeout.as_str()) {
                Some(minutes) => if minutes == 0 {
                    10
                } else {
                    minutes
                },
                None => 10,
            };
            Some((env.now, minutes))
        } else {
            None
        }
    }

    /// Subscribes to the services, once.
    pub(crate) fn try_sub_services(&mut self, env: &Env, out: &mut Vec<Action>)
        ensures
            *final(self) == subscribed(*old(self), *env),
            final(out)@ == subscribe_actions(*old(self), *env, old(out)@),
    {
        let is_remote = self.purpose.file_transfer.is_none() && !self.purpose.port_forward;
        if is_remote && !self.media.services_subed {
            let noperms = NoPermissions {
                cursor: !self.peer_keyboard_enabled() && !self.wishes.show_remote_cursor,
                cursor_position: !self.wishes.show_remote_cursor,
                window_focus: !self.wishes.follow_remote_window,
                clipboard: !self.clipboard_enabled() || !self.peer_keyboard_enabled(),
                audio: !self.audio_enabled(),
            };
            add_if(out, env.server_alive, Action::AddConnection { noperms });
            let timer = if env.server_alive {
                Self::get_auto_disconnect_timer(env)
            } else {
                self.timing.auto_disconnect_timer
            };
            self.media.services_subed = true;
            self.timing.auto_disconnect_timer = timer;
        }
    }

    /// What the encoder is told of the peer.
    fn update_codec_on_login(&self) -> (update: EncoderUpdate)
        ensures
            update == codec_on_login(*self),
    {
        match &self.lr.option {
            Some(o) => match o.supported_decoding {
                Some(decoding) => EncoderUpdate::Update(decoding),
                None => EncoderUpdate::NewOnlyVp9,
            },
            None => EncoderUpdate::NewOnlyVp9,
        }
    }

    /// Prepares this machine for a peer that controls it.
    fn on_remote_authorized(&self, reg: &Registry, env: &Env, out: &mut Vec<Action>)
        ensures
            final(out)@ == remote_authorized_actions(*self, reg@, *env, old(out)@),
    {
        let update = self.update_codec_on_login();
        out.push(Action::Encoder { id: self.inner.id, update });
        let remove = (env.target.os == Os::Windows || env.target.os == Os::Linux)
            && !env.config.is_unset("allow-remove-wallpaper") && !reg.wallpaper_remover;
        add_if(out, remove, Action::RemoveWallpaper);
    }

    /// Takes up the options that came with the request to log on.
    fn update_login_options(&mut self, env: &Env, out: &mut Vec<Action>)
        ensures
            *final(self) == login_options_set(*old(self), *env),
            final(out)@ == login_options_actions(*old(self), *env, old(out)@),
    {
        match self.auth.options_in_login {
            Some(o) => {
                self.auth.options_in_login = None;
                self.update_options(env, &o, out);
            },
            None => {},
        }
    }

    /// Notes that plugins can block the input of the peer.
    fn note_plugin_input(&self, reg: &mut Registry, env: &Env)
        ensures
            final(reg)@ == plugin_input_noted(*self, old(reg)@, *env),
    {
        if env.target.plugins() {
            reg.plugin_inputs.insert(self.lr.my_id.clone(), self.inner.id);
            assert(reg@ =~= plugin_input_noted(*self, old(reg)@, *env));
        }
    }

    /// Lets in a peer that transfers files.
    fn logon_for_files(
        &mut self,
        reg: &mut Registry,
        env: &Env,
        facts: &LogonFacts,
        out: &mut Vec<Action>,
    )
        requires
            old(self).purpose.file_transfer is Some,
        ensures
            (Scene { conn: *final(self), reg: final(reg)@, out: final(out)@ }) == logon_files(
                Scene { conn: *old(self), reg: old(reg)@, out: old(out)@ },
                *env,
                *facts,
            ),
    {
        let first = match &self.purpose.file_transfer {
            Some((dir, hidden)) => {
                let dir = if !dir.as_str().is_empty() && env.first_dir_exists {
                    Some(dir.clone())
                } else {
                    None
                };
                (dir, *hidden)
            },
            None => (None, false),
        };
        let wait = self.handle_windows_specific_session(reg, env).is_some();
        let info = self.full_peer_info(reg, env, facts);
        add_if(out, env.target.desktop() && !env.prelogin, Action::ToCm(CmData::Test));
        self.note_plugin_input(reg, env);
        out.push(Action::Send(Message::LoginResponse(LoginResponse::PeerInfo(info))));
        self.update_login_options(env, out);
        if wait {
            self.purpose.delayed_read_dir = Some(first);
        } else {
            self.read_dir(first.0, first.1, out);
        }
    }

    /// The answer to a peer that controls this machine.
    fn remote_response(
        &self,
        reg: &Registry,
        env: &Env,
        facts: &LogonFacts,
    ) -> (response: LoginResponse)
        ensures
            response == match facts.displays {
                Displays::Found { list, .. } => LoginResponse::PeerInfo(
                    remote_info(*self, reg@, *env, *facts, list),
                ),
                Displays::Failed(error) => LoginResponse::Error(LoginError::Other(error)),
            },
    {
        let info = self.full_peer_info(reg, env, facts);
        match &facts.displays {
            Displays::Found { list, .. } => LoginResponse::PeerInfo(
                PeerInfo {
                    encoding: Some(facts.supported_encoding),
                    resolutions: if env.target.desktop() {
                        Some(facts.resolutions)
                    } else {
                        None
                    },
                    displays: Some(*list),
                    current_display: self.media.display_idx,
                    ..info
                },
            ),
            Displays::Failed(error) => LoginResponse::Error(LoginError::Other(error.clone())),
        }
    }

    /// Lets in a peer that controls this machine.
    fn logon_for_control(
        &mut self,
        reg: &mut Registry,
        env: &Env,
        facts: LogonFacts,
        out: &mut Vec<Action>,
    )
        ensures
            (Scene { conn: *final(self), reg: final(reg)@, out: final(out)@ }) == logon_remote(
                Scene { conn: *old(self), reg: old(reg)@, out: old(out)@ },
                *env,
                facts,
            ),
    {
        let wait = self.handle_windows_specific_session(reg, env).is_some();
        let response = self.remote_response(reg, env, &facts);
        let found = match &facts.displays {
            Displays::Found { .. } => true,
            Displays::Failed(_) => false,
        };
        match facts.inited {
            Some(message) => out.push(Action::Send(Message::Other(message))),
            None => {},
        }
        add_if(out, env.target.os == Os::Windows, Action::ActivateScreen);
        add_if(
            out,
            found && env.target.os == Os::Linux && !facts.x11 && !env.is_server,
            Action::SetupRdpInput,
        );
        self.on_remote_authorized(reg, env, out);
        self.note_plugin_input(reg, env);
        out.push(Action::Send(Message::LoginResponse(response)));
        self.media.last_supported_encoding = Some(facts.supported_encoding);
        match facts.displays {
            Displays::Found { infos, .. } => {
                if env.target.os == Os::Macos {
                    self.retina.set_displays(infos);
                }
            },
            Displays::Failed(_) => {},
        }
        self.update_login_options(env, out);
        if found && !wait {
            self.try_sub_services(env, out);
        }
    }

    /// Marks the peer as authorised.
    fn authorize(&mut self, reg: &mut Registry, out: &mut Vec<Action>)
        ensures
            (Scene { conn: *final(self), reg: final(reg)@, out: final(out)@ }) == authorized(
                Scene { conn: *old(self), reg: old(reg)@, out: old(out)@ },
            ),
    {
        let (kind, conn_type): (i32, AuthConnType) = if self.purpose.file_transfer.is_some() {
            (1, AuthConnType::FileTransfer)
        } else if self.purpose.port_forward {
            (2, AuthConnType::PortForward)
        } else {
            (0, AuthConnType::Remote)
        };
        let entered = AuthedConnID::new(reg, self.inner.id, conn_type, out);
        self.auth.authorized = true;
        self.auth.authed_conn_id = Some(entered);
        let event = ConnEvent::Authorized {
            peer_id: self.lr.my_id.clone(),
            peer_name: self.lr.my_name.clone(),
            kind,
        };
        self.post_conn_audit(event, out);
    }

    /// Why a peer cannot control a Linux machine as it is.
    fn display_server_problem(facts: &LogonFacts) -> (error: Option<LoginError>)
        ensures
            error == display_server_error(*facts),
    {
        if facts.login_screen_wayland {
            return Some(LoginError::LoginScreenWayland);
        }
        match &facts.display_server {
            DisplayServer::Other(kind) => Some(
                LoginError::UnsupportedDisplayServer { kind: kind.clone() },
            ),
            _ => None,
        }
    }

    /// Does what follows for a peer that is authorised.
    fn let_in(
        &mut self,
        reg: &mut Registry,
        env: &Env,
        facts: LogonFacts,
        out: &mut Vec<Action>,
    )
        ensures
            (Scene { conn: *final(self), reg: final(reg)@, out: final(out)@ }) == admitted(
                Scene { conn: *old(self), reg: old(reg)@, out: old(out)@ },
                *env,
                facts,
            ),
    {
        if self.purpose.port_forward {
            let info = Self::basic_peer_info(env, &facts);
            out.push(Action::Send(Message::LoginResponse(LoginResponse::PeerInfo(info))));
            return ;
        }
        if self.purpose.file_transfer.is_some() {
            self.logon_for_files(reg, env, &facts, out);
            return ;
        }
        if env.target.os == Os::Linux {
            if let Some(error) = Self::display_server_problem(&facts) {
                self.send_login_error(error, out);
                return ;
            }
        }
        self.logon_for_control(reg, env, facts, out);
    }

    /// Lets the peer in, unless it already is or owes the second factor.
    pub(crate) fn send_logon_response(
        &mut self,
        reg: &mut Registry,
        env: &Env,
        facts: LogonFacts,
        out: &mut Vec<Action>,
    )
        ensures
            (Scene { conn: *final(self), reg: final(reg)@, out: final(out)@ }) == logon(
                Scene { conn: *old(self), reg: old(reg)@, out: old(out)@ },
                *env,
                facts,
            ),
    {
        if self.auth.authorized {
            return ;
        }
        if self.auth.require_2fa.is_some() {
            let recent = self.is_recent_session(reg, env.now, true);
            if !recent && !self.auth.from_switch {
                self.send_login_error(LoginError::Require2fa, out);
                return ;
            }
        }
        self.authorize(reg, out);
        self.let_in(reg, env, facts, out);
    }
}

} // verus!
