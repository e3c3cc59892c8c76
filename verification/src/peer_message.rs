//! What a peer says, and what follows.

use vstd::prelude::*;

use crate::action::{add_if, push_if, Action, CmData, QosUpdate};
use crate::closing::{close_actions, closed, session_dropped};
use crate::connection::{touched, Connection, Purpose, Scene, Timing, Trace};
use crate::display::{
    capture_actions, display_switched, resolution_actions, switch_display_actions,
};
use crate::env::{elapsed, elapsed_since, Env};
use crate::file_transfer::{file_action_taken, file_response_actions, fs_asked};
use crate::input::{key_event_taken, mouse_actions, mouse_noted, pointer_actions};
use crate::login::{
    forward_address, login_requested, second_factor_shown, sides_switched, LoginStep,
};
use crate::logon::{subscribe_actions, subscribed, LogonFacts};
use crate::message::{
    LoginKind, LoginRequest, Message, Misc, PeerMessage, Resolution, TestDelay,
};
use crate::options::{options_actions, options_set};
use crate::portable::{elevation_actions, virtual_display_actions};
use crate::privacy::{turn_off_actions, turn_on_actions};
use crate::registry::{remote_and_file_conns, Registry, RegistryView};
use crate::target::Os;
use crate::text::texts;
use crate::uuids::{hyphenated, switch_sides_args};
use crate::voice::{begins_call, call_request_actions, call_requested, may_call};

verus! {

/// The scene with another connection and other actions.
pub open spec fn scene_with(s: Scene, conn: Connection, out: Seq<Action>) -> Scene {
    Scene { conn, out, ..s }
}

/// The connection after a chat message.
pub open spec fn chatted(c: Connection) -> Connection {
    Connection { trace: Trace { chat_unanswered: true, ..c.trace }, ..c }
}

/// What a peer's wish for a restart of this machine asks for. A forced restart is not to be had on
/// macOS, and does not always work on Linux.
pub open spec fn restart_actions(c: Connection, env: Env, out: Seq<Action>) -> Seq<Action> {
    let os = env.target.os;
    let out = push_if(
        out,
        c.rights.restart && (os == Os::Linux || os == Os::Windows),
        Action::ForceReboot,
    );
    push_if(out, c.rights.restart && (os == Os::Linux || os == Os::Macos), Action::Reboot)
}

/// The program is started again as the side that controls the peer, and shows it a token.
pub open spec fn sides_swapped(
    before: Seq<Action>,
    after: Seq<Action>,
    c: Connection,
    env: Env,
    uuid: Seq<u8>,
) -> bool {
    exists|args: Vec<String>|
        #![trigger args@]
        texts(args@) == seq!["--connect"@, c.lr.my_id@, "--switch_uuid"@, hyphenated(uuid)]
            && after == close_actions(c, env, before.push(Action::SwitchSides { args }), false)
}

/// The peer goes to another session of the operating system.
pub open spec fn goes_to_session(reg: RegistryView, env: Env, sid: u32) -> bool {
    &&& env.current_sid matches Some(current) && current != sid
    &&& env.installed
    &&& env.share_rdp
    &&& remote_and_file_conns(reg.authed_conns).len() == 1
    &&& env.sessions@.len() > 1
    &&& env.sessions@.contains(sid)
}

/// What follows when the peer stays in its session of the operating system.
pub open spec fn session_kept(s: Scene, env: Env) -> Scene {
    let c = s.conn;
    if c.purpose.file_transfer is Some {
        match c.purpose.delayed_read_dir {
            Some((dir, include_hidden)) => scene_with(
                s,
                Connection { purpose: Purpose { delayed_read_dir: None, ..c.purpose }, ..c },
                fs_asked(s.out, crate::action::Fs::ReadDir { dir, include_hidden }),
            ),
            None => s,
        }
    } else {
        scene_with(s, subscribed(c, env), subscribe_actions(c, env, s.out))
    }
}

/// What follows the peer's choice of a session of the operating system.
pub open spec fn session_chosen(s: Scene, env: Env, sid: u32) -> (Scene, bool) {
    if env.target.os != Os::Windows || env.current_sid is None {
        (s, true)
    } else if goes_to_session(s.reg, env, sid) {
        (scene_with(s, s.conn, s.out.push(Action::ConnectUserSession(sid))), false)
    } else {
        (session_kept(s, env), true)
    }
}

/// What a request of an authorised peer changes and asks for.
pub open spec fn misc_taken(
    s: Scene,
    env: Env,
    misc: Misc,
    after: Scene,
    go_on: bool,
) -> bool {
    let c = s.conn;
    let id = c.inner.id;
    let windows = env.target.os == Os::Windows;
    match misc {
        Misc::SwitchDisplay { display, width, height } => go_on && after == scene_with(
            s,
            display_switched(c, env, display),
            switch_display_actions(c, env, s.out, display, Resolution { width, height }),
        ),
        Misc::CaptureDisplays { add, sub, set } => go_on && after == scene_with(
            s,
            c,
            capture_actions(env, s.out, add, sub, set),
        ),
        Misc::ToggleVirtualDisplay { display, on } => go_on && after == scene_with(
            s,
            c,
            if windows {
                virtual_display_actions(env, s.out, display, on)
            } else {
                s.out
            },
        ),
        Misc::TogglePrivacyMode { impl_key, on } => go_on && after == scene_with(
            s,
            c,
            if on {
                turn_on_actions(env, s.out, Some(impl_key))
            } else {
                turn_off_actions(c, env, s.out, Some(impl_key))
            },
        ),
        Misc::ChatMessage { text } => go_on && after == scene_with(
            s,
            touched(chatted(c), env.now),
            s.out.push(Action::ToCm(CmData::ChatMessage { text })),
        ),
        Misc::Option(o) => go_on && after == scene_with(
            s,
            options_set(c, o, env.target),
            options_actions(c, env, s.out, o),
        ),
        Misc::RefreshVideo(all) => go_on && after == scene_with(
            s,
            touched(c, env.now),
            push_if(s.out, all, Action::RefreshVideo { display: None }),
        ),
        Misc::RefreshVideoDisplay(display) => go_on && after == scene_with(
            s,
            touched(c, env.now),
            s.out.push(Action::RefreshVideo { display: Some(display as usize) }),
        ),
        Misc::VideoReceived => go_on && after == scene_with(
            s,
            c,
            s.out.push(Action::NotifyFrameFetched { at: Some(env.now) }),
        ),
        Misc::CloseReason => !go_on && after == (Scene {
            conn: closed(c),
            reg: session_dropped(c, s.reg),
            out: close_actions(c, env, s.out, true),
        }),
        Misc::RestartRemoteDevice => go_on && after == scene_with(
            s,
            c,
            restart_actions(c, env, s.out),
        ),
        Misc::ElevationRequest(request) => go_on && after == if windows {
            scene_with(
                s,
                if request is Other {
                    c
                } else {
                    touched(c, env.now)
                },
                elevation_actions(c, env, s.out, request),
            )
        } else {
            s
        },
        Misc::AudioFormat(format) => {
            &&& go_on
            &&& after == scene_with(
                s,
                Connection {
                    media: crate::connection::Media {
                        audio_sender: c.media.audio_sender || !c.wishes.disable_audio,
                        ..c.media
                    },
                    ..c
                },
                push_if(s.out, !c.wishes.disable_audio, Action::StartAudio(format)),
            )
        },
        Misc::SwitchSidesRequest { uuid } => if env.target.flutter && uuid@.len() == 16 {
            &&& !go_on
            &&& after == scene_with(s, closed(c), after.out)
            &&& sides_swapped(s.out, after.out, c, env, uuid@)
        } else {
            go_on && after == s
        },
        Misc::ChangeResolution(r) => go_on && after == scene_with(
            s,
            c,
            if env.target.is_desktop() {
                resolution_actions(c, env, s.out, None, r)
            } else {
                s.out
            },
        ),
        Misc::ChangeDisplayResolution { display, resolution } => go_on && after == scene_with(
            s,
            c,
            if env.target.is_desktop() {
                resolution_actions(c, env, s.out, Some(display as usize), resolution)
            } else {
                s.out
            },
        ),
        Misc::PluginRequest { id, content } => go_on && after == scene_with(
            s,
            c,
            push_if(
                s.out,
                env.target.has_plugins(),
                Action::PluginEvent { id, peer: c.lr.my_id, content },
            ),
        ),
        Misc::AutoAdjustFps(fps) => go_on && after == scene_with(
            s,
            c,
            s.out.push(Action::Qos { id, update: QosUpdate::AutoAdjustFps(fps) }),
        ),
        Misc::ClientRecordStatus(on) => go_on && after == scene_with(
            s,
            c,
            s.out.push(Action::Qos { id, update: QosUpdate::Record(on) }),
        ),
        Misc::SelectedSid(sid) => (after, go_on) == session_chosen(s, env, sid),
        Misc::MessageQuery { switch_display } => go_on && after == scene_with(
            s,
            c,
            s.out.push(Action::SendDisplayChanged { display: switch_display as usize }),
        ),
        Misc::Other => go_on && after == s,
    }
}

/// What a message of an authorised peer changes and asks for. While a port is forwarded, messages
/// count for nothing.
pub open spec fn authorized_taken(
    s: Scene,
    env: Env,
    msg: PeerMessage,
    after: Scene,
    go_on: bool,
) -> bool {
    let c = s.conn;
    if c.purpose.port_forward {
        go_on && after == s
    } else {
        match msg {
            PeerMessage::MouseEvent(e) => go_on && after == (Scene {
                conn: touched(c, env.now),
                reg: if env.target.is_desktop() && c.keyboard_on() {
                    mouse_noted(s.reg, env, e.left_up)
                } else {
                    s.reg
                },
                out: mouse_actions(c, env, s.out, e),
            }),
            PeerMessage::PointerDeviceEvent(e) => go_on && after == (Scene {
                conn: touched(c, env.now),
                reg: if env.target.is_desktop() && c.keyboard_on() {
                    mouse_noted(s.reg, env, false)
                } else {
                    s.reg
                },
                out: pointer_actions(c, env, s.out, e),
            }),
            PeerMessage::KeyEvent(e) => go_on && key_event_taken(
                c,
                s.reg,
                s.out,
                env,
                e,
                after.conn,
                after.reg,
                after.out,
            ),
            PeerMessage::Clipboard(content) => go_on && after == scene_with(
                s,
                c,
                push_if(
                    s.out,
                    env.target.is_desktop() && c.rights.clipboard,
                    Action::UpdateClipboard(content),
                ),
            ),
            PeerMessage::Cliprdr(files) => go_on && after == scene_with(
                s,
                c,
                push_if(
                    s.out,
                    env.target.is_desktop() && files is Some,
                    Action::ToCm(CmData::ClipboardFile(files->0)),
                ),
            ),
            PeerMessage::FileAction(fa) => {
                &&& go_on
                &&& after.reg == s.reg
                &&& file_action_taken(c, s.out, env, fa, after.conn, after.out)
            },
            PeerMessage::FileResponse(fr) => go_on && after == scene_with(
                s,
                c,
                file_response_actions(s.out, fr),
            ),
            PeerMessage::Misc(misc) => misc_taken(s, env, misc, after, go_on),
            PeerMessage::AudioFrame(frame) => go_on && after == scene_with(
                s,
                c,
                push_if(
                    s.out,
                    !c.wishes.disable_audio && c.media.audio_sender,
                    Action::PlayAudio(frame),
                ),
            ),
            PeerMessage::VoiceCallRequest { req_timestamp, is_connect } => go_on && after
                == scene_with(
                s,
                call_requested(c, env, req_timestamp, is_connect),
                call_request_actions(c, s.out, is_connect),
            ),
            _ => go_on && after == s,
        }
    }
}

/// The connection after a delay probe came back or came in.
pub open spec fn delay_tested(c: Connection, env: Env, t: TestDelay) -> Connection {
    if t.from_client {
        c
    } else {
        match c.timing.last_test_delay {
            Some(at) => Connection {
                timing: Timing {
                    last_test_delay: None,
                    network_delay: elapsed(env.now, at) as u32,
                    delay_response_instant: env.now,
                    ..c.timing
                },
                ..c
            },
            None => Connection {
                timing: Timing { delay_response_instant: env.now, ..c.timing },
                ..c
            },
        }
    }
}

/// What a delay probe asks for: the peer's own goes back, the answer to ours tells the delay.
pub open spec fn delay_actions(c: Connection, env: Env, out: Seq<Action>, t: TestDelay) -> Seq<
    Action,
> {
    if t.from_client {
        c.inner.queued(out, Message::TestDelay(t))
    } else {
        match c.timing.last_test_delay {
            Some(at) => out.push(
                Action::Qos {
                    id: c.inner.id,
                    update: QosUpdate::NetworkDelay(elapsed(env.now, at) as u32),
                },
            ),
            None => out,
        }
    }
}

/// A request to log on is taken; the address whose port is forwarded is written as text.
pub open spec fn login_taken(
    s: Scene,
    env: Env,
    facts: LogonFacts,
    lr: LoginRequest,
    after: Scene,
    step: LoginStep,
) -> bool {
    exists|address: String|
        (lr.kind matches LoginKind::PortForward { host, port } ==> address@ == forward_address(
            host@,
            port,
        )) && (after, step) == #[trigger] login_requested(s, env, facts, lr, address)
}

/// What a message of a peer changes and asks for. A peer that is not authorised can only log on,
/// swap sides and measure the delay.
pub open spec fn message_taken(
    s: Scene,
    env: Env,
    facts: LogonFacts,
    msg: PeerMessage,
    after: Scene,
    step: LoginStep,
) -> bool {
    match msg {
        PeerMessage::LoginRequest(lr) => login_taken(s, env, facts, lr, after, step),
        PeerMessage::Auth2fa { code } => {
            &&& step == LoginStep::Done(true)
            &&& after == second_factor_shown(s, env, facts, code@)
        },
        PeerMessage::TestDelay(t) => {
            &&& step == LoginStep::Done(true)
            &&& after == scene_with(
                s,
                delay_tested(s.conn, env, t),
                delay_actions(s.conn, env, s.out, t),
            )
        },
        PeerMessage::SwitchSidesResponse { uuid, lr } => {
            &&& step == LoginStep::Done(true)
            &&& after == sides_switched(s, env, facts, uuid@, lr)
        },
        _ => if s.conn.auth.authorized {
            step matches LoginStep::Done(go_on) && authorized_taken(s, env, msg, after, go_on)
        } else {
            step == LoginStep::Done(true) && after == s
        },
    }
}

impl Connection {
    /// Takes a delay probe.
    fn on_test_delay(&mut self, env: &Env, t: TestDelay, out: &mut Vec<Action>)
        ensures
            *final(self) == delay_tested(*old(self), *env, t),
            final(out)@ == delay_actions(*old(self), *env, old(out)@, t),
    {
        if t.from_client {
            self.inner.send(Message::TestDelay(t), out);
            return ;
        }
        let timing = self.timing;
        match timing.last_test_delay {
            Some(at) => {
                let new_delay: u32 = #[verifier::truncate]
                (elapsed_since(env.now, at) as u32);
                out.push(
                    Action::Qos { id: self.inner.id, update: QosUpdate::NetworkDelay(new_delay) },
                );
                self.timing = Timing {
                    last_test_delay: None,
                    network_delay: new_delay,
                    delay_response_instant: env.now,
                    ..timing
                };
            },
            None => {
                self.timing = Timing { delay_response_instant: env.now, ..timing };
            },
        }
    }

    /// Takes the peer's wish for a restart of this machine.
    fn on_restart(&self, env: &Env, out: &mut Vec<Action>)
        ensures
            final(out)@ == restart_actions(*self, *env, old(out)@),
    {
        let os = env.target.os;
        add_if(
            out,
            self.rights.restart && (os == Os::Linux || os == Os::Windows),
            Action::ForceReboot,
        );
        add_if(
            out,
            self.rights.restart && (os == Os::Linux || os == Os::Macos),
            Action::Reboot,
        );
    }

    /// Takes the peer's request to swap sides.
    fn on_switch_sides_request(&mut self, env: &Env, uuid: &Vec<u8>, out: &mut Vec<Action>) -> (
        go_on: bool)
        ensures
            go_on == !(env.target.flutter && uuid@.len() == 16),
            if env.target.flutter && uuid@.len() == 16 {
                &&& *final(self) == closed(*old(self))
                &&& sides_swapped(old(out)@, final(out)@, *old(self), *env, uuid@)
            } else {
                *final(self) == *old(self) && final(out)@ == old(out)@
            },
    {
        if !env.target.flutter {
            return true;
        }
        match switch_sides_args(&self.lr.my_id, uuid) {
            Some(args) => {
                let ghost list = args;
                out.push(Action::SwitchSides { args });
                self.on_close(env, false, out);
                assert(texts(list@) == seq![
                    "--connect"@,
                    old(self).lr.my_id@,
                    "--switch_uuid"@,
                    hyphenated(uuid@),
                ]);
                false
            },
            None => true,
        }
    }

    /// Takes the peer's choice of a session of the operating system.
    fn on_selected_sid(
        &mut self,
        reg: &Registry,
        env: &Env,
        sid: u32,
        out: &mut Vec<Action>,
    ) -> (go_on: bool)
        ensures
            (Scene { conn: *final(self), reg: reg@, out: final(out)@ }, go_on) == session_chosen(
                Scene { conn: *old(self), reg: reg@, out: old(out)@ },
                *env,
                sid,
            ),
    {
        if env.target.os != Os::Windows {
            return true;
        }
        let current = match env.current_sid {
            Some(current) => current,
            None => {
                return true;
            },
        };
        if current != sid && reg.sessions_open(env, sid) {
            out.push(Action::ConnectUserSession(sid));
            return false;
        }
        if self.purpose.file_transfer.is_some() {
            let mut delayed: Option<(Option<String>, bool)> = None;
            std::mem::swap(&mut delayed, &mut self.purpose.delayed_read_dir);
            if let Some((dir, show_hidden)) = delayed {
                self.read_dir(dir, show_hidden, out);
            }
        } else {
            self.try_sub_services(env, out);
        }
        true
    }

    /// Takes a chat message.
    fn on_chat_message(&mut self, env: &Env, text: String, out: &mut Vec<Action>)
        ensures
            *final(self) == touched(chatted(*old(self)), env.now),
            final(out)@ == old(out)@.push(Action::ToCm(CmData::ChatMessage { text })),
    {
        self.send_to_cm(CmData::ChatMessage { text }, out);
        self.trace.chat_unanswered = true;
        self.update_auto_disconnect_timer(env.now);
    }

    /// Takes a request of an authorised peer, and says whether the connection goes on.
    pub(crate) fn on_misc(
        &mut self,
        reg: &mut Registry,
        env: &Env,
        misc: Misc,
        out: &mut Vec<Action>,
    ) -> (go_on: bool)
        ensures
            misc_taken(
                Scene { conn: *old(self), reg: old(reg)@, out: old(out)@ },
                *env,
                misc,
                Scene { conn: *final(self), reg: final(reg)@, out: final(out)@ },
                go_on,
            ),
    {
        let id = self.inner.id;
        let windows = env.target.os == Os::Windows;
        match misc {
            Misc::SwitchDisplay { display, width, height } => {
                self.handle_switch_display(env, display, Resolution { width, height }, out);
            },
            Misc::CaptureDisplays { add, sub, set } => {
                self.capture_displays(env, add, sub, set, out);
            },
            Misc::ToggleVirtualDisplay { display, on } => {
                if windows {
                    self.toggle_virtual_display(env, display, on, out);
                }
            },
            Misc::TogglePrivacyMode { impl_key, on } => {
                self.toggle_privacy_mode(env, impl_key, on, out);
            },
            Misc::ChatMessage { text } => self.on_chat_message(env, text, out),
            Misc::Option(o) => self.update_options(env, &o, out),
            Misc::RefreshVideo(all) => {
                if all {
                    self.refresh_video_display(None, out);
                }
                self.update_auto_disconnect_timer(env.now);
            },
            Misc::RefreshVideoDisplay(display) => {
                self.refresh_video_display(Some(display as usize), out);
                self.update_auto_disconnect_timer(env.now);
            },
            Misc::VideoReceived => {
                out.push(Action::NotifyFrameFetched { at: Some(env.now) });
            },
            Misc::CloseReason => {
                self.on_close(env, true, out);
                self.drop_session(reg);
                return false;
            },
            Misc::RestartRemoteDevice => self.on_restart(env, out),
            Misc::ElevationRequest(request) => {
                if windows {
                    self.handle_elevation_request(env, request, out);
                }
            },
            Misc::AudioFormat(format) => self.on_audio_format(format, out),
            Misc::SwitchSidesRequest { uuid } => {
                return self.on_switch_sides_request(env, &uuid, out);
            },
            Misc::ChangeResolution(r) => {
                if env.target.desktop() {
                    self.change_resolution(env, None, &r, out);
                }
            },
            Misc::ChangeDisplayResolution { display, resolution } => {
                if env.target.desktop() {
                    self.change_resolution(env, Some(display as usize), &resolution, out);
                }
            },
            Misc::PluginRequest { id, content } => {
                if env.target.plugins() {
                    out.push(Action::PluginEvent { id, peer: self.lr.my_id.clone(), content });
                }
            },
            Misc::AutoAdjustFps(fps) => {
                out.push(Action::Qos { id, update: QosUpdate::AutoAdjustFps(fps) });
            },
            Misc::ClientRecordStatus(on) => {
                out.push(Action::Qos { id, update: QosUpdate::Record(on) });
            },
            Misc::SelectedSid(sid) => {
                return self.on_selected_sid(reg, env, sid, out);
            },
            Misc::MessageQuery { switch_display } => {
                out.push(Action::SendDisplayChanged { display: switch_display as usize });
            },
            Misc::Other => {},
        }
        true
    }

    /// Takes a message of an authorised peer, and says whether the connection goes on.
    fn on_authorized_message(
        &mut self,
        reg: &mut Registry,
        env: &Env,
        msg: PeerMessage,
        out: &mut Vec<Action>,
    ) -> (go_on: bool)
        requires
            !old(self).purpose.port_forward && begins_call(msg) ==> env.epoch_ms != 0,
        ensures
            authorized_taken(
                Scene { conn: *old(self), reg: old(reg)@, out: old(out)@ },
                *env,
                msg,
                Scene { conn: *final(self), reg: final(reg)@, out: final(out)@ },
                go_on,
            ),
    {
        if self.purpose.port_forward {
            return true;
        }
        match msg {
            PeerMessage::MouseEvent(e) => self.on_mouse_event(reg, env, e, out),
            PeerMessage::PointerDeviceEvent(e) => self.on_pointer_event(reg, env, e, out),
            PeerMessage::KeyEvent(e) => self.on_key_event(reg, env, e, out),
            PeerMessage::Clipboard(content) => {
                add_if(
                    out,
                    env.target.desktop() && self.rights.clipboard,
                    Action::UpdateClipboard(content),
                );
            },
            PeerMessage::Cliprdr(files) => {
                if env.target.desktop() {
                    if let Some(files) = files {
                        self.send_to_cm(CmData::ClipboardFile(files), out);
                    }
                }
            },
            PeerMessage::FileAction(fa) => self.on_file_action(env, fa, out),
            PeerMessage::FileResponse(fr) => self.on_file_response(fr, out),
            PeerMessage::Misc(misc) => {
                return self.on_misc(reg, env, misc, out);
            },
            PeerMessage::AudioFrame(frame) => self.on_audio_frame(frame, out),
            PeerMessage::VoiceCallRequest { req_timestamp, is_connect } => {
                self.on_voice_call_request(env, req_timestamp, is_connect, out);
            },
            _ => {},
        }
        true
    }

    /// Takes a message of the peer. A call of a peer that may call is noted with the time of its
    /// request, so that it takes a clock that has left the epoch.
    pub fn on_message(
        &mut self,
        reg: &mut Registry,
        env: &Env,
        facts: LogonFacts,
        msg: PeerMessage,
        out: &mut Vec<Action>,
    ) -> (step: LoginStep)
        requires
            may_call(*old(self)) && begins_call(msg) ==> env.epoch_ms != 0,
        ensures
            message_taken(
                Scene { conn: *old(self), reg: old(reg)@, out: old(out)@ },
                *env,
                facts,
                msg,
                Scene { conn: *final(self), reg: final(reg)@, out: final(out)@ },
                step,
            ),
    {
        match msg {
            PeerMessage::LoginRequest(lr) => {
                return self.on_login_request(reg, env, facts, lr, out);
            },
            PeerMessage::Auth2fa { code } => self.on_auth_2fa(reg, env, facts, &code, out),
            PeerMessage::TestDelay(t) => self.on_test_delay(env, t, out),
            PeerMessage::SwitchSidesResponse { uuid, lr } => {
                self.on_switch_sides(reg, env, facts, &uuid, lr, out);
            },
            msg => {
                if self.auth.authorized {
                    return LoginStep::Done(self.on_authorized_message(reg, env, msg, out));
                }
            },
        }
        LoginStep::Done(true)
    }
}

/// Without the right to the clipboard, to a restart, or to the keyboard, the messages that need it
/// bring nothing about.
pub proof fn no_right_no_effect(
    s: Scene,
    env: Env,
    facts: LogonFacts,
    msg: PeerMessage,
    after: Scene,
    step: LoginStep,
)
    requires
        message_taken(s, env, facts, msg, after, step),
        ({
            let r = s.conn.rights;
            ||| msg is Clipboard && !r.clipboard
            ||| msg == PeerMessage::Misc(Misc::RestartRemoteDevice) && !r.restart
            ||| msg matches PeerMessage::Misc(Misc::ChangeResolution(_)) && !r.keyboard
            ||| msg matches PeerMessage::Misc(Misc::ChangeDisplayResolution { .. })
                && !r.keyboard
        }),
    ensures
        after == s,
{
}

/// Without a wish to transfer files when it logged on, a peer cannot touch files by requests on
/// files.
pub proof fn files_need_file_transfer(
    s: Scene,
    env: Env,
    facts: LogonFacts,
    msg: PeerMessage,
    after: Scene,
    step: LoginStep,
)
    requires
        message_taken(s, env, facts, msg, after, step),
        msg is FileAction,
        s.conn.purpose.file_transfer is None,
    ensures
        after == s,
{
}

/// An answered delay probe is no longer under way.
pub proof fn probe_is_answered(c: Connection, env: Env, t: TestDelay)
    requires
        !t.from_client,
    ensures
        delay_tested(c, env, t).timing.last_test_delay is None,
        delay_tested(c, env, t).timing.delay_response_instant == env.now,
{
}

} // verus!
