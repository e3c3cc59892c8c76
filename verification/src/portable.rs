//! What a peer knows of the rights that this program has on Windows, and how it asks for more.

use vstd::prelude::*;

use crate::action::{Action, CmData};
use crate::connection::{touched, ConnInner, Connection};
use crate::env::Env;
use crate::message::{ElevationOutcome, ElevationRequest, Message, Prompt};

verus! {

/// What was last told to the peer.
#[derive(Clone, Copy, Debug, PartialEq, Eq)]
pub struct PortableState {
    pub last_uac: bool,
    pub last_foreground_window_elevated: bool,
    pub last_running: Option<bool>,
    pub is_installed: bool,
}

impl PortableState {
    /// What a new peer was told: nothing.
    pub fn new(is_installed: bool) -> (state: Self)
        ensures
            state == (PortableState {
                last_uac: false,
                last_foreground_window_elevated: false,
                last_running: None,
                is_installed,
            }),
    {
        PortableState {
            last_uac: false,
            last_foreground_window_elevated: false,
            last_running: None,
            is_installed,
        }
    }
}

/// The rights of this program do not matter to the peer.
pub open spec fn rights_do_not_matter(c: Connection) -> bool {
    c.portable.is_installed || !c.is_remote() || !c.rights.keyboard
}

/// What the peer was told once it was looked at the rights of this program.
pub open spec fn portable_told(c: Connection, env: Env) -> PortableState {
    if !rights_do_not_matter(c) && c.auth.authorized {
        PortableState {
            last_uac: env.uac_running,
            last_foreground_window_elevated: env.foreground_window_elevated,
            last_running: Some(env.portable_running),
            is_installed: c.portable.is_installed,
        }
    } else {
        c.portable
    }
}

/// A message through its channel where `cond` holds.
pub open spec fn queued_if(
    inner: ConnInner,
    out: Seq<Action>,
    cond: bool,
    message: Message,
) -> Seq<Action> {
    if cond {
        inner.queued(out, message)
    } else {
        out
    }
}

/// What a look at the rights of this program asks for. The peer is told of what has changed; what
/// keeps it from controlling the machine is told only while this program lacks rights.
pub open spec fn portable_actions(c: Connection, env: Env, out: Seq<Action>) -> Seq<Action> {
    if rights_do_not_matter(c) {
        out
    } else {
        let running = env.portable_running;
        let p = c.portable;
        let out = out.push(Action::ToCm(CmData::ShowElevation(!running)));
        if c.auth.authorized {
            let out = queued_if(
                c.inner,
                out,
                p.last_running != Some(running),
                Message::PortableServiceRunning(running),
            );
            let out = queued_if(
                c.inner,
                out,
                p.last_uac != env.uac_running && (!env.uac_running || !running),
                Message::Uac(env.uac_running),
            );
            queued_if(
                c.inner,
                out,
                p.last_foreground_window_elevated != env.foreground_window_elevated && (
                !env.foreground_window_elevated || !running),
                Message::ForegroundWindowElevated(env.foreground_window_elevated),
            )
        } else {
            out
        }
    }
}

/// What a peer's wish for more rights asks for.
pub open spec fn elevation_actions(
    c: Connection,
    env: Env,
    out: Seq<Action>,
    request: ElevationRequest,
) -> Seq<Action> {
    if request is Other {
        out
    } else if !c.rights.keyboard {
        out.push(Action::Send(Message::ElevationResponse(ElevationOutcome::NoPermission)))
    } else if env.installed || env.portable_running {
        out.push(Action::Send(Message::ElevationResponse(ElevationOutcome::NoNeed)))
    } else {
        out.push(Action::Elevate(request))
    }
}

/// What a peer's wish for a virtual display, or for an end of it, asks for.
pub open spec fn virtual_display_actions(
    env: Env,
    out: Seq<Action>,
    display: i32,
    on: bool,
) -> Seq<Action> {
    if on && !env.virtual_display_supported {
        out.push(Action::Send(Message::MessageBox(Prompt::VirtualDisplayUnsupported)))
    } else if on {
        out.push(Action::PlugInDisplay { display })
    } else {
        out.push(Action::PlugOutDisplay { display })
    }
}

impl ConnInner {
    /// Sends a message through its channel where `cond` holds.
    fn send_if(&self, cond: bool, message: Message, out: &mut Vec<Action>)
        ensures
            final(out)@ == queued_if(*self, old(out)@, cond, message),
    {
        if cond {
            self.send(message, out);
        }
    }
}

impl Connection {
    /// Tells the peer what has changed of the rights of this program.
    fn tell_portable(&self, env: &Env, out: &mut Vec<Action>)
        ensures
            final(out)@ == portable_actions(*self, *env, old(out)@),
    {
        if self.portable.is_installed || self.purpose.file_transfer.is_some()
            || self.purpose.port_forward || !self.rights.keyboard {
            return ;
        }
        let running = env.portable_running;
        let p = self.portable;
        self.send_to_cm(CmData::ShowElevation(!running), out);
        if self.auth.authorized {
            let restarted = match p.last_running {
                Some(last) => last != running,
                None => true,
            };
            self.inner.send_if(restarted, Message::PortableServiceRunning(running), out);
            let uac = env.uac_running;
            self.inner.send_if(
                p.last_uac != uac && (!uac || !running),
                Message::Uac(uac),
                out,
            );
            let elevated = env.foreground_window_elevated;
            self.inner.send_if(
                p.last_foreground_window_elevated != elevated && (!elevated || !running),
                Message::ForegroundWindowElevated(elevated),
                out,
            );
        }
    }

    /// Looks at the rights of this program, and tells the peer what has changed.
    pub(crate) fn portable_check(&mut self, env: &Env, out: &mut Vec<Action>)
        ensures
            *final(self) == (Connection {
                portable: portable_told(*old(self), *env),
                ..*old(self)
            }),
            final(out)@ == portable_actions(*old(self), *env, old(out)@),
    {
        self.tell_portable(env, out);
        let matters = !self.portable.is_installed && self.purpose.file_transfer.is_none()
            && !self.purpose.port_forward && self.rights.keyboard && self.auth.authorized;
        let p = self.portable;
        self.portable = if matters {
            PortableState {
                last_uac: env.uac_running,
                last_foreground_window_elevated: env.foreground_window_elevated,
                last_running: Some(env.portable_running),
                is_installed: p.is_installed,
            }
        } else {
            p
        };
    }

    /// Takes the peer's wish for more rights.
    pub(crate) fn handle_elevation_request(
        &mut self,
        env: &Env,
        request: ElevationRequest,
        out: &mut Vec<Action>,
    )
        ensures
            *final(self) == if request is Other {
                *old(self)
            } else {
                touched(*old(self), env.now)
            },
            final(out)@ == elevation_actions(*old(self), *env, old(out)@, request),
    {
        match request {
            ElevationRequest::Other => {
                return ;
            },
            _ => {},
        }
        if !self.rights.keyboard {
            out.push(
                Action::Send(Message::ElevationResponse(ElevationOutcome::NoPermission)),
            );
        } else if env.installed || env.portable_running {
            out.push(Action::Send(Message::ElevationResponse(ElevationOutcome::NoNeed)));
        } else {
            out.push(Action::Elevate(request));
        }
        self.update_auto_disconnect_timer(env.now);
    }

    /// What the peer is told when this program was to get more rights.
    pub fn elevation_answer(error: Option<String>) -> (message: Message)
        ensures
            message == Message::ElevationResponse(
                match error {
                    Some(error) => ElevationOutcome::Failed(error),
                    None => ElevationOutcome::Started,
                },
            ),
    {
        match error {
            Some(error) => Message::ElevationResponse(ElevationOutcome::Failed(error)),
            None => Message::ElevationResponse(ElevationOutcome::Started),
        }
    }

    /// Takes the peer's wish for a virtual display, or for an end of it.
    pub(crate) fn toggle_virtual_display(
        &self,
        env: &Env,
        display: i32,
        on: bool,
        out: &mut Vec<Action>,
    )
        ensures
            final(out)@ == virtual_display_actions(*env, old(out)@, display, on),
    {
        if on {
            if !env.virtual_display_supported {
                out.push(Action::Send(Message::MessageBox(Prompt::VirtualDisplayUnsupported)));
            } else {
                out.push(Action::PlugInDisplay { display });
            }
        } else {
            out.push(Action::PlugOutDisplay { display });
        }
    }

    /// What the peer is told when a virtual display was to be added or taken away; nothing where
    /// that worked.
    pub fn virtual_display_answer(on: bool, error: Option<String>) -> (message: Option<Message>)
        ensures
            message == match error {
                Some(error) => Some(
                    Message::MessageBox(
                        if on {
                            Prompt::PlugInFailed { error }
                        } else {
                            Prompt::PlugOutFailed { error }
                        },
                    ),
                ),
                None => None,
            },
    {
        match error {
            Some(error) => {
                let prompt = if on {
                    Prompt::PlugInFailed { error }
                } else {
                    Prompt::PlugOutFailed { error }
                };
                Some(Message::MessageBox(prompt))
            },
            None => None,
        }
    }
}

/// What the peer was told is not told again while nothing changes.
pub proof fn portable_told_once(c: Connection, env: Env, out: Seq<Action>)
    requires
        c.auth.authorized,
        !rights_do_not_matter(c),
    ensures
        portable_actions(Connection { portable: portable_told(c, env), ..c }, env, out)
            == out.push(Action::ToCm(CmData::ShowElevation(!env.portable_running))),
{
}

/// While this program is not installed, the user of this machine is shown the wish for more rights
/// exactly while it lacks them, as long as a peer with the keyboard controls the machine; a peer
/// that is not in hears nothing.
pub proof fn lack_of_rights_is_shown(c: Connection, env: Env, out: Seq<Action>)
    ensures
        ({
            let matters = !c.portable.is_installed && c.purpose.file_transfer is None
                && !c.purpose.port_forward && c.rights.keyboard;
            &&& !matters ==> portable_actions(c, env, out) == out && portable_told(c, env)
                == c.portable
            &&& matters && !c.auth.authorized ==> portable_actions(c, env, out) == out.push(
                Action::ToCm(CmData::ShowElevation(!env.portable_running)),
            ) && portable_told(c, env) == c.portable
            &&& matters && c.auth.authorized ==> {
                let told = portable_told(c, env);
                &&& told.last_uac == env.uac_running
                &&& told.last_foreground_window_elevated == env.foreground_window_elevated
                &&& told.last_running == Some(env.portable_running)
                &&& !told.is_installed
            }
        }),
{
}

/// A peer that is in hears through its channel of each of the three things that has changed: that
/// this program has its rights or not, that the system asks for consent, and that a window with
/// more rights is in front. The last two are told as begun only while this program lacks rights.
pub proof fn changes_of_rights_are_told(c: Connection, env: Env, out: Seq<Action>)
    requires
        !c.portable.is_installed,
        c.purpose.file_transfer is None,
        !c.purpose.port_forward,
        c.rights.keyboard,
        c.auth.authorized,
        c.inner.tx is Some,
    ensures
        ({
            let channel = c.inner.tx->0;
            let p = c.portable;
            let running = env.portable_running;
            let elevated = env.foreground_window_elevated;
            let uac = env.uac_running;
            let o1 = out.push(Action::ToCm(CmData::ShowElevation(!running)));
            let o2 = if p.last_running == Some(running) {
                o1
            } else {
                o1.push(
                    Action::Queue { channel, message: Message::PortableServiceRunning(running) },
                )
            };
            let o3 = if p.last_uac == uac || uac && running {
                o2
            } else {
                o2.push(Action::Queue { channel, message: Message::Uac(uac) })
            };
            let o4 = if p.last_foreground_window_elevated == elevated || elevated && running {
                o3
            } else {
                o3.push(
                    Action::Queue {
                        channel,
                        message: Message::ForegroundWindowElevated(elevated),
                    },
                )
            };
            portable_actions(c, env, out) == o4
        }),
{
}

} // verus!
