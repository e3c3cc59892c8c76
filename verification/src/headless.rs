//! Desktop sessions on a Linux machine without a display.

use vstd::prelude::*;

use crate::action::{add_if, push_if, Action};
use crate::env::Env;
use crate::message::OsLogin;

verus! {

/// How long to wait for the connection manager of a new desktop session, in milliseconds.
pub const WAIT_IPC_MS: u64 = 10_000;

/// What is known of the desktop session that a peer may need.
#[derive(Clone, Copy, Debug, PartialEq, Eq)]
pub struct LinuxHeadlessHandle {
    pub is_headless_allowed: bool,
    pub is_headless: bool,
    pub wait_ipc_timeout: u64,
}

/// Credentials with which a desktop session is started; without a user, the one that is there is
/// looked for.
#[derive(Debug, PartialEq, Eq)]
pub struct DesktopLogin {
    pub login: Option<(String, String)>,
}

impl LinuxHeadlessHandle {
    /// What is known of the desktop session at the start of a connection. Only the server looks.
    pub fn new(env: &Env) -> (handle: Self)
        ensures
            handle == (LinuxHeadlessHandle {
                is_headless_allowed: env.is_server && env.headless_allowed,
                is_headless: env.is_server && env.headless_allowed && env.headless,
                wait_ipc_timeout: WAIT_IPC_MS,
            }),
    {
        let is_headless_allowed = env.is_server && env.headless_allowed;
        LinuxHeadlessHandle {
            is_headless_allowed,
            is_headless: is_headless_allowed && env.headless,
            wait_ipc_timeout: WAIT_IPC_MS,
        }
    }

    /// With which credentials a desktop session is to be started; absent where none is.
    pub open spec fn desktop_login(self, os_login: Option<OsLogin>) -> Option<DesktopLogin> {
        if self.is_headless_allowed {
            Some(
                DesktopLogin {
                    login: match os_login {
                        Some(login) => Some((login.username, login.password)),
                        None => None,
                    },
                },
            )
        } else {
            None
        }
    }

    /// With which credentials a desktop session is to be started; absent where none is.
    pub fn try_start_desktop(&self, os_login: &Option<OsLogin>) -> (start: Option<DesktopLogin>)
        ensures
            start == self.desktop_login(*os_login),
    {
        if self.is_headless_allowed {
            let login = match os_login {
                Some(login) => Some((login.username.clone(), login.password.clone())),
                None => None,
            };
            Some(DesktopLogin { login })
        } else {
            None
        }
    }

    /// What waiting for the desktop session asks for.
    pub open spec fn wait_actions(self, out: Seq<Action>) -> Seq<Action> {
        push_if(
            out,
            self.is_headless,
            Action::WaitDesktopReady { timeout_ms: self.wait_ipc_timeout },
        )
    }

    /// Waits for the desktop session and its connection manager.
    pub fn wait_desktop_cm_ready(&self, out: &mut Vec<Action>)
        ensures
            final(out)@ == self.wait_actions(old(out)@),
    {
        add_if(
            out,
            self.is_headless,
            Action::WaitDesktopReady { timeout_ms: self.wait_ipc_timeout },
        );
    }
}

} // verus!
