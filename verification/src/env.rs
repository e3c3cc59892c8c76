//! What a connection sees of the machine and of the server when it handles an event.

use vstd::prelude::*;

use crate::config::Config;
use crate::message::SupportedEncoding;
use crate::retina::DisplayInfo;
use crate::target::Target;

verus! {

/// How the user of this machine lets peers in.
#[derive(Clone, Copy, Debug, PartialEq, Eq, Structural)]
pub enum ApproveMode {
    Both,
    Password,
    Click,
}

/// Passwords that let peers in.
#[derive(Debug, PartialEq, Eq)]
pub struct Passwords {
    pub approve_mode: ApproveMode,
    /// A password that is in use is not empty.
    pub has_valid_password: bool,
    pub temporary_enabled: bool,
    pub temporary: String,
    pub permanent_enabled: bool,
    pub permanent: String,
}

/// Where reports for the audit log go; a report with an empty address is not sent.
#[derive(Debug, PartialEq, Eq)]
pub struct AuditUrls {
    pub conn: String,
    pub file: String,
    pub alarm: String,
}

/// What drives a display.
#[derive(Clone, Copy, Debug, PartialEq, Eq, Structural)]
pub enum DisplayKind {
    Physical,
    /// A virtual display of this program.
    Virtual,
    /// A virtual display of the Amyuni driver.
    Amyuni,
}

/// A display of this machine.
#[derive(Debug, PartialEq, Eq)]
pub struct DisplayDesc {
    pub name: String,
    pub width: i32,
    pub height: i32,
    pub kind: DisplayKind,
}

/// What a connection sees of the machine and of the server.
pub struct Env {
    pub target: Target,
    pub config: Config,
    /// Milliseconds of a clock that only goes forward.
    pub now: u64,
    /// Milliseconds since 1970; negative before.
    pub epoch_ms: i64,
    /// Seconds since 1970; absent where the clock stands before.
    pub epoch_secs: Option<u64>,
    /// The server that holds the services is there.
    pub server_alive: bool,
    /// The task that talks to the connection manager is there.
    pub cm_alive: bool,
    pub audit: AuditUrls,
    /// The id of this machine.
    pub own_id: String,
    /// The name that the peer logs on under is an address.
    pub username_is_address: bool,
    pub passwords: Passwords,
    /// The number of version 1.2.0.
    pub version_1_2_0: i64,
    /// The number of version 1.2.4.
    pub version_1_2_4: i64,
    /// A peer has turned on privacy mode.
    pub in_privacy_mode: bool,
    pub privacy_mode_supported: bool,
    /// The connection that has turned on privacy mode.
    pub privacy_conn: Option<i32>,
    /// The kind of privacy mode that is on.
    pub privacy_impl: Option<String>,
    /// That kind is the one that a peer would turn on now.
    pub privacy_impl_current: bool,
    pub virtual_display_supported: bool,
    pub default_sound_input: Option<String>,
    /// The displays as the system lists them; absent where it does not.
    pub displays: Option<Vec<DisplayDesc>>,
    /// The displays as the peers know them.
    pub sync_displays: Vec<DisplayInfo>,
    pub primary_display: usize,
    /// Displays that have a video service.
    pub video_services: Vec<usize>,
    /// The number of remote connections.
    pub conn_count: usize,
    /// The service that runs with more rights is there.
    pub portable_running: bool,
    pub uac_running: bool,
    pub foreground_window_elevated: bool,
    pub installed: bool,
    pub root: bool,
    /// Nobody is logged on to this machine.
    pub prelogin: bool,
    /// This process is the server.
    pub is_server: bool,
    /// The main window of the program is open.
    pub main_window_open: bool,
    /// Sessions of the operating system may be shared, and are.
    pub share_rdp: bool,
    /// The session of the operating system that this process is in.
    pub current_sid: Option<u32>,
    /// Sessions of the operating system that are in use.
    pub sessions: Vec<u32>,
    pub headless_allowed: bool,
    pub headless: bool,
    pub bitrate: u32,
    /// Codecs that turned out to work; absent where that is not known.
    pub usable_encoding: Option<SupportedEncoding>,
    /// The modifier that the key of the present key event stands for.
    pub modifier_key: Option<u32>,
    /// Another directory than the default one can be read at first.
    pub first_dir_exists: bool,
}

/// Milliseconds since `then`.
pub open spec fn elapsed(now: u64, then: u64) -> u64 {
    if now > then {
        (now - then) as u64
    } else {
        0
    }
}

/// Milliseconds since `then`.
pub fn elapsed_since(now: u64, then: u64) -> (ms: u64)
    ensures
        ms == elapsed(now, then),
{
    if now > then {
        now - then
    } else {
        0
    }
}

} // verus!
