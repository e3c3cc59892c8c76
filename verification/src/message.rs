//! What the two sides of a connection, and the connection manager, tell each other.

use vstd::prelude::*;

verus! {

/// A value that the connection passes on without looking into it. The embedding program keeps the
/// value under this number.
#[derive(Clone, Copy, Debug, Default, PartialEq, Eq)]
pub struct Handle(pub u64);

/// Number of a channel to the task that writes to the peer.
#[derive(Clone, Copy, Debug, PartialEq, Eq)]
pub struct Sender(pub u64);

/// What a peer's version allows.
#[derive(Clone, Copy, Debug, Default, PartialEq, Eq)]
pub struct PeerVersion {
    /// The version as one number, by which versions are ordered.
    pub number: i64,
    /// The peer can show several displays in windows of their own.
    pub multi_ui_session: bool,
    /// The peer can find out that a file to be overwritten is the same.
    pub overwrite_detection: bool,
}

/// Credentials for a session of the operating system.
#[derive(Debug, PartialEq, Eq)]
pub struct OsLogin {
    pub username: String,
    pub password: String,
}

/// What a peer logs on for.
#[derive(Debug, PartialEq, Eq)]
pub enum LoginKind {
    FileTransfer { dir: String, show_hidden: bool },
    PortForward { host: String, port: i32 },
    Remote,
}

/// A peer's request to log on.
#[derive(Debug, PartialEq, Eq)]
pub struct LoginRequest {
    pub username: String,
    pub password: Vec<u8>,
    pub my_id: String,
    pub my_name: String,
    pub option: Option<OptionMessage>,
    pub kind: LoginKind,
    pub video_ack_required: bool,
    pub session_id: u64,
    pub version: PeerVersion,
    pub os_login: Option<OsLogin>,
}

/// An option that is on, off, or left as it is.
#[derive(Clone, Copy, Debug, PartialEq, Eq, Structural)]
pub enum BoolOption {
    NotSet,
    Yes,
    No,
}

/// An image quality by name.
#[derive(Clone, Copy, Debug, PartialEq, Eq, Structural)]
pub enum ImageQuality {
    NotSet,
    /// A named quality, with the number of the name.
    Named(i32),
}

/// Options that a peer sets. A field of an enumeration is absent where the peer sent a value that
/// this version does not know.
#[derive(Clone, Copy, Debug, PartialEq, Eq)]
pub struct OptionMessage {
    pub image_quality: Option<ImageQuality>,
    pub custom_image_quality: i32,
    pub custom_fps: i32,
    pub supported_decoding: Option<Handle>,
    pub lock_after_session_end: Option<BoolOption>,
    pub show_remote_cursor: Option<BoolOption>,
    pub follow_remote_cursor: Option<BoolOption>,
    pub follow_remote_window: Option<BoolOption>,
    pub disable_audio: Option<BoolOption>,
    pub enable_file_transfer: Option<BoolOption>,
    pub disable_clipboard: Option<BoolOption>,
    pub disable_keyboard: Option<BoolOption>,
    pub privacy_mode: Option<BoolOption>,
    pub block_input: Option<BoolOption>,
}

/// A probe of the network delay.
#[derive(Clone, Copy, Debug, PartialEq, Eq)]
pub struct TestDelay {
    pub time: i64,
    pub from_client: bool,
    pub last_delay: u32,
    pub target_bitrate: u32,
}

/// A mouse event.
#[derive(Clone, Copy, Debug, Default, PartialEq, Eq)]
pub struct MouseEvent {
    pub mask: i32,
    pub x: i32,
    pub y: i32,
    /// The left button was let go.
    pub left_up: bool,
    /// The rest of the event.
    pub rest: Handle,
}

/// Where the cursor is.
#[derive(Clone, Copy, Debug, Default, PartialEq, Eq)]
pub struct CursorPosition {
    pub x: i32,
    pub y: i32,
}

/// One step of a pan gesture, as a phone reports it.
#[derive(Clone, Copy, Debug, PartialEq, Eq)]
pub enum Touch {
    PanStart { x: i32, y: i32 },
    PanUpdate { x: i32, y: i32 },
    PanEnd { x: i32, y: i32 },
}

/// An event of a pointing device other than a mouse.
#[derive(Clone, Copy, Debug, PartialEq, Eq)]
pub struct PointerDeviceEvent {
    pub touch: Option<Touch>,
    pub data: Handle,
}

/// How a key event names its key.
#[derive(Clone, Copy, Debug, PartialEq, Eq, Structural)]
pub enum KeyboardMode {
    Legacy,
    Mapped,
    Translate,
    Auto,
    Unknown,
}

/// What a key event holds.
#[derive(Clone, Copy, Debug, PartialEq, Eq, Structural)]
pub enum KeyContent {
    Chr(u32),
    Unicode,
    Sequence,
    Other,
}

/// A key event.
#[derive(Clone, Copy, Debug, PartialEq, Eq)]
pub struct KeyEvent {
    pub down: bool,
    pub press: bool,
    pub mode: KeyboardMode,
    pub content: KeyContent,
    /// The key is a modifier such as Shift.
    pub modifier: bool,
    /// The key is Enter.
    pub enter: bool,
    /// The rest of the event.
    pub rest: Handle,
}

/// A file in a transfer.
#[derive(Debug, PartialEq, Eq)]
pub struct FileEntry {
    pub name: String,
    pub size: u64,
    pub modified_time: u64,
}

/// A file that a peer removes.
#[derive(Debug, PartialEq, Eq)]
pub struct FileRemoveFile {
    pub id: i32,
    pub path: String,
    pub file_num: i32,
}

/// A directory that a peer removes.
#[derive(Debug, PartialEq, Eq)]
pub struct FileRemoveDir {
    pub id: i32,
    pub path: String,
    pub recursive: bool,
}

/// A peer's request on files.
#[derive(Debug, PartialEq, Eq)]
pub enum FileAction {
    ReadDir { path: String, include_hidden: bool },
    AllFiles { id: i32, path: String, include_hidden: bool },
    Send { id: i32, path: String, file_num: i32, include_hidden: bool },
    Receive { id: i32, path: String, files: Vec<FileEntry>, file_num: i32, total_size: u64 },
    RemoveDir(FileRemoveDir),
    RemoveFile(FileRemoveFile),
    Create { id: i32, path: String },
    Cancel { id: i32 },
    SendConfirm { id: i32, data: Handle },
    Other,
}

/// A peer's answer in a file transfer.
#[derive(Debug, PartialEq, Eq)]
pub enum FileResponse {
    Block { id: i32, file_num: i32, data: Handle, compressed: bool },
    Done { id: i32, file_num: i32 },
    Digest { id: i32, file_num: i32, file_size: u64, last_modified: u64 },
    Error { id: i32, file_num: i32, error: String },
    Other,
}

/// Width and height of a display.
#[derive(Clone, Copy, Debug, PartialEq, Eq)]
pub struct Resolution {
    pub width: i32,
    pub height: i32,
}

/// How a peer asks for more rights on Windows.
#[derive(Debug, PartialEq, Eq)]
pub enum ElevationRequest {
    Direct,
    Logon { username: String, password: String },
    Other,
}

/// A peer's other requests.
#[derive(Debug, PartialEq, Eq)]
pub enum Misc {
    SwitchDisplay { display: i32, width: i32, height: i32 },
    CaptureDisplays { add: Vec<usize>, sub: Vec<usize>, set: Vec<usize> },
    ToggleVirtualDisplay { display: i32, on: bool },
    TogglePrivacyMode { impl_key: String, on: bool },
    ChatMessage { text: String },
    Option(OptionMessage),
    RefreshVideo(bool),
    RefreshVideoDisplay(i32),
    VideoReceived,
    CloseReason,
    RestartRemoteDevice,
    ElevationRequest(ElevationRequest),
    AudioFormat(Handle),
    SwitchSidesRequest { uuid: Vec<u8> },
    ChangeResolution(Resolution),
    ChangeDisplayResolution { display: i32, resolution: Resolution },
    PluginRequest { id: String, content: Handle },
    AutoAdjustFps(u32),
    ClientRecordStatus(bool),
    SelectedSid(u32),
    MessageQuery { switch_display: i32 },
    Other,
}

/// What a peer sends.
#[derive(Debug, PartialEq, Eq)]
pub enum PeerMessage {
    LoginRequest(LoginRequest),
    Auth2fa { code: String },
    TestDelay(TestDelay),
    SwitchSidesResponse { uuid: Vec<u8>, lr: Option<LoginRequest> },
    MouseEvent(MouseEvent),
    PointerDeviceEvent(PointerDeviceEvent),
    KeyEvent(KeyEvent),
    Clipboard(Handle),
    /// A message on files in the clipboard; absent where it holds none that this side knows.
    Cliprdr(Option<Handle>),
    FileAction(FileAction),
    FileResponse(FileResponse),
    Misc(Misc),
    AudioFrame(Handle),
    VoiceCallRequest { req_timestamp: i64, is_connect: bool },
    VoiceCallResponse,
    Other,
}

/// Why a peer may not log on, or not yet.
#[derive(Debug, PartialEq, Eq)]
pub enum LoginError {
    PrivacyModeOn,
    IpBlocked,
    MainWindowNotOpen,
    Require2fa,
    Wrong2fa,
    NoFileTransferPermission,
    NoTunnelPermission,
    /// The address that was asked for could not be reached.
    ForwardUnreachable { addr: String },
    /// The remote desktop service of this machine could not be reached.
    RdpUnreachable,
    Offline,
    NoPasswordAccess,
    NotAllowed,
    PasswordWrong,
    TooManyWrongAttempts,
    TryOneMinuteLater,
    DesktopSessionNotReady,
    DesktopSessionNotReadyPasswordEmpty,
    DesktopSessionNotReadyPasswordWrong,
    LoginScreenWayland,
    UnsupportedDisplayServer { kind: String },
    /// A text that another part of the program wrote.
    Other(String),
}

/// A detail of a notification.
#[derive(Debug, PartialEq, Eq)]
pub enum Details {
    Empty,
    NoPermission,
    NotSupported,
    PrivacyUnsupported,
    Other(String),
}

/// What became of a change of privacy mode.
#[derive(Clone, Copy, Debug, PartialEq, Eq, Structural)]
pub enum PrivacyModeState {
    NotSupported,
    OnSucceeded,
    OnFailed,
    OnFailedPlugin,
    OffSucceeded,
    OffByPeer,
    OffFailed,
    OffUnknown,
}

/// What became of a change of input blocking.
#[derive(Clone, Copy, Debug, PartialEq, Eq, Structural)]
pub enum BlockInputState {
    OnFailed,
    OffFailed,
}

/// A right that the user of this machine gives a peer or takes back.
#[derive(Clone, Copy, Debug, PartialEq, Eq, Structural)]
pub enum Permission {
    Keyboard,
    Clipboard,
    Audio,
    File,
    Restart,
    Recording,
    BlockInput,
}

/// Why the server closes a connection.
#[derive(Debug, PartialEq, Eq)]
pub enum CloseReason {
    ClosedByPeer,
    ClosedByWebConsole,
    Inactivity,
}

/// Codecs that can encode with full chroma.
#[derive(Clone, Copy, Debug, Default, PartialEq, Eq)]
pub struct CodecAbility {
    pub vp8: bool,
    pub vp9: bool,
    pub av1: bool,
    pub h264: bool,
    pub h265: bool,
}

/// Codecs that this side can encode with.
#[derive(Clone, Copy, Debug, Default, PartialEq, Eq)]
pub struct SupportedEncoding {
    pub vp8: bool,
    pub av1: bool,
    pub h264: bool,
    pub h265: bool,
    pub i444: CodecAbility,
}

/// A prompt that the peer shows.
#[derive(Debug, PartialEq, Eq)]
pub enum Prompt {
    SwitchDisplayElevated,
    CaptureDisplayElevated,
    VirtualDisplayUnsupported,
    PlugInFailed { error: String },
    PlugOutFailed { error: String },
}

/// What came of a peer's wish for more rights.
#[derive(Debug, PartialEq, Eq)]
pub enum ElevationOutcome {
    NoPermission,
    NoNeed,
    Started,
    Failed(String),
}

/// A field that tells a peer about this system; absent fields are left out.
#[derive(Debug, PartialEq, Eq)]
pub struct PlatformAdditions {
    pub is_wayland: bool,
    pub headless: bool,
    pub is_installed: Option<bool>,
    /// Further fields on virtual displays.
    pub virtual_displays: Option<Handle>,
    pub supported_privacy_mode_impl: Option<Handle>,
    pub has_file_clipboard: bool,
}

/// What this side tells a peer about itself when the peer has logged on.
#[derive(Debug, PartialEq, Eq)]
pub struct PeerInfo {
    /// The user of this machine; absent where nobody is logged on.
    pub username: Option<String>,
    pub hostname: String,
    pub platform: String,
    pub platform_additions: PlatformAdditions,
    pub sas_enabled: bool,
    /// Absent where features are not told.
    pub privacy_mode: Option<bool>,
    pub encoding: Option<SupportedEncoding>,
    pub resolutions: Option<Handle>,
    pub displays: Option<Handle>,
    pub current_display: usize,
    /// The sessions of Windows that the peer may choose from, and the one it is in.
    pub windows_sessions: Option<(Handle, u32)>,
}

/// The answer to a request to log on.
#[derive(Debug, PartialEq, Eq)]
pub enum LoginResponse {
    Error(LoginError),
    PeerInfo(PeerInfo),
}

/// What this side sends to the peer.
#[derive(Debug, PartialEq, Eq)]
#[allow(inconsistent_fields)]
pub enum Message {
    Hash { salt: String, challenge: String },
    LoginResponse(LoginResponse),
    TestDelay(TestDelay),
    Permission { permission: Permission, enabled: bool },
    ChatMessage { text: String },
    /// What became of a change of privacy mode, with the key of its kind where that is known.
    PrivacyMode { state: PrivacyModeState, details: Details, impl_key: Option<String> },
    BlockInput { state: BlockInputState, details: Details },
    SwitchBack,
    VoiceCallRequest { is_connect: bool },
    VoiceCallResponse { req_timestamp: i64, accepted: bool },
    CloseReason(CloseReason),
    ElevationResponse(ElevationOutcome),
    MessageBox(Prompt),
    FollowCurrentDisplay(i32),
    SupportedEncoding(SupportedEncoding),
    PortableServiceRunning(bool),
    Uac(bool),
    ForegroundWindowElevated(bool),
    CursorPosition(CursorPosition),
    PeerInfo(Handle),
    StopService,
    SwitchDisplay(Handle),
    VideoFrame(Handle),
    AudioFrame(Handle),
    FileError { id: i32, error: String, file_num: i32 },
    FileDir { id: i32, path: String, files: Handle },
    ClipboardFile(Handle),
    Raw(Handle),
    Other(Handle),
}

impl Message {
    /// The cursor position that the message tells; the origin where it tells none.
    pub open spec fn cursor(self) -> CursorPosition {
        match self {
            Message::CursorPosition(pos) => pos,
            _ => CursorPosition { x: 0, y: 0 },
        }
    }

    /// The cursor position that the message tells; the origin where it tells none.
    pub fn cursor_position(&self) -> (pos: CursorPosition)
        ensures
            pos == self.cursor(),
    {
        match self {
            Message::CursorPosition(pos) => *pos,
            _ => CursorPosition { x: 0, y: 0 },
        }
    }
}

} // verus!
