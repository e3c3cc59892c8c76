//! What a connection asks of the program around it.

use vstd::prelude::*;

use crate::audit::{AlarmAudit, ConnAudit, FileAudit};
use crate::message::{Handle, Message, MouseEvent, PointerDeviceEvent, KeyEvent, Sender, FileEntry};
use crate::registry::WakeLockCounts;

verus! {

/// A service of the server that a connection can subscribe to.
#[derive(Clone, Copy, Debug, PartialEq, Eq, Structural)]
pub enum Service {
    Cursor,
    CursorPosition,
    WindowFocus,
    Clipboard,
    Audio,
    /// The pictures of one display.
    Video(usize),
}

/// Services that a new subscriber is not subscribed to.
#[derive(Clone, Copy, Debug, PartialEq, Eq, Structural)]
pub struct NoPermissions {
    pub cursor: bool,
    pub cursor_position: bool,
    pub window_focus: bool,
    pub clipboard: bool,
    pub audio: bool,
}

/// A wish on the quality of the pictures.
#[derive(Clone, Copy, Debug, PartialEq, Eq, Structural)]
pub enum QosUpdate {
    NetworkDelay(u32),
    ImageQuality(i32),
    CustomFps(u32),
    AutoAdjustFps(u32),
    Record(bool),
    /// Milliseconds since the peer last answered a delay probe.
    DelayResponseElapsed(u64),
    ConnectionClose,
}

/// A change of what the encoder has to regard.
#[derive(Clone, Copy, Debug, PartialEq, Eq)]
pub enum EncoderUpdate {
    Update(Handle),
    NewOnlyVp9,
    Remove,
}

/// A record of a peer's removal or creation of a file or directory.
#[derive(Debug, PartialEq, Eq)]
pub struct FileActionLog {
    pub id: i32,
    pub conn_id: i32,
    pub path: String,
    pub dir: bool,
}

/// What the connection manager shows of file transfers.
#[derive(Debug, PartialEq, Eq)]
pub enum TransferLog {
    Remove(FileActionLog),
    CreateDir(FileActionLog),
    /// All transfers to the peer.
    AllJobs,
    /// A transfer that the peer cancelled.
    CancelledJob { id: i32 },
    /// A report on transfers that another part of the program wrote.
    Report(Handle),
}

/// A request to the process that touches the files.
#[derive(Debug, PartialEq, Eq)]
pub enum Fs {
    /// Without a directory, the default one is read.
    ReadDir { dir: Option<String>, include_hidden: bool },
    RemoveDir { path: String, id: i32, recursive: bool },
    RemoveFile { path: String, id: i32, file_num: i32 },
    CreateDir { path: String, id: i32 },
    /// Each file counts with its name and its time of change.
    NewWrite {
        path: String,
        id: i32,
        file_num: i32,
        files: Vec<FileEntry>,
        overwrite_detection: bool,
        total_size: u64,
        conn_id: i32,
    },
    CancelWrite { id: i32 },
    WriteBlock { id: i32, file_num: i32, data: Handle, compressed: bool },
    WriteDone { id: i32, file_num: i32 },
    WriteError { id: i32, file_num: i32, err: String },
    CheckDigest { id: i32, file_num: i32, file_size: u64, last_modified: u64, is_upload: bool },
}

/// What the connection manager is told of a peer that logs on.
#[derive(Debug, PartialEq, Eq)]
pub struct CmLogin {
    pub id: i32,
    pub is_file_transfer: bool,
    pub port_forward: String,
    pub peer_id: String,
    pub name: String,
    pub authorized: bool,
    pub keyboard: bool,
    pub clipboard: bool,
    pub audio: bool,
    pub file: bool,
    pub file_transfer_enabled: bool,
    pub restart: bool,
    pub recording: bool,
    pub block_input: bool,
    pub from_switch: bool,
}

/// What the connection tells the connection manager.
#[derive(Debug, PartialEq, Eq)]
pub enum CmData {
    Login(CmLogin),
    ChatMessage { text: String },
    Fs(Fs),
    ClipboardFile(Handle),
    ClipboardFileEnabled(bool),
    FileTransferLog(TransferLog),
    VoiceCallIncoming,
    StartVoiceCall,
    CloseVoiceCall,
    ShowElevation(bool),
    Test,
    Disconnected,
    Close,
}

/// An event for the thread that plays input on this machine.
#[derive(Debug, PartialEq, Eq)]
#[allow(inconsistent_fields)]
pub enum MessageInput {
    Mouse { event: MouseEvent, conn_id: i32 },
    Key { event: KeyEvent, press: bool },
    Pointer { event: PointerDeviceEvent, conn_id: i32 },
    BlockOn,
    BlockOff,
    BlockOnPlugin { peer: String },
    BlockOffPlugin { peer: String },
}

/// A point of a phone's screen that input goes to.
#[derive(Clone, Copy, Debug, PartialEq, Eq)]
pub enum PhonePointer {
    Mouse { mask: i32, x: i32, y: i32 },
    /// One step of a touch, with the number of its kind.
    Touch { kind: i32, x: i32, y: i32 },
}

/// How often transfers are looked after.
#[derive(Clone, Copy, Debug, PartialEq, Eq, Structural)]
pub enum FileTimer {
    EveryMillisecond,
    EveryThirtySeconds,
}

/// One thing to do.
#[derive(Debug, PartialEq, Eq)]
#[allow(inconsistent_fields)]
pub enum Action {
    /// Send to the peer; a failure is not looked at.
    Send(Message),
    /// Send to the peer; a failure ends the connection.
    SendOrClose(Message),
    /// Hand to the task that writes to the peer.
    Queue { channel: Sender, message: Message },
    ToCm(CmData),
    Input(MessageInput),
    PhonePointer(PhonePointer),
    /// Play a key on a phone, with the modifiers that are pressed.
    PhoneKey { event: KeyEvent, modifiers: Vec<u32> },
    /// Let go of a key that the peer still presses.
    ReleaseKey { key: u32 },
    Sleep { ms: u64 },
    Subscribe { service: Service, on: bool },
    /// Start the cursor record, add the service of the primary display, and add the connection.
    AddConnection { noperms: NoPermissions },
    AddVideoService(usize),
    /// Change which displays are captured: start with those listed where `start` holds, stop with
    /// the others where `stop` holds.
    CaptureDisplays { displays: Vec<usize>, start: bool, stop: bool },
    /// Ask for a new picture of one display, or of all.
    RefreshVideo { display: Option<usize> },
    NotifyFrameFetched { at: Option<u64> },
    /// Tell the peer what is shown on a display, if anything is known of it.
    SendDisplayChanged { display: usize },
    Qos { id: i32, update: QosUpdate },
    Encoder { id: i32, update: EncoderUpdate },
    ConnAudit(ConnAudit),
    FileAudit(FileAudit),
    AlarmAudit(AlarmAudit),
    WakeLock(WakeLockCounts),
    AddShutdownHook,
    RestoreWallpaper,
    ResetResolutions,
    ResetVirtualDisplays,
    CloseWaylandSession,
    RemoveWallpaper,
    ActivateScreen,
    SetupRdpInput,
    StartCmIpc,
    /// Tell the desktop that the peer is in, and wait for the connection manager.
    WaitDesktopReady { timeout_ms: u64 },
    SetFileTimer(FileTimer),
    HandleReadJobs,
    StartReadJob { id: i32, path: String, file_num: i32, include_hidden: bool, overwrite_detection: bool },
    ListAllFiles { id: i32, path: String, include_hidden: bool },
    ConfirmJob { id: i32, data: Handle },
    /// Forget a transfer to the peer.
    DropReadJob { id: i32 },
    UpdateClipboard(Handle),
    LockScreen,
    ForceReboot,
    Reboot,
    /// Turn privacy mode on for this connection, in the kind that is asked for.
    TurnOnPrivacy { impl_key: Option<String> },
    /// Look whether privacy mode works on a display.
    CheckPrivacyMode { display: usize, timeout_ms: u64, impl_key: Option<String> },
    /// Turn privacy mode off on behalf of a connection; tell the peer where `answer` holds.
    TurnOffPrivacy { conn: Option<i32>, answer: bool },
    PlugInDisplay { display: i32 },
    PlugOutDisplay { display: i32 },
    Elevate(crate::message::ElevationRequest),
    /// Start this program again, as the side that controls the peer.
    SwitchSides { args: Vec<String> },
    ChangeVirtualResolution { name: String, width: i32, height: i32 },
    RecordResolution { name: String, original: (i32, i32), changed: (i32, i32) },
    ChangeResolution { name: String, width: i32, height: i32 },
    StartAudio(Handle),
    PlayAudio(Handle),
    SetSoundInput(String),
    PluginEvent { id: String, peer: String, content: Handle },
    PluginConnClosed { peer: String },
    ConnectUserSession(u32),
    StartPortableService,
    UpdateTemporaryPassword,
    /// Take the connection out of the server, and end the record of the cursor where that was the
    /// last one.
    RemoveConnection,
    SetSendTimeout { ms: u64 },
    StartInputThread,
    /// Start the channel to the connection manager of a phone.
    StartChannel,
    CloseForward,
}

/// `out`, and then `action` where `cond` holds.
pub open spec fn push_if(out: Seq<Action>, cond: bool, action: Action) -> Seq<Action> {
    if cond {
        out.push(action)
    } else {
        out
    }
}

/// Adds `action` where `cond` holds.
pub(crate) fn add_if(out: &mut Vec<Action>, cond: bool, action: Action)
    ensures
        final(out)@ == push_if(old(out)@, cond, action),
{
    if cond {
        out.push(action);
    }
}

/// What is asked for after one more conditional action.
pub(crate) proof fn lemma_push_if_contains(
    out: Seq<Action>,
    cond: bool,
    action: Action,
    x: Action,
)
    ensures
        push_if(out, cond, action).contains(x) <==> out.contains(x) || cond && action == x,
{
    if cond {
        let longer = out.push(action);
        if out.contains(x) {
            let i = choose|i: int| 0 <= i < out.len() && out[i] == x;
            assert(longer[i] == x);
        }
        if action == x {
            assert(longer[out.len() as int] == x);
        }
        if longer.contains(x) && action != x {
            let i = choose|i: int| 0 <= i < longer.len() && longer[i] == x;
            assert(out[i] == x);
        }
    }
}

} // verus!
