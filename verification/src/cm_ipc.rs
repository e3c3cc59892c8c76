//! The task that talks to the connection manager, the program in which the user of this machine
//! sees who is connected.

use vstd::prelude::*;

use crate::action::{CmData, Fs};
use crate::env::Env;
use crate::message::Handle;
use crate::target::Os;
use crate::text::{is_i32, trim, trimmed, writes_i32};

verus! {

/// How often the start of the connection manager as another user is tried.
pub const MAX_LAUNCHES: u32 = 10;

/// How often a connection to a new connection manager is tried.
pub const MAX_CONNECTS: u32 = 20;

/// How the connection manager is started.
#[derive(Clone, Copy, Debug, PartialEq, Eq, Structural)]
pub enum CmArgs {
    Cm,
    /// Without a window.
    CmNoUi,
}

impl CmArgs {
    /// The argument of the program.
    pub fn text(&self) -> (text: String)
        ensures
            text@ == match self {
                CmArgs::Cm => "--cm"@,
                CmArgs::CmNoUi => "--cm-no-ui"@,
            },
    {
        match self {
            CmArgs::Cm => "--cm".to_owned(),
            CmArgs::CmNoUi => "--cm-no-ui".to_owned(),
        }
    }
}

/// How far the task has got.
#[derive(Debug, PartialEq, Eq)]
pub enum IpcState {
    /// Nobody is logged on to this machine.
    WaitLogon,
    FirstConnect,
    /// There is no desktop session yet.
    WaitUser,
    WaitUid { username: String },
    /// The connection manager is started as another user, for the nth time.
    RunAsUser { tries: u32, user: Option<(String, String)> },
    RunMe,
    /// A new connection manager is connected to, for the nth time.
    Reconnect { tries: u32 },
    Serving,
    Ended,
}

/// What a command or a start gives.
#[derive(Debug, PartialEq, Eq)]
pub enum IpcEvent {
    Prelogin(bool),
    Connected(bool),
    Username(String),
    IdPrinted(String),
    IdFailed(String),
    /// The connection manager was started, as a child of this program where `child` holds.
    Launched { child: bool },
    LaunchFailed(String),
}

/// Why the task ends.
#[derive(Debug, PartialEq, Eq)]
pub enum IpcError {
    InvalidUsername { username: String },
    NoManager,
    /// The connection is gone.
    Expected,
    Other(String),
}

impl IpcError {
    /// The error in words.
    pub open spec fn words(self) -> Seq<char> {
        match self {
            IpcError::InvalidUsername { username } => "Invalid username "@ + username@,
            IpcError::NoManager => "Failed to connect to connection manager"@,
            IpcError::Expected => "expected"@,
            IpcError::Other(text) => text@,
        }
    }

    /// The error in words.
    pub fn text(&self) -> (text: String)
        ensures
            text@ == self.words(),
    {
        match self {
            IpcError::InvalidUsername { username } => {
                let mut text = "Invalid username ".to_owned();
                text.append(username.as_str());
                text
            },
            IpcError::NoManager => "Failed to connect to connection manager".to_owned(),
            IpcError::Expected => "expected".to_owned(),
            IpcError::Other(text) => text.clone(),
        }
    }
}

/// What the task does.
#[derive(Debug, PartialEq, Eq)]
pub enum IpcAction {
    Sleep { ms: u64 },
    /// Look whether somebody is logged on to this machine.
    CheckPrelogin,
    Connect { timeout_ms: u64 },
    /// Look whose the desktop session is.
    LookUpUser,
    WaitDesktop { timeout_ms: u64 },
    /// Ask the system for the number of a user.
    RunId { username: String },
    RunAsUser { args: CmArgs, user: Option<(String, String)> },
    RunMe { args: CmArgs },
    /// Keep the started program among the children of this one.
    KeepChild,
    /// Tell the connection that the connection manager is there.
    TellReady,
    Serve,
    Fail(IpcError),
}

/// What a step of the task comes to: where it stands then, and what it does.
pub struct IpcStep {
    pub state: IpcState,
    pub actions: Seq<IpcAction>,
}

/// How the connection manager is started for a user.
pub open spec fn cm_args(user: Option<(String, String)>) -> CmArgs {
    if user is Some {
        CmArgs::CmNoUi
    } else {
        CmArgs::Cm
    }
}

/// The connection manager is started.
pub open spec fn launch(env: Env, user: Option<(String, String)>) -> IpcStep {
    if env.root {
        IpcStep {
            state: IpcState::RunAsUser { tries: 1, user },
            actions: seq![IpcAction::RunAsUser { args: cm_args(user), user }],
        }
    } else {
        IpcStep {
            state: IpcState::RunMe,
            actions: seq![IpcAction::RunMe { args: cm_args(user) }],
        }
    }
}

/// The first attempt to connect to a new connection manager.
pub open spec fn reconnect(child: bool) -> IpcStep {
    IpcStep {
        state: IpcState::Reconnect { tries: 1 },
        actions: (if child {
            seq![IpcAction::KeepChild]
        } else {
            seq![]
        }) + seq![IpcAction::Sleep { ms: 300 }, IpcAction::Connect { timeout_ms: 1_000 }],
    }
}

/// The connection manager is there.
pub open spec fn serve() -> IpcStep {
    IpcStep {
        state: IpcState::Serving,
        actions: seq![IpcAction::TellReady, IpcAction::Serve],
    }
}

/// The task ends.
pub open spec fn give_up(error: IpcError) -> IpcStep {
    IpcStep { state: IpcState::Ended, actions: seq![IpcAction::Fail(error)] }
}

/// The system gave a number for a user.
pub open spec fn is_uid(printed: Seq<char>) -> bool {
    trimmed(printed).len() > 0 && writes_i32(trimmed(printed))
}

/// What an event comes to. `uid` is the number that the system gave for a user.
pub open spec fn ipc_step(state: IpcState, env: Env, event: IpcEvent, uid: String) -> IpcStep {
    let stay = IpcStep { state, actions: seq![] };
    match (state, event) {
        (IpcState::WaitLogon, IpcEvent::Prelogin(prelogin)) => if prelogin {
            IpcStep {
                state,
                actions: seq![IpcAction::Sleep { ms: 1_000 }, IpcAction::CheckPrelogin],
            }
        } else {
            IpcStep {
                state: IpcState::FirstConnect,
                actions: seq![IpcAction::Connect { timeout_ms: 1_000 }],
            }
        },
        (IpcState::FirstConnect, IpcEvent::Connected(connected)) => if connected {
            serve()
        } else if env.target.os == Os::Linux && env.headless_allowed && env.headless {
            IpcStep { state: IpcState::WaitUser, actions: seq![IpcAction::LookUpUser] }
        } else {
            launch(env, None)
        },
        (IpcState::WaitUser, IpcEvent::Username(username)) => if username@.len() == 0 {
            IpcStep {
                state,
                actions: seq![
                    IpcAction::WaitDesktop { timeout_ms: 1_000 },
                    IpcAction::LookUpUser,
                ],
            }
        } else {
            IpcStep {
                state: IpcState::WaitUid { username },
                actions: seq![IpcAction::RunId { username }],
            }
        },
        (IpcState::WaitUid { username }, IpcEvent::IdPrinted(printed)) => if is_uid(printed@) {
            launch(env, Some((uid, username)))
        } else {
            give_up(IpcError::InvalidUsername { username })
        },
        (IpcState::WaitUid { .. }, IpcEvent::IdFailed(error)) => give_up(IpcError::Other(error)),
        (IpcState::RunAsUser { .. }, IpcEvent::Launched { child }) => reconnect(child),
        (IpcState::RunAsUser { tries, user }, IpcEvent::LaunchFailed(error)) => if tries
            < MAX_LAUNCHES {
            IpcStep {
                state: IpcState::RunAsUser { tries: (tries + 1) as u32, user },
                actions: seq![
                    IpcAction::Sleep { ms: 1_000 },
                    IpcAction::RunAsUser { args: cm_args(user), user },
                ],
            }
        } else {
            IpcStep {
                state: IpcState::Ended,
                actions: seq![
                    IpcAction::Sleep { ms: 1_000 },
                    IpcAction::Fail(IpcError::Other(error)),
                ],
            }
        },
        (IpcState::RunMe, IpcEvent::Launched { child }) => reconnect(child),
        (IpcState::RunMe, IpcEvent::LaunchFailed(error)) => give_up(IpcError::Other(error)),
        (IpcState::Reconnect { tries }, IpcEvent::Connected(connected)) => if connected {
            serve()
        } else if tries < MAX_CONNECTS {
            IpcStep {
                state: IpcState::Reconnect { tries: (tries + 1) as u32 },
                actions: seq![
                    IpcAction::Sleep { ms: 300 },
                    IpcAction::Connect { timeout_ms: 1_000 },
                ],
            }
        } else {
            give_up(IpcError::NoManager)
        },
        _ => stay,
    }
}

/// A copy of the number and the name of a user.
fn copy_user(user: &Option<(String, String)>) -> (copy: Option<(String, String)>)
    ensures
        copy == *user,
{
    match user {
        Some((uid, name)) => Some((uid.clone(), name.clone())),
        None => None,
    }
}

/// How the connection manager is started for a user.
fn args_for(user: &Option<(String, String)>) -> (args: CmArgs)
    ensures
        args == cm_args(*user),
{
    match user {
        Some(_) => CmArgs::CmNoUi,
        None => CmArgs::Cm,
    }
}

/// Starts the connection manager.
fn launched(env: &Env, user: Option<(String, String)>) -> (step: (IpcState, Vec<IpcAction>))
    ensures
        (IpcStep { state: step.0, actions: step.1@ }) == launch(*env, user),
{
    let args = args_for(&user);
    let mut out: Vec<IpcAction> = Vec::new();
    if env.root {
        out.push(IpcAction::RunAsUser { args, user: copy_user(&user) });
        assert(out@ =~= launch(*env, user).actions);
        (IpcState::RunAsUser { tries: 1, user }, out)
    } else {
        out.push(IpcAction::RunMe { args });
        assert(out@ =~= launch(*env, user).actions);
        (IpcState::RunMe, out)
    }
}

/// Connects to a new connection manager.
fn reconnected(child: bool) -> (step: (IpcState, Vec<IpcAction>))
    ensures
        (IpcStep { state: step.0, actions: step.1@ }) == reconnect(child),
{
    let mut out: Vec<IpcAction> = Vec::new();
    if child {
        out.push(IpcAction::KeepChild);
    }
    out.push(IpcAction::Sleep { ms: 300 });
    out.push(IpcAction::Connect { timeout_ms: 1_000 });
    assert(out@ =~= reconnect(child).actions);
    (IpcState::Reconnect { tries: 1 }, out)
}

/// Ends the task.
fn given_up(error: IpcError) -> (step: (IpcState, Vec<IpcAction>))
    ensures
        (IpcStep { state: step.0, actions: step.1@ }) == give_up(error),
{
    let mut out: Vec<IpcAction> = Vec::new();
    out.push(IpcAction::Fail(error));
    assert(out@ =~= give_up(error).actions);
    (IpcState::Ended, out)
}

/// Talks to the connection manager.
fn served() -> (step: (IpcState, Vec<IpcAction>))
    ensures
        (IpcStep { state: step.0, actions: step.1@ }) == serve(),
{
    let mut out: Vec<IpcAction> = Vec::new();
    out.push(IpcAction::TellReady);
    out.push(IpcAction::Serve);
    assert(out@ =~= serve().actions);
    (IpcState::Serving, out)
}

/// Two actions.
fn both(first: IpcAction, second: IpcAction) -> (out: Vec<IpcAction>)
    ensures
        out@ == seq![first, second],
{
    let mut out: Vec<IpcAction> = Vec::new();
    out.push(first);
    out.push(second);
    assert(out@ =~= seq![first, second]);
    out
}

/// One action.
fn only(action: IpcAction) -> (out: Vec<IpcAction>)
    ensures
        out@ == seq![action],
{
    let mut out: Vec<IpcAction> = Vec::new();
    out.push(action);
    assert(out@ =~= seq![action]);
    out
}

impl IpcState {
    /// Takes what the system printed as the number of a user.
    fn on_user_event(
        username: String,
        env: &Env,
        printed: String,
    ) -> (step: (IpcState, Vec<IpcAction>))
        ensures
            exists|uid: String| #[trigger]
                uid@ == trimmed(printed@) && (IpcStep { state: step.0, actions: step.1@ })
                    == ipc_step(
                    IpcState::WaitUid { username },
                    *env,
                    IpcEvent::IdPrinted(printed),
                    uid,
                ),
    {
        let inner = trim(printed.as_str());
        let uid = inner.to_owned();
        assert(uid@ == trimmed(printed@));
        if inner.is_empty() || !is_i32(inner) {
            given_up(IpcError::InvalidUsername { username })
        } else {
            launched(env, Some((uid, username)))
        }
    }

    /// Takes up that a start as another user has failed.
    fn on_launch_failed(
        tries: u32,
        user: Option<(String, String)>,
        env: &Env,
        error: String,
    ) -> (step: (IpcState, Vec<IpcAction>))
        ensures
            forall|uid: String|
                (IpcStep { state: step.0, actions: step.1@ }) == #[trigger] ipc_step(
                    IpcState::RunAsUser { tries, user },
                    *env,
                    IpcEvent::LaunchFailed(error),
                    uid,
                ),
    {
        let pause = IpcAction::Sleep { ms: 1_000 };
        if tries < MAX_LAUNCHES {
            let args = args_for(&user);
            let again = IpcAction::RunAsUser { args, user: copy_user(&user) };
            (IpcState::RunAsUser { tries: tries + 1, user }, both(pause, again))
        } else {
            (IpcState::Ended, both(pause, IpcAction::Fail(IpcError::Other(error))))
        }
    }

    /// Takes an event: gives the next state and what is to be done.
    pub fn on_event(self, env: &Env, event: IpcEvent) -> (step: (IpcState, Vec<IpcAction>))
        ensures
            exists|uid: String|
                (self is WaitUid ==> (event matches IpcEvent::IdPrinted(printed) ==> uid@
                    == trimmed(printed@))) && (IpcStep { state: step.0, actions: step.1@ }) == #[trigger] ipc_step(
                    self,
                    *env,
                    event,
                    uid,
                ),
    {
        let ghost some: String = arbitrary();
        let ghost state = self;
        let step = match (self, event) {
            (IpcState::WaitLogon, IpcEvent::Prelogin(prelogin)) => {
                if prelogin {
                    (
                        IpcState::WaitLogon,
                        both(IpcAction::Sleep { ms: 1_000 }, IpcAction::CheckPrelogin),
                    )
                } else {
                    (IpcState::FirstConnect, only(IpcAction::Connect { timeout_ms: 1_000 }))
                }
            },
            (IpcState::FirstConnect, IpcEvent::Connected(connected)) => {
                if connected {
                    served()
                } else if env.target.os == Os::Linux && env.headless_allowed && env.headless {
                    (IpcState::WaitUser, only(IpcAction::LookUpUser))
                } else {
                    launched(env, None)
                }
            },
            (IpcState::WaitUser, IpcEvent::Username(username)) => {
                if username.as_str().is_empty() {
                    (
                        IpcState::WaitUser,
                        both(
                            IpcAction::WaitDesktop { timeout_ms: 1_000 },
                            IpcAction::LookUpUser,
                        ),
                    )
                } else {
                    let ask = IpcAction::RunId { username: username.clone() };
                    (IpcState::WaitUid { username }, only(ask))
                }
            },
            (IpcState::WaitUid { username }, IpcEvent::IdPrinted(printed)) => {
                return Self::on_user_event(username, env, printed);
            },
            (IpcState::WaitUid { .. }, IpcEvent::IdFailed(error)) => {
                given_up(IpcError::Other(error))
            },
            (IpcState::RunAsUser { .. }, IpcEvent::Launched { child }) => reconnected(child),
            (IpcState::RunAsUser { tries, user }, IpcEvent::LaunchFailed(error)) => {
                Self::on_launch_failed(tries, user, env, error)
            },
            (IpcState::RunMe, IpcEvent::Launched { child }) => reconnected(child),
            (IpcState::RunMe, IpcEvent::LaunchFailed(error)) => given_up(IpcError::Other(error)),
            (IpcState::Reconnect { tries }, IpcEvent::Connected(connected)) => {
                if connected {
                    served()
                } else if tries < MAX_CONNECTS {
                    (
                        IpcState::Reconnect { tries: tries + 1 },
                        both(
                            IpcAction::Sleep { ms: 300 },
                            IpcAction::Connect { timeout_ms: 1_000 },
                        ),
                    )
                } else {
                    given_up(IpcError::NoManager)
                }
            },
            (state, _) => {
                let none: Vec<IpcAction> = Vec::new();
                (state, none)
            },
        };
        assert(step.1@ =~= ipc_step(state, *env, event, some).actions);
        assert((IpcStep { state: step.0, actions: step.1@ }) == ipc_step(
            state,
            *env,
            event,
            some,
        ));
        step
    }

    /// Begins the task: it waits until somebody is logged on.
    pub fn start() -> (step: (IpcState, Vec<IpcAction>))
        ensures
            step.0 == IpcState::WaitLogon,
            step.1@ == seq![IpcAction::CheckPrelogin],
    {
        (IpcState::WaitLogon, only(IpcAction::CheckPrelogin))
    }
}

/// What the connection manager says.
#[derive(Debug, PartialEq, Eq)]
pub enum FromCm {
    /// It asks when a peer last clicked.
    ClickTime,
    /// It tells the connection something.
    Other(Handle),
}

/// What is done with what the connection manager says.
#[derive(Debug, PartialEq, Eq)]
pub enum FromCmStep {
    Answer { click_time: i64 },
    ToConnection(Handle),
}

/// Takes what the connection manager says.
pub fn from_cm(click_time: i64, data: FromCm) -> (step: FromCmStep)
    ensures
        step == match data {
            FromCm::ClickTime => FromCmStep::Answer { click_time },
            FromCm::Other(data) => FromCmStep::ToConnection(data),
        },
{
    match data {
        FromCm::ClickTime => FromCmStep::Answer { click_time },
        FromCm::Other(data) => FromCmStep::ToConnection(data),
    }
}

/// What goes to the connection manager.
#[derive(Debug, PartialEq, Eq)]
pub enum ToCmStep {
    Data(CmData),
    /// A block of a file: first what it is, then its bytes as they are.
    Block { id: i32, file_num: i32, compressed: bool, data: Handle },
    End(IpcError),
}

/// Takes what the connection tells the connection manager; the end of that is the end of the task.
pub fn to_cm(data: Option<CmData>) -> (step: ToCmStep)
    ensures
        step == match data {
            Some(CmData::Fs(Fs::WriteBlock { id, file_num, data, compressed })) => {
                ToCmStep::Block { id, file_num, compressed, data }
            },
            Some(data) => ToCmStep::Data(data),
            None => ToCmStep::End(IpcError::Expected),
        },
{
    match data {
        Some(CmData::Fs(Fs::WriteBlock { id, file_num, data, compressed })) => {
            ToCmStep::Block { id, file_num, compressed, data }
        },
        Some(data) => ToCmStep::Data(data),
        None => ToCmStep::End(IpcError::Expected),
    }
}

/// Whether the connection is told that the task has ended. Before somebody is logged on, an end is
/// nothing new.
pub fn tells_end(env: &Env) -> (yes: bool)
    ensures
        yes == (env.target.os == Os::Windows && !env.prelogin),
{
    env.target.os == Os::Windows && !env.prelogin
}

/// Whether the symbol of the program is to be shown when the task starts.
pub fn needs_tray(env: &Env, tray_running: bool) -> (yes: bool)
    ensures
        yes == (env.target.os == Os::Windows && env.target.flutter && env.is_server
            && !tray_running),
{
    env.target.os == Os::Windows && env.target.flutter && env.is_server && !tray_running
}

/// The attempts that a state stands for, counted down.
pub open spec fn attempts_left(state: IpcState) -> int {
    match state {
        IpcState::RunAsUser { tries, .. } => if tries < MAX_LAUNCHES {
            MAX_CONNECTS + 1 + MAX_LAUNCHES - tries
        } else {
            MAX_CONNECTS + 1
        },
        IpcState::RunMe => MAX_CONNECTS + 1,
        IpcState::Reconnect { tries } => if tries < MAX_CONNECTS {
            MAX_CONNECTS - tries
        } else {
            0
        },
        _ => 0,
    }
}

/// The start of a connection manager comes to an end: each failed attempt leaves fewer, until the
/// connection manager is there or the task ends.
pub proof fn launch_ends(state: IpcState, env: Env, event: IpcEvent, uid: String)
    requires
        state is RunAsUser || state is RunMe || state is Reconnect,
        ipc_step(state, env, event, uid).actions.len() > 0,
    ensures
        ({
            let after = ipc_step(state, env, event, uid).state;
            after is Serving || after is Ended || 0 <= attempts_left(after) < attempts_left(state)
        }),
{
}

/// A task that serves or has ended does nothing more by itself.
pub proof fn end_is_final(env: Env, event: IpcEvent, uid: String)
    ensures
        ipc_step(IpcState::Ended, env, event, uid).state is Ended,
        ipc_step(IpcState::Ended, env, event, uid).actions.len() == 0,
        ipc_step(IpcState::Serving, env, event, uid).state is Serving,
        ipc_step(IpcState::Serving, env, event, uid).actions.len() == 0,
{
}

/// The task waits a second at a time until somebody is logged on, and then tries for a second to
/// reach the connection manager.
pub proof fn task_waits_for_logon(env: Env, uid: String, prelogin: bool)
    ensures
        ({
            let step = ipc_step(IpcState::WaitLogon, env, IpcEvent::Prelogin(prelogin), uid);
            &&& prelogin ==> step.state == IpcState::WaitLogon && step.actions == seq![
                IpcAction::Sleep { ms: 1_000 },
                IpcAction::CheckPrelogin,
            ]
            &&& !prelogin ==> step.state == IpcState::FirstConnect && step.actions == seq![
                IpcAction::Connect { timeout_ms: 1_000 },
            ]
        }),
{
}

/// A connection manager that is reached, at once or after its start, is served, and the connection
/// hears that it is there. Where none is reached at first, one is started: as the user of the
/// desktop session by a privileged program, else as this program's own; on a Linux machine without
/// a display the desktop session is looked for before.
pub proof fn manager_is_reached_or_started(env: Env, uid: String, connected: bool, tries: u32)
    ensures
        ({
            let first = ipc_step(
                IpcState::FirstConnect,
                env,
                IpcEvent::Connected(connected),
                uid,
            );
            let again = ipc_step(
                IpcState::Reconnect { tries },
                env,
                IpcEvent::Connected(connected),
                uid,
            );
            let headless = env.target.os == Os::Linux && env.headless_allowed && env.headless;
            let served = seq![IpcAction::TellReady, IpcAction::Serve];
            &&& connected ==> first.state == IpcState::Serving && first.actions == served
            &&& connected ==> again.state == IpcState::Serving && again.actions == served
            &&& !connected && headless ==> first.state == IpcState::WaitUser && first.actions
                == seq![IpcAction::LookUpUser]
            &&& !connected && !headless && env.root ==> first.actions == seq![
                IpcAction::RunAsUser { args: CmArgs::Cm, user: None },
            ] && first.state == (IpcState::RunAsUser { tries: 1, user: None })
            &&& !connected && !headless && !env.root ==> first.actions == seq![
                IpcAction::RunMe { args: CmArgs::Cm },
            ] && first.state == IpcState::RunMe
            &&& !connected && tries < 20 ==> again.state == (IpcState::Reconnect {
                tries: (tries + 1) as u32,
            }) && again.actions == seq![
                IpcAction::Sleep { ms: 300 },
                IpcAction::Connect { timeout_ms: 1_000 },
            ]
            &&& !connected && tries >= 20 ==> again.state == IpcState::Ended && again.actions
                == seq![IpcAction::Fail(IpcError::NoManager)]
        }),
{
}

/// A user that the system knows by number gets a connection manager without a window, started as
/// that user where this program may; a user that it does not know ends the task, and so does a
/// failure to ask.
pub proof fn user_gets_manager(
    env: Env,
    uid: String,
    username: String,
    printed: String,
    error: String,
)
    ensures
        ({
            let state = IpcState::WaitUid { username };
            let step = ipc_step(state, env, IpcEvent::IdPrinted(printed), uid);
            let number = trimmed(printed@).len() > 0 && writes_i32(trimmed(printed@));
            let failed = ipc_step(state, env, IpcEvent::IdFailed(error), uid);
            let user = Some((uid, username));
            &&& number && env.root ==> step.actions == seq![
                IpcAction::RunAsUser { args: CmArgs::CmNoUi, user },
            ]
            &&& number && !env.root ==> step.actions == seq![
                IpcAction::RunMe { args: CmArgs::CmNoUi },
            ]
            &&& !number ==> step.state == IpcState::Ended && step.actions == seq![
                IpcAction::Fail(IpcError::InvalidUsername { username }),
            ]
            &&& failed.state == IpcState::Ended && failed.actions == seq![
                IpcAction::Fail(IpcError::Other(error)),
            ]
        }),
{
}

/// The owner of the desktop session is looked for until there is one, a second at a time.
pub proof fn user_is_looked_for(env: Env, uid: String, username: String)
    ensures
        ({
            let step = ipc_step(IpcState::WaitUser, env, IpcEvent::Username(username), uid);
            &&& username@.len() == 0 ==> step.state == IpcState::WaitUser && step.actions == seq![
                IpcAction::WaitDesktop { timeout_ms: 1_000 },
                IpcAction::LookUpUser,
            ]
            &&& username@.len() > 0 ==> step.state == (IpcState::WaitUid { username })
                && step.actions == seq![IpcAction::RunId { username }]
        }),
{
}

/// A connection manager that was started is connected to after a third of a second, and kept where
/// it is a child. A start as another user that fails is tried again after a second, ten times in
/// all; one as this program's own is not.
pub proof fn launch_is_followed_up(
    env: Env,
    uid: String,
    tries: u32,
    user: Option<(String, String)>,
    child: bool,
    error: String,
)
    ensures
        ({
            let state = IpcState::RunAsUser { tries, user };
            let begun = ipc_step(state, env, IpcEvent::Launched { child }, uid);
            let own = ipc_step(IpcState::RunMe, env, IpcEvent::Launched { child }, uid);
            let failed = ipc_step(state, env, IpcEvent::LaunchFailed(error), uid);
            let own_failed = ipc_step(IpcState::RunMe, env, IpcEvent::LaunchFailed(error), uid);
            &&& begun.state == (IpcState::Reconnect { tries: 1 })
            &&& own.state == begun.state && own.actions == begun.actions
            &&& child ==> begun.actions == seq![
                IpcAction::KeepChild,
                IpcAction::Sleep { ms: 300 },
                IpcAction::Connect { timeout_ms: 1_000 },
            ]
            &&& !child ==> begun.actions == seq![
                IpcAction::Sleep { ms: 300 },
                IpcAction::Connect { timeout_ms: 1_000 },
            ]
            &&& tries < 10 ==> failed.state == (IpcState::RunAsUser {
                tries: (tries + 1) as u32,
                user,
            }) && failed.actions == seq![
                IpcAction::Sleep { ms: 1_000 },
                IpcAction::RunAsUser {
                    args: if user is Some {
                        CmArgs::CmNoUi
                    } else {
                        CmArgs::Cm
                    },
                    user,
                },
            ]
            &&& tries >= 10 ==> failed.state == IpcState::Ended && failed.actions == seq![
                IpcAction::Sleep { ms: 1_000 },
                IpcAction::Fail(IpcError::Other(error)),
            ]
            &&& own_failed.state == IpcState::Ended && own_failed.actions == seq![
                IpcAction::Fail(IpcError::Other(error)),
            ]
        }),
{
}

} // verus!
