//! The thread that plays a peer's input on this machine, and blocks the input of its user.

use vstd::prelude::*;

use crate::action::MessageInput;
use crate::message::{
    BlockInputState, Details, KeyEvent, KeyboardMode, MouseEvent, PointerDeviceEvent,
};
use crate::target::{Os, Target};

verus! {

/// How long the thread waits for a message, in milliseconds.
pub const INPUT_WAIT_MS: u64 = 500;

/// What the thread receives.
#[derive(Debug, PartialEq, Eq)]
pub enum InputEvent {
    Message(MessageInput),
    /// Nothing came in time.
    Timeout,
    /// The connection is gone.
    Disconnected,
}

/// What the thread does.
#[derive(Debug, PartialEq, Eq)]
#[allow(inconsistent_fields)]
pub enum InputAction {
    /// Mark what is played as played, so that it is told apart from the user's own input.
    MarkPlayedInput,
    ResetInput,
    Mouse { event: MouseEvent, conn_id: i32 },
    Key(KeyEvent),
    Pointer { event: PointerDeviceEvent, conn_id: i32 },
    /// Block or free the user's input, and take up what came of it.
    Block { on: bool, plugin: bool },
    /// Block the user's input again; what comes of it does not matter.
    BlockAgain,
    /// Tell the peer that input could not be blocked or freed.
    TellFailure { state: BlockInputState, details: Details },
    /// Tell the plugin that asked whether input is blocked.
    AnswerPlugin { blocked: bool },
    ClearRemappedKeys,
}

/// The state of the thread: the user's input is to be blocked.
#[derive(Clone, Copy, Debug, PartialEq, Eq)]
pub struct InputThread {
    pub block_input_mode: bool,
}

/// What the thread does at its start.
pub open spec fn start_actions(target: Target) -> Seq<InputAction> {
    (if target.os == Os::Windows || target.os == Os::Macos {
        seq![InputAction::MarkPlayedInput]
    } else {
        seq![]
    }) + (if target.os == Os::Macos {
        seq![InputAction::ResetInput]
    } else {
        seq![]
    })
}

/// How a key is played: where keys are named in the old way, a press goes down and up.
pub open spec fn key_plays(event: KeyEvent, press: bool) -> Seq<InputAction> {
    if press && event.mode == KeyboardMode::Legacy {
        seq![
            InputAction::Key(KeyEvent { down: true, ..event }),
            InputAction::Key(KeyEvent { down: false, ..event }),
        ]
    } else {
        seq![InputAction::Key(event)]
    }
}

/// What a message asks of the thread.
pub open spec fn message_plays(message: MessageInput) -> Seq<InputAction> {
    match message {
        MessageInput::Mouse { event, conn_id } => seq![InputAction::Mouse { event, conn_id }],
        MessageInput::Key { event, press } => key_plays(event, press),
        MessageInput::Pointer { event, conn_id } => seq![
            InputAction::Pointer { event, conn_id },
        ],
        MessageInput::BlockOn => seq![InputAction::Block { on: true, plugin: false }],
        MessageInput::BlockOff => seq![InputAction::Block { on: false, plugin: false }],
        MessageInput::BlockOnPlugin { .. } => seq![InputAction::Block { on: true, plugin: true }],
        MessageInput::BlockOffPlugin { .. } => seq![
            InputAction::Block { on: false, plugin: true },
        ],
    }
}

/// What an event asks of the thread.
pub open spec fn event_plays(s: InputThread, target: Target, event: InputEvent) -> Seq<
    InputAction,
> {
    let again = if s.block_input_mode {
        seq![InputAction::BlockAgain]
    } else {
        seq![]
    };
    match event {
        InputEvent::Message(message) => message_plays(message),
        InputEvent::Timeout => again,
        InputEvent::Disconnected => again + (if target.os == Os::Linux {
            seq![InputAction::ClearRemappedKeys]
        } else {
            seq![]
        }),
    }
}

/// The state after an attempt to block or free input.
pub open spec fn block_mode_after(s: InputThread, on: bool, done: bool) -> InputThread {
    InputThread {
        block_input_mode: if done {
            on
        } else {
            s.block_input_mode
        },
    }
}

/// What an attempt to block or free input asks for. A plugin hears whether input is blocked; the
/// peer hears of a failure.
pub open spec fn block_plays(
    s: InputThread,
    on: bool,
    plugin: bool,
    done: bool,
    details: String,
) -> Seq<InputAction> {
    if plugin {
        seq![
            InputAction::AnswerPlugin { blocked: block_mode_after(s, on, done).block_input_mode },
        ]
    } else if !done {
        seq![
            InputAction::TellFailure {
                state: if on {
                    BlockInputState::OnFailed
                } else {
                    BlockInputState::OffFailed
                },
                details: Details::Other(details),
            },
        ]
    } else {
        seq![]
    }
}

impl InputThread {
    /// Starts the thread.
    pub fn start(target: &Target) -> (started: (InputThread, Vec<InputAction>))
        ensures
            started.0 == (InputThread { block_input_mode: false }),
            started.1@ == start_actions(*target),
    {
        let mut out: Vec<InputAction> = Vec::new();
        if target.os == Os::Windows || target.os == Os::Macos {
            out.push(InputAction::MarkPlayedInput);
        }
        if target.os == Os::Macos {
            out.push(InputAction::ResetInput);
        }
        assert(out@ =~= start_actions(*target));
        (InputThread { block_input_mode: false }, out)
    }

    /// What a message asks for.
    fn play(message: MessageInput) -> (out: Vec<InputAction>)
        ensures
            out@ == message_plays(message),
    {
        let mut out: Vec<InputAction> = Vec::new();
        match message {
            MessageInput::Mouse { event, conn_id } => {
                out.push(InputAction::Mouse { event, conn_id });
            },
            MessageInput::Key { event, press } => {
                let legacy_press = press && event.mode == KeyboardMode::Legacy;
                if legacy_press {
                    out.push(InputAction::Key(KeyEvent { down: true, ..event }));
                    out.push(InputAction::Key(KeyEvent { down: false, ..event }));
                } else {
                    out.push(InputAction::Key(event));
                }
            },
            MessageInput::Pointer { event, conn_id } => {
                out.push(InputAction::Pointer { event, conn_id });
            },
            MessageInput::BlockOn => {
                out.push(InputAction::Block { on: true, plugin: false });
            },
            MessageInput::BlockOff => {
                out.push(InputAction::Block { on: false, plugin: false });
            },
            MessageInput::BlockOnPlugin { .. } => {
                out.push(InputAction::Block { on: true, plugin: true });
            },
            MessageInput::BlockOffPlugin { .. } => {
                out.push(InputAction::Block { on: false, plugin: true });
            },
        }
        assert(out@ =~= message_plays(message));
        out
    }

    /// Takes an event, and says whether the thread goes on.
    pub fn handle_input(
        &self,
        target: &Target,
        event: InputEvent,
    ) -> (handled: (Vec<InputAction>, bool))
        ensures
            handled.0@ == event_plays(*self, *target, event),
            handled.1 == !(event is Disconnected),
    {
        let mut out: Vec<InputAction> = Vec::new();
        let go_on = match event {
            InputEvent::Message(message) => {
                return (Self::play(message), true);
            },
            InputEvent::Timeout => true,
            InputEvent::Disconnected => false,
        };
        if self.block_input_mode {
            out.push(InputAction::BlockAgain);
        }
        if !go_on && target.os == Os::Linux {
            out.push(InputAction::ClearRemappedKeys);
        }
        assert(out@ =~= event_plays(*self, *target, event));
        (out, go_on)
    }

    /// Takes up what came of an attempt to block or free input.
    pub fn on_blocked(
        &mut self,
        on: bool,
        plugin: bool,
        done: bool,
        details: String,
    ) -> (out: Vec<InputAction>)
        ensures
            *final(self) == block_mode_after(*old(self), on, done),
            out@ == block_plays(*old(self), on, plugin, done, details),
    {
        let mut out: Vec<InputAction> = Vec::new();
        if done {
            self.block_input_mode = on;
        }
        if plugin {
            out.push(InputAction::AnswerPlugin { blocked: self.block_input_mode });
        } else if !done {
            let state = if on {
                BlockInputState::OnFailed
            } else {
                BlockInputState::OffFailed
            };
            out.push(InputAction::TellFailure { state, details: Details::Other(details) });
        }
        assert(out@ =~= block_plays(*old(self), on, plugin, done, details));
        out
    }
}

/// A plugin that asks for input to be blocked or freed hears that it is so exactly where the
/// attempt worked or it was so before.
pub proof fn plugin_hears_the_state(s: InputThread, on: bool, done: bool, details: String)
    ensures
        block_plays(s, on, true, done, details) == seq![
            InputAction::AnswerPlugin { blocked: block_mode_after(s, on, done).block_input_mode },
        ],
        block_mode_after(s, on, done).block_input_mode == on <==> done || s.block_input_mode == on,
{
}

/// While input is to be blocked, every pause blocks it again; otherwise a pause does nothing.
pub proof fn pauses_keep_input_blocked(s: InputThread, target: Target)
    ensures
        event_plays(s, target, InputEvent::Timeout).len() == if s.block_input_mode {
            1nat
        } else {
            0nat
        },
        s.block_input_mode ==> event_plays(s, target, InputEvent::Timeout)[0]
            == InputAction::BlockAgain,
{
}

/// Mouse and pointer events are played as they came, under the number of their connection, and a
/// wish to block or free input is tried as it was made, for a plugin or for the peer.
pub proof fn input_is_played_as_it_came(s: InputThread, target: Target, message: MessageInput)
    ensures
        ({
            let plays = event_plays(s, target, InputEvent::Message(message));
            &&& message matches MessageInput::Mouse { event, conn_id } ==> plays == seq![
                InputAction::Mouse { event, conn_id },
            ]
            &&& message matches MessageInput::Pointer { event, conn_id } ==> plays == seq![
                InputAction::Pointer { event, conn_id },
            ]
            &&& message is BlockOn ==> plays == seq![InputAction::Block { on: true, plugin: false }]
            &&& message is BlockOff ==> plays == seq![
                InputAction::Block { on: false, plugin: false },
            ]
            &&& message is BlockOnPlugin ==> plays == seq![
                InputAction::Block { on: true, plugin: true },
            ]
            &&& message is BlockOffPlugin ==> plays == seq![
                InputAction::Block { on: false, plugin: true },
            ]
        }),
{
}

/// A key is played as it came, unless it is pressed and named in the old way: such a key goes down
/// and then up, and is otherwise as it came.
pub proof fn keys_are_played_as_they_came(
    s: InputThread,
    target: Target,
    event: KeyEvent,
    press: bool,
)
    ensures
        ({
            let plays = event_plays(
                s,
                target,
                InputEvent::Message(MessageInput::Key { event, press }),
            );
            let twice = press && event.mode == KeyboardMode::Legacy;
            &&& !twice ==> plays == seq![InputAction::Key(event)]
            &&& twice ==> plays.len() == 2
            &&& twice ==> (plays[0] matches InputAction::Key(down) && down.down && event
                == (KeyEvent { down: event.down, ..down }))
            &&& twice ==> (plays[1] matches InputAction::Key(up) && !up.down && event
                == (KeyEvent { down: event.down, ..up }))
        }),
{
}

/// The wish to block or free input holds once it was met, and only then; the peer hears of one
/// that was not met, with the reason, and of nothing else.
pub proof fn block_holds_once_met(
    s: InputThread,
    on: bool,
    done: bool,
    details: String,
)
    ensures
        done ==> block_mode_after(s, on, done).block_input_mode == on,
        !done ==> block_mode_after(s, on, done) == s,
        done ==> block_plays(s, on, false, done, details).len() == 0,
        !done && on ==> block_plays(s, on, false, done, details) == seq![
            InputAction::TellFailure {
                state: BlockInputState::OnFailed,
                details: Details::Other(details),
            },
        ],
        !done && !on ==> block_plays(s, on, false, done, details) == seq![
            InputAction::TellFailure {
                state: BlockInputState::OffFailed,
                details: Details::Other(details),
            },
        ],
        block_plays(s, on, true, true, details) == seq![InputAction::AnswerPlugin { blocked: on }],
        block_plays(s, on, true, false, details) == seq![
            InputAction::AnswerPlugin { blocked: s.block_input_mode },
        ],
{
}

/// A pause or the end of the connection blocks input again exactly where it is to be blocked; on
/// Linux the end clears keys that were remapped. At its start the thread marks what it plays on
/// Windows and macOS, and resets the input on macOS.
pub proof fn thread_begins_and_ends(s: InputThread, target: Target)
    ensures
        s.block_input_mode ==> event_plays(s, target, InputEvent::Timeout) == seq![
            InputAction::BlockAgain,
        ],
        !s.block_input_mode ==> event_plays(s, target, InputEvent::Timeout).len() == 0,
        target.os == Os::Linux ==> event_plays(s, target, InputEvent::Disconnected).last()
            == InputAction::ClearRemappedKeys,
        target.os != Os::Linux ==> event_plays(s, target, InputEvent::Disconnected) == event_plays(
            s,
            target,
            InputEvent::Timeout,
        ),
        target.os == Os::Windows ==> start_actions(target) == seq![InputAction::MarkPlayedInput],
        target.os == Os::Macos ==> start_actions(target) == seq![
            InputAction::MarkPlayedInput,
            InputAction::ResetInput,
        ],
        target.os == Os::Linux ==> start_actions(target).len() == 0,
{
}

} // verus!
