//! Privacy mode: the screen of this machine goes dark while a peer controls it.

use vstd::prelude::*;

use crate::action::{push_if, Action};
use crate::connection::Connection;
use crate::env::Env;
use crate::message::{Details, Message, PrivacyModeState};

verus! {

/// How long a check of privacy mode may take, in milliseconds.
pub const PRIVACY_CHECK_MS: u64 = 5_000;

/// What came of turning privacy mode on.
#[derive(Debug, PartialEq, Eq)]
pub enum TurnedOn {
    Done(bool),
    Failed(String),
    /// There is no kind of privacy mode to turn on.
    Absent,
}

/// What came of turning privacy mode off.
#[derive(Debug, PartialEq, Eq)]
pub enum TurnedOff {
    Done,
    Failed(String),
    /// There is no kind of privacy mode to turn off.
    Absent,
}

/// Tells the peer what became of privacy mode.
pub open spec fn privacy_told(
    state: PrivacyModeState,
    details: Details,
    impl_key: Option<String>,
) -> Action {
    Action::Send(Message::PrivacyMode { state, details, impl_key })
}

/// What a peer's wish for privacy mode asks for.
pub open spec fn turn_on_actions(
    env: Env,
    out: Seq<Action>,
    impl_key: Option<String>,
) -> Seq<Action> {
    if !env.privacy_mode_supported {
        out.push(
            privacy_told(PrivacyModeState::NotSupported, Details::PrivacyUnsupported, impl_key),
        )
    } else {
        push_if(
            out,
            env.in_privacy_mode && env.privacy_impl is Some && !env.privacy_impl_current,
            privacy_told(PrivacyModeState::OffSucceeded, Details::Empty, env.privacy_impl),
        ).push(Action::TurnOnPrivacy { impl_key })
    }
}

/// What follows when privacy mode was to be turned on.
pub open spec fn turned_on_actions(
    c: Connection,
    env: Env,
    out: Seq<Action>,
    impl_key: Option<String>,
    result: TurnedOn,
) -> Seq<Action> {
    match result {
        TurnedOn::Done(true) => out.push(
            Action::CheckPrivacyMode {
                display: c.media.display_idx,
                timeout_ms: PRIVACY_CHECK_MS,
                impl_key,
            },
        ),
        TurnedOn::Done(false) => out.push(
            privacy_told(PrivacyModeState::OnFailedPlugin, Details::Empty, impl_key),
        ),
        TurnedOn::Failed(error) => push_if(
            out,
            env.in_privacy_mode,
            Action::TurnOffPrivacy { conn: None, answer: false },
        ).push(privacy_told(PrivacyModeState::OnFailed, Details::Other(error), impl_key)),
        TurnedOn::Absent => out.push(
            privacy_told(PrivacyModeState::OffFailed, Details::NotSupported, impl_key),
        ),
    }
}

/// What follows when privacy mode was looked at; an empty error says that it works.
pub open spec fn checked_actions(
    c: Connection,
    out: Seq<Action>,
    impl_key: Option<String>,
    error: String,
) -> Seq<Action> {
    if error@.len() == 0 {
        out.push(privacy_told(PrivacyModeState::OnSucceeded, Details::Empty, impl_key))
    } else {
        out.push(Action::TurnOffPrivacy { conn: Some(c.inner.id), answer: false }).push(
            privacy_told(PrivacyModeState::OnFailed, Details::Other(error), impl_key),
        )
    }
}

/// What a peer's wish for an end of privacy mode asks for.
pub open spec fn turn_off_actions(
    c: Connection,
    env: Env,
    out: Seq<Action>,
    impl_key: Option<String>,
) -> Seq<Action> {
    if !env.privacy_mode_supported {
        out.push(
            privacy_told(PrivacyModeState::NotSupported, Details::PrivacyUnsupported, impl_key),
        )
    } else {
        out.push(Action::TurnOffPrivacy { conn: Some(c.inner.id), answer: true })
    }
}

impl Connection {
    fn tell_privacy(
        state: PrivacyModeState,
        details: Details,
        impl_key: Option<String>,
        out: &mut Vec<Action>,
    )
        ensures
            final(out)@ == old(out)@.push(privacy_told(state, details, impl_key)),
    {
        out.push(Action::Send(Message::PrivacyMode { state, details, impl_key }));
    }

    /// Turns privacy mode on for the peer.
    pub(crate) fn turn_on_privacy(
        &self,
        env: &Env,
        impl_key: Option<String>,
        out: &mut Vec<Action>,
    )
        ensures
            final(out)@ == turn_on_actions(*env, old(out)@, impl_key),
    {
        if !env.privacy_mode_supported {
            Self::tell_privacy(
                PrivacyModeState::NotSupported,
                Details::PrivacyUnsupported,
                impl_key,
                out,
            );
        } else {
            if env.in_privacy_mode {
                if let Some(pre_impl_key) = &env.privacy_impl {
                    if !env.privacy_impl_current {
                        Self::tell_privacy(
                            PrivacyModeState::OffSucceeded,
                            Details::Empty,
                            Some(pre_impl_key.clone()),
                            out,
                        );
                    }
                }
            }
            out.push(Action::TurnOnPrivacy { impl_key });
        }
    }

    /// Takes up that privacy mode was to be turned on for the peer.
    pub fn on_privacy_turned_on(
        &self,
        env: &Env,
        impl_key: Option<String>,
        result: TurnedOn,
        out: &mut Vec<Action>,
    )
        ensures
            final(out)@ == turned_on_actions(*self, *env, old(out)@, impl_key, result),
    {
        match result {
            TurnedOn::Done(true) => {
                out.push(
                    Action::CheckPrivacyMode {
                        display: self.media.display_idx,
                        timeout_ms: PRIVACY_CHECK_MS,
                        impl_key,
                    },
                );
            },
            TurnedOn::Done(false) => {
                Self::tell_privacy(
                    PrivacyModeState::OnFailedPlugin,
                    Details::Empty,
                    impl_key,
                    out,
                );
            },
            TurnedOn::Failed(error) => {
                if env.in_privacy_mode {
                    out.push(Action::TurnOffPrivacy { conn: None, answer: false });
                }
                Self::tell_privacy(
                    PrivacyModeState::OnFailed,
                    Details::Other(error),
                    impl_key,
                    out,
                );
            },
            TurnedOn::Absent => {
                Self::tell_privacy(
                    PrivacyModeState::OffFailed,
                    Details::NotSupported,
                    impl_key,
                    out,
                );
            },
        }
    }

    /// Takes up what a look at privacy mode showed; an empty error says that it works.
    pub fn on_privacy_checked(
        &self,
        impl_key: Option<String>,
        error: String,
        out: &mut Vec<Action>,
    )
        ensures
            final(out)@ == checked_actions(*self, old(out)@, impl_key, error),
    {
        if error.as_str().is_empty() {
            Self::tell_privacy(PrivacyModeState::OnSucceeded, Details::Empty, impl_key, out);
        } else {
            out.push(Action::TurnOffPrivacy { conn: Some(self.inner.id), answer: false });
            Self::tell_privacy(PrivacyModeState::OnFailed, Details::Other(error), impl_key, out);
        }
    }

    /// Turns privacy mode off for the peer.
    pub(crate) fn turn_off_privacy(
        &self,
        env: &Env,
        impl_key: Option<String>,
        out: &mut Vec<Action>,
    )
        ensures
            final(out)@ == turn_off_actions(*self, *env, old(out)@, impl_key),
    {
        if !env.privacy_mode_supported {
            Self::tell_privacy(
                PrivacyModeState::NotSupported,
                Details::PrivacyUnsupported,
                impl_key,
                out,
            );
        } else {
            out.push(Action::TurnOffPrivacy { conn: Some(self.inner.id), answer: true });
        }
    }

    /// Turns privacy mode on or off for the peer.
    pub(crate) fn toggle_privacy_mode(
        &self,
        env: &Env,
        impl_key: String,
        on: bool,
        out: &mut Vec<Action>,
    )
        ensures
            final(out)@ == if on {
                turn_on_actions(*env, old(out)@, Some(impl_key))
            } else {
                turn_off_actions(*self, *env, old(out)@, Some(impl_key))
            },
    {
        if on {
            self.turn_on_privacy(env, Some(impl_key), out);
        } else {
            self.turn_off_privacy(env, Some(impl_key), out);
        }
    }

    /// What the peer is told when privacy mode was to be turned off.
    pub fn turn_off_privacy_to_msg(result: TurnedOff) -> (message: Message)
        ensures
            message == match result {
                TurnedOff::Done => Message::PrivacyMode {
                    state: PrivacyModeState::OffSucceeded,
                    details: Details::Empty,
                    impl_key: None,
                },
                TurnedOff::Failed(error) => Message::PrivacyMode {
                    state: PrivacyModeState::OffFailed,
                    details: Details::Other(error),
                    impl_key: None,
                },
                TurnedOff::Absent => Message::PrivacyMode {
                    state: PrivacyModeState::OffFailed,
                    details: Details::NotSupported,
                    impl_key: None,
                },
            },
    {
        match result {
            TurnedOff::Done => Message::PrivacyMode {
                state: PrivacyModeState::OffSucceeded,
                details: Details::Empty,
                impl_key: None,
            },
            TurnedOff::Failed(error) => Message::PrivacyMode {
                state: PrivacyModeState::OffFailed,
                details: Details::Other(error),
                impl_key: None,
            },
            TurnedOff::Absent => Message::PrivacyMode {
                state: PrivacyModeState::OffFailed,
                details: Details::NotSupported,
                impl_key: None,
            },
        }
    }
}

} // verus!
