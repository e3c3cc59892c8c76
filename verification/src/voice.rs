//! Voice calls, and the sound that a peer sends.

use vstd::prelude::*;

use crate::action::{add_if, push_if, Action, CmData};
use crate::connection::{Connection, Media};
use crate::env::Env;
use crate::message::{Handle, Message, PeerMessage};

verus! {

/// The connection with a device that is to be used again after the call.
pub open spec fn call_answered(c: Connection, device: Option<String>) -> Connection {
    Connection {
        media: Media {
            voice_call_request_timestamp: None,
            audio_input_device_before_voice_call: device,
            ..c.media
        },
        ..c
    }
}

/// What the answer of the user of this machine to a call asks for.
pub open spec fn call_actions(env: Env, out: Seq<Action>, asked_at: i64, accepted: bool) -> Seq<
    Action,
> {
    let out = if accepted {
        let out = match env.default_sound_input {
            Some(device) => out.push(Action::SetSoundInput(device)),
            None => out,
        };
        out.push(Action::ToCm(CmData::StartVoiceCall))
    } else {
        out.push(Action::ToCm(CmData::CloseVoiceCall))
    };
    out.push(
        Action::Send(Message::VoiceCallResponse { req_timestamp: asked_at, accepted }),
    )
}

/// A call is answered: an accepted one goes over the default device, and the device that was in
/// use is kept in mind. Without a call nothing happens.
pub open spec fn call_handled(
    c: Connection,
    out: Seq<Action>,
    env: Env,
    accepted: bool,
    c_after: Connection,
    out_after: Seq<Action>,
) -> bool {
    match c.media.voice_call_request_timestamp {
        Some(asked_at) => {
            let device = c_after.media.audio_input_device_before_voice_call;
            &&& c_after == call_answered(c, device)
            &&& if accepted {
                device matches Some(d) && d@ == env.config.option("audio-input"@)
            } else {
                device == c.media.audio_input_device_before_voice_call
            }
            &&& out_after == call_actions(env, out, asked_at, accepted)
        },
        None => c_after == c && out_after == out,
    }
}

/// The connection after the end of a call.
pub open spec fn call_closed(c: Connection) -> Connection {
    Connection {
        media: Media { audio_input_device_before_voice_call: None, ..c.media },
        ..c
    }
}

/// What the end of a call asks for: the device of before is used again.
pub open spec fn call_close_actions(c: Connection, out: Seq<Action>) -> Seq<Action> {
    let out = match c.media.audio_input_device_before_voice_call {
        Some(device) => out.push(Action::SetSoundInput(device)),
        None => out,
    };
    out.push(Action::ToCm(CmData::CloseVoiceCall))
}

/// A request for a call is heard: the peer is authorised, and forwards no port.
pub open spec fn may_call(c: Connection) -> bool {
    c.auth.authorized && !c.purpose.port_forward
}

/// The message asks to begin a call.
pub open spec fn begins_call(msg: PeerMessage) -> bool {
    msg matches PeerMessage::VoiceCallRequest { is_connect, .. } && is_connect
}

/// The connection after a peer's request to begin or end a call.
pub open spec fn call_requested(
    c: Connection,
    env: Env,
    asked_at: i64,
    connect: bool,
) -> Connection {
    if connect {
        Connection {
            media: Media {
                voice_call_request_timestamp: Some(
                    if asked_at != 0 {
                        asked_at
                    } else {
                        env.epoch_ms
                    },
                ),
                ..c.media
            },
            ..c
        }
    } else {
        call_closed(c)
    }
}

/// What a peer's request to begin or end a call asks for.
pub open spec fn call_request_actions(c: Connection, out: Seq<Action>, connect: bool) -> Seq<
    Action,
> {
    if connect {
        out.push(Action::ToCm(CmData::VoiceCallIncoming))
    } else {
        call_close_actions(c, out)
    }
}

impl Connection {
    /// Takes the answer of the user of this machine to a call.
    pub fn handle_voice_call(&mut self, env: &Env, accepted: bool, out: &mut Vec<Action>)
        ensures
            call_handled(*old(self), old(out)@, *env, accepted, *final(self), final(out)@),
    {
        let asked_at = match self.media.voice_call_request_timestamp {
            Some(asked_at) => asked_at,
            None => {
                return ;
            },
        };
        self.media.voice_call_request_timestamp = None;
        if accepted {
            self.media.audio_input_device_before_voice_call = Some(
                env.config.get_option("audio-input"),
            );
            match &env.default_sound_input {
                Some(device) => out.push(Action::SetSoundInput(device.clone())),
                None => {},
            }
            self.send_to_cm(CmData::StartVoiceCall, out);
        } else {
            self.send_to_cm(CmData::CloseVoiceCall, out);
        }
        out.push(
            Action::Send(Message::VoiceCallResponse { req_timestamp: asked_at, accepted }),
        );
    }

    /// Ends a call.
    pub fn close_voice_call(&mut self, out: &mut Vec<Action>)
        ensures
            *final(self) == call_closed(*old(self)),
            final(out)@ == call_close_actions(*old(self), old(out)@),
    {
        let mut device: Option<String> = None;
        std::mem::swap(&mut device, &mut self.media.audio_input_device_before_voice_call);
        match device {
            Some(device) => out.push(Action::SetSoundInput(device)),
            None => {},
        }
        self.send_to_cm(CmData::CloseVoiceCall, out);
    }

    /// Takes a peer's request to begin or end a call.
    pub(crate) fn on_voice_call_request(
        &mut self,
        env: &Env,
        req_timestamp: i64,
        is_connect: bool,
        out: &mut Vec<Action>,
    )
        requires
            is_connect ==> env.epoch_ms != 0,
        ensures
            *final(self) == call_requested(*old(self), *env, req_timestamp, is_connect),
            final(out)@ == call_request_actions(*old(self), old(out)@, is_connect),
    {
        if is_connect {
            let asked_at: i64 = if req_timestamp != 0 {
                req_timestamp
            } else {
                env.epoch_ms
            };
            self.media.voice_call_request_timestamp = Some(asked_at);
            self.send_to_cm(CmData::VoiceCallIncoming, out);
        } else {
            self.close_voice_call(out);
        }
    }

    /// Takes the format of the sound that the peer sends.
    pub(crate) fn on_audio_format(&mut self, format: Handle, out: &mut Vec<Action>)
        ensures
            *final(self) == (Connection {
                media: Media {
                    audio_sender: old(self).media.audio_sender || !old(self).wishes.disable_audio,
                    ..old(self).media
                },
                ..*old(self)
            }),
            final(out)@ == push_if(
                old(out)@,
                !old(self).wishes.disable_audio,
                Action::StartAudio(format),
            ),
    {
        add_if(out, !self.wishes.disable_audio, Action::StartAudio(format));
        self.media.audio_sender = self.media.audio_sender || !self.wishes.disable_audio;
    }

    /// Takes sound that the peer sends. Without a format it is dropped.
    pub(crate) fn on_audio_frame(&self, frame: Handle, out: &mut Vec<Action>)
        ensures
            final(out)@ == push_if(
                old(out)@,
                !self.wishes.disable_audio && self.media.audio_sender,
                Action::PlayAudio(frame),
            ),
    {
        add_if(
            out,
            !self.wishes.disable_audio && self.media.audio_sender,
            Action::PlayAudio(frame),
        );
    }
}

/// The end of an accepted call brings back the device that was in use before it.
pub proof fn call_restores_device(
    c: Connection,
    out: Seq<Action>,
    env: Env,
    c_after: Connection,
    out_after: Seq<Action>,
    later: Seq<Action>,
)
    requires
        c.media.voice_call_request_timestamp is Some,
        call_handled(c, out, env, true, c_after, out_after),
    ensures
        exists|device: String|
            #[trigger] device@ == env.config.option("audio-input"@) && call_close_actions(c_after, later)
                == later.push(Action::SetSoundInput(device)).push(
                Action::ToCm(CmData::CloseVoiceCall),
            ),
        call_closed(c_after).media.audio_input_device_before_voice_call is None,
{
    let device = c_after.media.audio_input_device_before_voice_call->0;
    assert(device@ == env.config.option("audio-input"@));
    assert(call_close_actions(c_after, later) == later.push(Action::SetSoundInput(device)).push(
        Action::ToCm(CmData::CloseVoiceCall),
    ));
}

/// A call is answered at most once.
pub proof fn call_answered_once(
    c: Connection,
    out: Seq<Action>,
    env: Env,
    first: bool,
    c1: Connection,
    out1: Seq<Action>,
    second: bool,
    c2: Connection,
    out2: Seq<Action>,
)
    requires
        call_handled(c, out, env, first, c1, out1),
        call_handled(c1, out1, env, second, c2, out2),
    ensures
        c2 == c1,
        out2 == out1,
{
}

} // verus!
