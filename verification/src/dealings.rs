//! What the options of a peer and the decisions of the user of this machine bring about, in terms
//! of what was chosen and what is done.

use vstd::prelude::*;

use crate::action::{Action, CmData, EncoderUpdate, MessageInput, QosUpdate, Service};
use crate::connection::{Connection, Media, Purpose, Scene, Trace};
use crate::deeds::{obeyed, on_phone};
use crate::env::Env;
use crate::login::LoginStep;
use crate::logon::LogonFacts;
use crate::message::{
    BlockInputState, BoolOption, CloseReason, Details, ImageQuality, Message, Misc, OptionMessage,
    PeerMessage, Permission, PrivacyModeState,
};
use crate::registry::RegistryView;
use crate::run::{cm_taken, CmEvent, PrivacyEnd};
use crate::target::Os;

verus! {

/// A wish that an option decides on: yes makes it true, no makes it false whatever it was, and
/// anything else leaves it.
pub open spec fn decided(option: Option<BoolOption>, before: bool, after: bool) -> bool {
    &&& option == Some(BoolOption::Yes) ==> after
    &&& option == Some(BoolOption::No) ==> !after
    &&& option != Some(BoolOption::Yes) && option != Some(BoolOption::No) ==> after == before
}

/// Every wish goes by its own option. On a phone those for the cursor and for files on the
/// clipboard stay as they are. Nothing else of the connection changes.
pub proof fn options_decide_wishes(
    s: Scene,
    env: Env,
    facts: LogonFacts,
    o: OptionMessage,
    after: Scene,
    step: LoginStep,
)
    requires
        obeyed(s, env, facts, PeerMessage::Misc(Misc::Option(o)), after, step),
    ensures
        step == LoginStep::Done(true),
        after.reg == s.reg,
        after.conn == (Connection { wishes: after.conn.wishes, ..s.conn }),
        ({
            let w = s.conn.wishes;
            let v = after.conn.wishes;
            &&& decided(o.lock_after_session_end, w.lock_after_session_end, v.lock_after_session_end)
            &&& decided(o.follow_remote_window, w.follow_remote_window, v.follow_remote_window)
            &&& decided(o.disable_audio, w.disable_audio, v.disable_audio)
            &&& decided(o.disable_clipboard, w.disable_clipboard, v.disable_clipboard)
            &&& decided(o.disable_keyboard, w.disable_keyboard, v.disable_keyboard)
            &&& !on_phone(env.target) ==> {
                &&& decided(o.show_remote_cursor, w.show_remote_cursor, v.show_remote_cursor)
                &&& decided(o.follow_remote_cursor, w.follow_remote_cursor, v.follow_remote_cursor)
                &&& decided(o.enable_file_transfer, w.enable_file_transfer, v.enable_file_transfer)
            }
            &&& on_phone(env.target) ==> {
                &&& v.show_remote_cursor == w.show_remote_cursor
                &&& v.follow_remote_cursor == w.follow_remote_cursor
                &&& v.enable_file_transfer == w.enable_file_transfer
            }
        }),
{
}

/// The option is set to yes or to no.
pub open spec fn says(option: Option<BoolOption>) -> bool {
    option == Some(BoolOption::Yes) || option == Some(BoolOption::No)
}

/// None of the options that a service hangs on is set but those named by the flags.
pub open spec fn says_only(
    o: OptionMessage,
    cursor: bool,
    window: bool,
    audio: bool,
    files: bool,
    clipboard: bool,
    keyboard: bool,
) -> bool {
    &&& says(o.show_remote_cursor) == cursor
    &&& says(o.follow_remote_window) == window
    &&& says(o.disable_audio) == audio
    &&& says(o.enable_file_transfer) == files
    &&& says(o.disable_clipboard) == clipboard
    &&& says(o.disable_keyboard) == keyboard
}

/// The options ask for no other picture, no privacy mode and no blocked input.
pub open spec fn plain_options(o: OptionMessage) -> bool {
    &&& o.image_quality is None
    &&& o.custom_fps <= 0
    &&& o.supported_decoding is None
    &&& !says(o.privacy_mode)
    &&& !says(o.block_input)
}

/// While the server is there, each option brings its services in line with what the peer wants and
/// may have: the cursor is sent to a peer that controls the machine or wants to see it, its place
/// to one that wants to see it, the window that has the focus to one that follows it, the sound and
/// the clipboard to one that may have them and has not switched them off.
pub proof fn options_switch_services(
    s: Scene,
    env: Env,
    facts: LogonFacts,
    o: OptionMessage,
    after: Scene,
    step: LoginStep,
)
    requires
        obeyed(s, env, facts, PeerMessage::Misc(Misc::Option(o)), after, step),
        !on_phone(env.target),
        env.server_alive,
        plain_options(o),
    ensures
        ({
            let r = s.conn.rights;
            let w = s.conn.wishes;
            let yes = Some(BoolOption::Yes);
            let no = Some(BoolOption::No);
            let keyboard = r.keyboard && !w.disable_keyboard;
            &&& says_only(o, true, false, false, false, false, false) ==> after.out
                == s.out.push(
                Action::Subscribe {
                    service: Service::Cursor,
                    on: keyboard || o.show_remote_cursor == yes,
                },
            ).push(
                Action::Subscribe {
                    service: Service::CursorPosition,
                    on: o.show_remote_cursor == yes,
                },
            )
            &&& says_only(o, false, true, false, false, false, false) ==> after.out
                == s.out.push(
                Action::Subscribe {
                    service: Service::WindowFocus,
                    on: o.follow_remote_window == yes,
                },
            )
            &&& says_only(o, false, false, true, false, false, false) ==> after.out
                == s.out.push(
                Action::Subscribe {
                    service: Service::Audio,
                    on: r.audio && o.disable_audio == no,
                },
            )
            &&& says_only(o, false, false, false, true, false, false) ==> after.out
                == s.out.push(
                Action::ToCm(
                    CmData::ClipboardFileEnabled(r.file && o.enable_file_transfer == yes),
                ),
            )
            &&& says_only(o, false, false, false, false, true, false) ==> after.out
                == s.out.push(
                Action::Subscribe {
                    service: Service::Clipboard,
                    on: r.clipboard && o.disable_clipboard == no && keyboard,
                },
            )
            &&& says_only(o, false, false, false, false, false, true) ==> after.out
                == s.out.push(
                Action::Subscribe {
                    service: Service::Clipboard,
                    on: r.clipboard && !w.disable_clipboard && r.keyboard && o.disable_keyboard
                        == no,
                },
            ).push(
                Action::Subscribe {
                    service: Service::Cursor,
                    on: r.keyboard && o.disable_keyboard == no || w.show_remote_cursor,
                },
            )
            &&& says_only(o, false, false, false, false, false, false) ==> after.out == s.out
        }),
{
}

/// Options that are set together bring their services in line one after another, each as if it
/// were set alone, but with the wishes as they are after all of them.
pub proof fn options_switch_services_together(
    s: Scene,
    env: Env,
    facts: LogonFacts,
    o: OptionMessage,
    after: Scene,
    step: LoginStep,
)
    requires
        obeyed(s, env, facts, PeerMessage::Misc(Misc::Option(o)), after, step),
        !on_phone(env.target),
        env.server_alive,
        plain_options(o),
        says_only(o, true, true, true, true, true, true),
    ensures
        ({
            let r = s.conn.rights;
            let v = after.conn.wishes;
            let before = r.keyboard && !s.conn.wishes.disable_keyboard;
            let keyboard = r.keyboard && !v.disable_keyboard;
            after.out == s.out + seq![
                Action::Subscribe {
                    service: Service::Cursor,
                    on: before || v.show_remote_cursor,
                },
                Action::Subscribe { service: Service::CursorPosition, on: v.show_remote_cursor },
                Action::Subscribe { service: Service::WindowFocus, on: v.follow_remote_window },
                Action::Subscribe { service: Service::Audio, on: r.audio && !v.disable_audio },
                Action::ToCm(CmData::ClipboardFileEnabled(r.file && v.enable_file_transfer)),
                Action::Subscribe {
                    service: Service::Clipboard,
                    on: r.clipboard && !v.disable_clipboard && before,
                },
                Action::Subscribe {
                    service: Service::Clipboard,
                    on: r.clipboard && !v.disable_clipboard && keyboard,
                },
                Action::Subscribe {
                    service: Service::Cursor,
                    on: keyboard || v.show_remote_cursor,
                },
            ]
        }),
{
}

/// Without the server no option asks for a service; files on the clipboard still go by theirs, and
/// on a phone not even those do.
pub proof fn no_services_without_server(
    s: Scene,
    env: Env,
    facts: LogonFacts,
    o: OptionMessage,
    after: Scene,
    step: LoginStep,
)
    requires
        obeyed(s, env, facts, PeerMessage::Misc(Misc::Option(o)), after, step),
        !env.server_alive,
        plain_options(o),
    ensures
        on_phone(env.target) || !says(o.enable_file_transfer) ==> after.out == s.out,
        !on_phone(env.target) && says(o.enable_file_transfer) ==> after.out == s.out.push(
            Action::ToCm(
                CmData::ClipboardFileEnabled(
                    s.conn.rights.file && o.enable_file_transfer == Some(BoolOption::Yes),
                ),
            ),
        ),
{
}

/// No option that a service hangs on is set.
pub open spec fn no_service_options(o: OptionMessage) -> bool {
    says_only(o, false, false, false, false, false, false)
}

/// What a peer wants of the pictures reaches the encoder under the number of the connection: a
/// quality with a name, or else the custom one, where it is above zero; a frame rate above zero;
/// and the codecs that the peer can decode.
pub proof fn options_reach_encoder(
    s: Scene,
    env: Env,
    facts: LogonFacts,
    o: OptionMessage,
    after: Scene,
    step: LoginStep,
)
    requires
        obeyed(s, env, facts, PeerMessage::Misc(Misc::Option(o)), after, step),
        no_service_options(o),
        !says(o.privacy_mode),
        !says(o.block_input),
    ensures
        ({
            let id = s.conn.inner.id;
            let quality: Option<i32> = match o.image_quality {
                Some(ImageQuality::Named(n)) if n > 0 => Some(n),
                Some(ImageQuality::NotSet) if o.custom_image_quality > 0 => Some(
                    o.custom_image_quality,
                ),
                _ => None,
            };
            let first = if quality is Some {
                seq![Action::Qos { id, update: QosUpdate::ImageQuality(quality->0) }]
            } else {
                seq![]
            };
            let second = if o.custom_fps > 0 {
                seq![Action::Qos { id, update: QosUpdate::CustomFps(o.custom_fps as u32) }]
            } else {
                seq![]
            };
            let third = if o.supported_decoding is Some {
                seq![Action::Encoder { id, update: EncoderUpdate::Update(o.supported_decoding->0) }]
            } else {
                seq![]
            };
            after.out == s.out + first + second + third
        }),
{
}

/// Input is blocked or freed for a peer with the keyboard that may block it; another peer is told
/// through its channel that it may not.
pub proof fn block_option_is_met(
    s: Scene,
    env: Env,
    facts: LogonFacts,
    o: OptionMessage,
    after: Scene,
    step: LoginStep,
)
    requires
        obeyed(s, env, facts, PeerMessage::Misc(Misc::Option(o)), after, step),
        no_service_options(o),
        o.image_quality is None,
        o.custom_fps <= 0,
        o.supported_decoding is None,
        !says(o.privacy_mode),
    ensures
        ({
            let may = s.conn.rights.keyboard && s.conn.rights.block_input;
            &&& may && o.block_input == Some(BoolOption::Yes) ==> after.out == s.out.push(
                Action::Input(MessageInput::BlockOn),
            )
            &&& may && o.block_input == Some(BoolOption::No) ==> after.out == s.out.push(
                Action::Input(MessageInput::BlockOff),
            )
            &&& !may && o.block_input == Some(BoolOption::Yes) ==> (s.conn.inner.tx matches Some(
                channel,
            ) ==> after.out == s.out.push(
                Action::Queue {
                    channel,
                    message: Message::BlockInput {
                        state: BlockInputState::OnFailed,
                        details: Details::NoPermission,
                    },
                },
            ))
            &&& !may && o.block_input == Some(BoolOption::No) ==> (s.conn.inner.tx matches Some(
                channel,
            ) ==> after.out == s.out.push(
                Action::Queue {
                    channel,
                    message: Message::BlockInput {
                        state: BlockInputState::OffFailed,
                        details: Details::NoPermission,
                    },
                },
            ))
            &&& !says(o.block_input) || !may && s.conn.inner.tx is None ==> after.out == s.out
        }),
{
}

/// The option on privacy mode counts for peers of old versions that have the keyboard, and does
/// what the message of newer peers does, without a kind of privacy mode.
pub proof fn privacy_option_is_met(
    s: Scene,
    env: Env,
    facts: LogonFacts,
    o: OptionMessage,
    after: Scene,
    step: LoginStep,
)
    requires
        obeyed(s, env, facts, PeerMessage::Misc(Misc::Option(o)), after, step),
        no_service_options(o),
        o.image_quality is None,
        o.custom_fps <= 0,
        o.supported_decoding is None,
        !says(o.block_input),
    ensures
        ({
            let counts = s.conn.lr.version.number < env.version_1_2_4 && s.conn.rights.keyboard;
            let replaced = env.in_privacy_mode && env.privacy_impl is Some
                && !env.privacy_impl_current;
            let on = counts && o.privacy_mode == Some(BoolOption::Yes);
            let off = counts && o.privacy_mode == Some(BoolOption::No);
            &&& !on && !off ==> after.out == s.out
            &&& (on || off) && !env.privacy_mode_supported ==> after.out == s.out.push(
                Action::Send(
                    Message::PrivacyMode {
                        state: PrivacyModeState::NotSupported,
                        details: Details::PrivacyUnsupported,
                        impl_key: None,
                    },
                ),
            )
            &&& off && env.privacy_mode_supported ==> after.out == s.out.push(
                Action::TurnOffPrivacy { conn: Some(s.conn.inner.id), answer: true },
            )
            &&& on && env.privacy_mode_supported && !replaced ==> after.out == s.out.push(
                Action::TurnOnPrivacy { impl_key: None },
            )
            &&& on && env.privacy_mode_supported && replaced ==> after.out == s.out.push(
                Action::Send(
                    Message::PrivacyMode {
                        state: PrivacyModeState::OffSucceeded,
                        details: Details::Empty,
                        impl_key: env.privacy_impl,
                    },
                ),
            ).push(Action::TurnOnPrivacy { impl_key: None })
        }),
{
}

/// A right that the user of this machine switches is as the user set it, whether given or taken
/// back, and every other right is as before; a name that stands for no right changes none. Nothing
/// but the rights changes.
pub proof fn right_is_switched(
    s: Scene,
    env: Env,
    facts: LogonFacts,
    name: String,
    enabled: bool,
    after: Scene,
    go_on: bool,
)
    requires
        cm_taken(s, env, facts, CmEvent::SwitchPermission { name, enabled }, after, go_on),
    ensures
        go_on,
        after.reg == s.reg,
        after.conn == (Connection { rights: after.conn.rights, ..s.conn }),
        ({
            let r = s.conn.rights;
            let v = after.conn.rights;
            &&& v.keyboard == if name@ == "keyboard"@ { enabled } else { r.keyboard }
            &&& v.clipboard == if name@ == "clipboard"@ { enabled } else { r.clipboard }
            &&& v.audio == if name@ == "audio"@ { enabled } else { r.audio }
            &&& v.file == if name@ == "file"@ { enabled } else { r.file }
            &&& v.restart == if name@ == "restart"@ { enabled } else { r.restart }
            &&& v.recording == if name@ == "recording"@ { enabled } else { r.recording }
            &&& v.block_input == if name@ == "block_input"@ { enabled } else { r.block_input }
        }),
{
    lemma_names_differ();
}

/// The names of rights are all different.
proof fn lemma_names_differ()
    ensures
        "keyboard"@ != "clipboard"@,
        "keyboard"@ != "audio"@,
        "keyboard"@ != "file"@,
        "keyboard"@ != "restart"@,
        "keyboard"@ != "recording"@,
        "keyboard"@ != "block_input"@,
        "clipboard"@ != "audio"@,
        "clipboard"@ != "file"@,
        "clipboard"@ != "restart"@,
        "clipboard"@ != "recording"@,
        "clipboard"@ != "block_input"@,
        "audio"@ != "file"@,
        "audio"@ != "restart"@,
        "audio"@ != "recording"@,
        "audio"@ != "block_input"@,
        "file"@ != "restart"@,
        "file"@ != "recording"@,
        "file"@ != "block_input"@,
        "restart"@ != "recording"@,
        "restart"@ != "block_input"@,
        "recording"@ != "block_input"@,
{
    reveal_strlit("keyboard");
    reveal_strlit("clipboard");
    reveal_strlit("audio");
    reveal_strlit("file");
    reveal_strlit("restart");
    reveal_strlit("recording");
    reveal_strlit("block_input");
    assert("keyboard"@[0] == 'k');
    assert("clipboard"@[0] == 'c');
    assert("audio"@[0] == 'a');
    assert("file"@[0] == 'f');
    assert("block_input"@[0] == 'b');
    assert("restart"@.len() != "recording"@.len());
    assert("restart"@[0] == 'r');
    assert("recording"@[0] == 'r');
}

/// The peer hears of the right that was switched, by its own kind; and while the server is there,
/// the service that hangs on the right is brought in line with what the peer may and wants then.
pub proof fn switched_right_is_told(
    s: Scene,
    env: Env,
    facts: LogonFacts,
    name: String,
    enabled: bool,
    after: Scene,
    go_on: bool,
)
    requires
        cm_taken(s, env, facts, CmEvent::SwitchPermission { name, enabled }, after, go_on),
    ensures
        ({
            let w = s.conn.wishes;
            let r = s.conn.rights;
            let told = |permission: Permission|
                s.out.push(Action::Send(Message::Permission { permission, enabled }));
            let served = |permission: Permission, service: Service, on: bool|
                if env.server_alive {
                    told(permission).push(Action::Subscribe { service, on })
                } else {
                    told(permission)
                };
            &&& name@ == "keyboard"@ ==> after.out == served(
                Permission::Keyboard,
                Service::Cursor,
                enabled || w.show_remote_cursor,
            )
            &&& name@ == "clipboard"@ ==> after.out == served(
                Permission::Clipboard,
                Service::Clipboard,
                enabled && !w.disable_clipboard && r.keyboard && !w.disable_keyboard,
            )
            &&& name@ == "audio"@ ==> after.out == served(
                Permission::Audio,
                Service::Audio,
                enabled && !w.disable_audio,
            )
            &&& name@ == "file"@ ==> after.out == told(Permission::File)
            &&& name@ == "restart"@ ==> after.out == told(Permission::Restart)
            &&& name@ == "recording"@ ==> after.out == told(Permission::Recording)
            &&& name@ == "block_input"@ ==> after.out == told(Permission::BlockInput)
            &&& name@ != "keyboard"@ && name@ != "clipboard"@ && name@ != "audio"@ && name@
                != "file"@ && name@ != "restart"@ && name@ != "recording"@ && name@
                != "block_input"@ ==> after.out == s.out
        }),
{
    lemma_names_differ();
}

/// What the user of this machine or the connection manager has for the peer reaches it: chat, raw
/// bytes, files on the clipboard except on a phone, the end of privacy mode, the wish to swap sides
/// back, and the end of a call. Chat that the peer sent is answered by chat.
pub proof fn user_reaches_peer(
    s: Scene,
    env: Env,
    facts: LogonFacts,
    event: CmEvent,
    after: Scene,
    go_on: bool,
)
    requires
        cm_taken(s, env, facts, event, after, go_on),
    ensures
        event matches CmEvent::ChatMessage { text } ==> {
            &&& go_on
            &&& after.reg == s.reg
            &&& after.out == s.out.push(Action::Send(Message::ChatMessage { text }))
            &&& after.conn == (Connection {
                trace: Trace { chat_unanswered: false, ..s.conn.trace },
                ..s.conn
            })
        },
        event matches CmEvent::RawMessage(bytes) ==> {
            &&& go_on
            &&& after.conn == s.conn
            &&& after.reg == s.reg
            &&& after.out == s.out.push(Action::Send(Message::Raw(bytes)))
        },
        event matches CmEvent::ClipboardFile(clip) ==> {
            &&& go_on
            &&& after.conn == s.conn
            &&& after.reg == s.reg
            &&& on_phone(env.target) ==> after.out == s.out
            &&& !on_phone(env.target) ==> after.out == s.out.push(
                Action::Send(Message::ClipboardFile(clip)),
            )
        },
        event matches CmEvent::PrivacyModeState { end, impl_key } ==> {
            &&& go_on
            &&& after.conn == s.conn
            &&& after.reg == s.reg
            &&& after.out.len() == s.out.len() + 1
            &&& after.out.drop_last() == s.out
            &&& after.out.last() matches Action::Send(
                Message::PrivacyMode { state, details, impl_key: key },
            )
            &&& details == Details::Empty
            &&& key == Some(impl_key)
            &&& end == PrivacyEnd::OffSucceeded <==> state == PrivacyModeState::OffSucceeded
            &&& end == PrivacyEnd::OffByPeer <==> state == PrivacyModeState::OffByPeer
            &&& end == PrivacyEnd::OffUnknown <==> state == PrivacyModeState::OffUnknown
        },
        event is StartPortableService ==> {
            &&& go_on
            &&& after.conn == s.conn
            &&& after.reg == s.reg
            &&& env.target.os == Os::Windows ==> after.out == s.out.push(
                Action::StartPortableService,
            )
            &&& env.target.os != Os::Windows ==> after.out == s.out
        },
        event is SwitchSidesBack ==> {
            &&& go_on
            &&& after.conn == s.conn
            &&& after.reg == s.reg
            &&& after.out == s.out.push(Action::Send(Message::SwitchBack))
        },
        event is Other ==> go_on && after == s,
{
}

/// A call that waits is answered with the time under which it was asked for, and waits no more.
/// One that is accepted begins, over the default device where there is one, and the device that is
/// set is kept in mind; one that is declined ends. Without a call nothing happens.
pub proof fn call_is_answered(
    s: Scene,
    env: Env,
    facts: LogonFacts,
    accepted: bool,
    after: Scene,
    go_on: bool,
)
    requires
        cm_taken(s, env, facts, CmEvent::VoiceCallResponse(accepted), after, go_on),
    ensures
        go_on,
        after.reg == s.reg,
        s.conn.media.voice_call_request_timestamp is None ==> after == s,
        s.conn.media.voice_call_request_timestamp matches Some(req_timestamp) ==> {
            let device = after.conn.media.audio_input_device_before_voice_call;
            let answer = Action::Send(Message::VoiceCallResponse { req_timestamp, accepted });
            &&& after.conn == (Connection {
                media: Media {
                    voice_call_request_timestamp: None,
                    audio_input_device_before_voice_call: device,
                    ..s.conn.media
                },
                ..s.conn
            })
            &&& !accepted ==> device == s.conn.media.audio_input_device_before_voice_call
            &&& !accepted ==> after.out == s.out.push(
                Action::ToCm(CmData::CloseVoiceCall),
            ).push(answer)
            &&& accepted ==> device is Some
            &&& accepted && env.config.options@.dom().contains("audio-input"@) ==> device->0@
                == env.config.options@["audio-input"@]
            &&& accepted && !env.config.options@.dom().contains("audio-input"@) ==> device->0@.len()
                == 0
            &&& accepted && env.default_sound_input is None ==> after.out == s.out.push(
                Action::ToCm(CmData::StartVoiceCall),
            ).push(answer)
            &&& accepted ==> (env.default_sound_input matches Some(input) ==> after.out
                == s.out.push(Action::SetSoundInput(input)).push(
                Action::ToCm(CmData::StartVoiceCall),
            ).push(answer))
        },
{
}

/// A call that the user of this machine ends is shown as ended, the device of before the call is
/// used again, and the peer hears of it.
pub proof fn call_is_ended(s: Scene, env: Env, facts: LogonFacts, after: Scene, go_on: bool)
    requires
        cm_taken(s, env, facts, CmEvent::CloseVoiceCall, after, go_on),
    ensures
        go_on,
        after.reg == s.reg,
        after.conn == (Connection {
            media: Media { audio_input_device_before_voice_call: None, ..s.conn.media },
            ..s.conn
        }),
        ({
            let told = Action::Send(Message::VoiceCallRequest { is_connect: false });
            let shown = Action::ToCm(CmData::CloseVoiceCall);
            &&& s.conn.media.audio_input_device_before_voice_call is None ==> after.out
                == s.out.push(shown).push(told)
            &&& s.conn.media.audio_input_device_before_voice_call matches Some(device)
                ==> after.out == s.out.push(Action::SetSoundInput(device)).push(shown).push(told)
        }),
{
}

/// A connection that is still open closes: it counts as closed, forwards no port, and is otherwise
/// as before.
pub open spec fn is_closed_form(before: Connection, after: Connection) -> bool {
    after == (Connection {
        trace: Trace { closed: true, ..before.trace },
        purpose: Purpose { port_forward: false, ..before.purpose },
        ..before
    })
}

/// A connection that the user of this machine ends tells the peer so, loses its session, and
/// closes with nothing left unseen. The screen is locked where the peer wanted that and has the
/// keyboard, except on a phone.
pub proof fn user_ends_connection(s: Scene, env: Env, facts: LogonFacts, after: Scene, go_on: bool)
    requires
        cm_taken(s, env, facts, CmEvent::Close, after, go_on),
        !s.conn.trace.closed,
    ensures
        !go_on,
        after.reg == (RegistryView { sessions: s.reg.sessions.remove(s.conn.lr.my_id@), ..s.reg }),
        is_closed_form(
            (Connection {
                trace: Trace { chat_unanswered: false, file_transferred: false, ..s.conn.trace },
                ..s.conn
            }),
            after.conn,
        ),
        ({
            let lock = s.conn.wishes.lock_after_session_end && s.conn.rights.keyboard && !on_phone(
                env.target,
            );
            after.out == s.out.push(Action::Send(Message::CloseReason(CloseReason::ClosedByPeer)))
                + (if lock { seq![Action::LockScreen] } else { seq![] }) + seq![
                Action::ToCm(CmData::Close),
            ] + (if s.conn.purpose.port_forward { seq![Action::CloseForward] } else { seq![] })
        }),
{
}

/// A connection whose connection manager is gone closes, without a lock and without a reason. It
/// stays in view where chat was not answered or, with the new window, files were transferred. That
/// the connection manager is gone as expected changes nothing.
pub proof fn lost_manager_ends_connection(
    s: Scene,
    env: Env,
    facts: LogonFacts,
    error: String,
    after: Scene,
    go_on: bool,
)
    requires
        cm_taken(s, env, facts, CmEvent::CmErr(error), after, go_on),
        !s.conn.trace.closed,
    ensures
        error@ == "expected"@ ==> go_on && after == s,
        error@ != "expected"@ ==> {
            let seen = !(s.conn.trace.chat_unanswered || s.conn.trace.file_transferred
                && env.target.flutter) || on_phone(env.target);
            &&& !go_on
            &&& after.reg == s.reg
            &&& is_closed_form(s.conn, after.conn)
            &&& after.out == s.out + seq![
                Action::ToCm(if seen { CmData::Close } else { CmData::Disconnected }),
            ] + (if s.conn.purpose.port_forward { seq![Action::CloseForward] } else { seq![] })
        },
{
}

/// A peer that ends the connection itself loses its session, and the connection closes as wanted:
/// with the screen locked where the peer wanted that and has the keyboard, except on a phone.
pub proof fn peer_ends_connection(
    s: Scene,
    env: Env,
    facts: LogonFacts,
    after: Scene,
    step: LoginStep,
)
    requires
        obeyed(s, env, facts, PeerMessage::Misc(Misc::CloseReason), after, step),
        !s.conn.trace.closed,
    ensures
        step == LoginStep::Done(false),
        after.reg == (RegistryView { sessions: s.reg.sessions.remove(s.conn.lr.my_id@), ..s.reg }),
        is_closed_form(s.conn, after.conn),
        ({
            let seen = !(s.conn.trace.chat_unanswered || s.conn.trace.file_transferred
                && env.target.flutter) || on_phone(env.target);
            let lock = s.conn.wishes.lock_after_session_end && s.conn.rights.keyboard && !on_phone(
                env.target,
            );
            after.out == s.out + (if lock { seq![Action::LockScreen] } else { seq![] }) + seq![
                Action::ToCm(if seen { CmData::Close } else { CmData::Disconnected }),
            ]
        }),
{
}

} // verus!
