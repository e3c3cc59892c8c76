//! Options that a peer sets while it is connected.

use vstd::prelude::*;

use crate::action::{add_if, lemma_push_if_contains, push_if, Action, CmData, EncoderUpdate, MessageInput, QosUpdate, Service};
use crate::connection::{Connection, Wishes};
use crate::env::Env;
use crate::message::{
    BlockInputState, BoolOption, Details, ImageQuality, Message, OptionMessage, PrivacyModeState,
};
use crate::privacy::{privacy_told, turn_off_actions, turn_on_actions};
use crate::target::Target;

verus! {

/// The option is set to yes or to no.
pub open spec fn is_chosen(option: Option<BoolOption>) -> bool {
    option == Some(BoolOption::Yes) || option == Some(BoolOption::No)
}

/// What an option that is `before` becomes.
pub open spec fn choice(option: Option<BoolOption>, before: bool) -> bool {
    match option {
        Some(BoolOption::Yes) => true,
        Some(BoolOption::No) => false,
        _ => before,
    }
}

/// Whether the option is set to yes or to no.
fn chosen(option: Option<BoolOption>) -> (yes: bool)
    ensures
        yes == is_chosen(option),
{
    match option {
        Some(BoolOption::Yes) => true,
        Some(BoolOption::No) => true,
        _ => false,
    }
}

/// What an option that is `before` becomes.
fn chosen_or(option: Option<BoolOption>, before: bool) -> (after: bool)
    ensures
        after == choice(option, before),
{
    match option {
        Some(BoolOption::Yes) => true,
        Some(BoolOption::No) => false,
        _ => before,
    }
}

/// The image quality that the options ask for: the one with a name, or else the custom one.
pub open spec fn wanted_quality(o: OptionMessage) -> Option<i32> {
    match o.image_quality {
        Some(ImageQuality::NotSet) => if o.custom_image_quality > 0 {
            Some(o.custom_image_quality)
        } else {
            None
        },
        Some(ImageQuality::Named(number)) => if number > 0 {
            Some(number)
        } else {
            None
        },
        None => None,
    }
}

/// What the peer wants once it has set options.
pub open spec fn wishes_after(w: Wishes, o: OptionMessage, target: Target) -> Wishes {
    Wishes {
        lock_after_session_end: choice(o.lock_after_session_end, w.lock_after_session_end),
        show_remote_cursor: if target.is_desktop() {
            choice(o.show_remote_cursor, w.show_remote_cursor)
        } else {
            w.show_remote_cursor
        },
        follow_remote_cursor: if target.is_desktop() {
            choice(o.follow_remote_cursor, w.follow_remote_cursor)
        } else {
            w.follow_remote_cursor
        },
        follow_remote_window: choice(o.follow_remote_window, w.follow_remote_window),
        disable_audio: choice(o.disable_audio, w.disable_audio),
        enable_file_transfer: if target.is_desktop() {
            choice(o.enable_file_transfer, w.enable_file_transfer)
        } else {
            w.enable_file_transfer
        },
        disable_clipboard: choice(o.disable_clipboard, w.disable_clipboard),
        disable_keyboard: choice(o.disable_keyboard, w.disable_keyboard),
    }
}

/// The connection once its peer has set options.
pub open spec fn options_set(c: Connection, o: OptionMessage, target: Target) -> Connection {
    Connection { wishes: wishes_after(c.wishes, o, target), ..c }
}

/// What the options ask of the encoder.
pub open spec fn picture_actions(id: i32, out: Seq<Action>, o: OptionMessage) -> Seq<Action> {
    let out = push_if(
        out,
        wanted_quality(o) is Some,
        Action::Qos { id, update: QosUpdate::ImageQuality(wanted_quality(o)->0) },
    );
    let out = push_if(
        out,
        o.custom_fps > 0,
        Action::Qos { id, update: QosUpdate::CustomFps(o.custom_fps as u32) },
    );
    push_if(
        out,
        o.supported_decoding is Some,
        Action::Encoder { id, update: EncoderUpdate::Update(o.supported_decoding->0) },
    )
}

/// What the options ask of the services: each option that is set and that a service hangs on
/// brings that service in line.
pub open spec fn service_actions(
    c: Connection,
    env: Env,
    out: Seq<Action>,
    o: OptionMessage,
) -> Seq<Action> {
    let w = wishes_after(c.wishes, o, env.target);
    let keyboard = c.rights.keyboard && !w.disable_keyboard;
    let clipboard = c.rights.clipboard && !w.disable_clipboard;
    let cursor = is_chosen(o.show_remote_cursor) && env.target.is_desktop() && env.server_alive;
    let out = push_if(
        out,
        cursor,
        Action::Subscribe {
            service: Service::Cursor,
            on: c.keyboard_on() || w.show_remote_cursor,
        },
    );
    let out = push_if(
        out,
        cursor,
        Action::Subscribe { service: Service::CursorPosition, on: w.show_remote_cursor },
    );
    let out = push_if(
        out,
        is_chosen(o.follow_remote_window) && env.server_alive,
        Action::Subscribe { service: Service::WindowFocus, on: w.follow_remote_window },
    );
    let out = push_if(
        out,
        is_chosen(o.disable_audio) && env.server_alive,
        Action::Subscribe { service: Service::Audio, on: c.rights.audio && !w.disable_audio },
    );
    let out = push_if(
        out,
        is_chosen(o.enable_file_transfer) && env.target.is_desktop(),
        Action::ToCm(
            CmData::ClipboardFileEnabled(c.rights.file && w.enable_file_transfer),
        ),
    );
    let out = push_if(
        out,
        is_chosen(o.disable_clipboard) && env.server_alive,
        Action::Subscribe { service: Service::Clipboard, on: clipboard && c.keyboard_on() },
    );
    let out = push_if(
        out,
        is_chosen(o.disable_keyboard) && env.server_alive,
        Action::Subscribe { service: Service::Clipboard, on: clipboard && keyboard },
    );
    push_if(
        out,
        is_chosen(o.disable_keyboard) && env.server_alive,
        Action::Subscribe { service: Service::Cursor, on: keyboard || w.show_remote_cursor },
    )
}

/// What the option on privacy mode asks for. Peers of newer versions have a message for that.
pub open spec fn privacy_option_actions(
    c: Connection,
    env: Env,
    out: Seq<Action>,
    option: Option<BoolOption>,
) -> Seq<Action> {
    if c.lr.version.number >= env.version_1_2_4 || !c.rights.keyboard {
        out
    } else if option == Some(BoolOption::Yes) {
        turn_on_actions(env, out, None)
    } else if option == Some(BoolOption::No) {
        turn_off_actions(c, env, out, None)
    } else {
        out
    }
}

/// What the option on blocked input asks for; without the right to it, the peer is told so.
pub open spec fn block_option_actions(
    c: Connection,
    out: Seq<Action>,
    option: Option<BoolOption>,
) -> Seq<Action> {
    if !is_chosen(option) {
        out
    } else if c.rights.keyboard && c.rights.block_input {
        out.push(
            Action::Input(
                if option == Some(BoolOption::Yes) {
                    MessageInput::BlockOn
                } else {
                    MessageInput::BlockOff
                },
            ),
        )
    } else if c.inner.tx is Some {
        out.push(
            Action::Queue {
                channel: c.inner.tx->0,
                message: Message::BlockInput {
                    state: if option == Some(BoolOption::Yes) {
                        BlockInputState::OnFailed
                    } else {
                        BlockInputState::OffFailed
                    },
                    details: Details::NoPermission,
                },
            },
        )
    } else {
        out
    }
}

/// What a peer's options ask for.
pub open spec fn options_actions(
    c: Connection,
    env: Env,
    out: Seq<Action>,
    o: OptionMessage,
) -> Seq<Action> {
    let out = picture_actions(c.inner.id, out, o);
    let out = service_actions(c, env, out, o);
    let out = privacy_option_actions(c, env, out, o.privacy_mode);
    block_option_actions(c, out, o.block_input)
}

impl Connection {
    /// Hands the options on pictures to the encoder.
    fn update_picture_options(&self, o: &OptionMessage, out: &mut Vec<Action>)
        ensures
            final(out)@ == picture_actions(self.inner.id, old(out)@, *o),
    {
        let id = self.inner.id;
        if let Some(q) = o.image_quality {
            let image_quality: i32 = match q {
                ImageQuality::NotSet => {
                    if o.custom_image_quality > 0 {
                        o.custom_image_quality
                    } else {
                        -1
                    }
                },
                ImageQuality::Named(number) => number,
            };
            if image_quality > 0 {
                out.push(Action::Qos { id, update: QosUpdate::ImageQuality(image_quality) });
            }
        }
        if o.custom_fps > 0 {
            out.push(Action::Qos { id, update: QosUpdate::CustomFps(o.custom_fps as u32) });
        }
        if let Some(q) = o.supported_decoding {
            out.push(Action::Encoder { id, update: EncoderUpdate::Update(q) });
        }
    }

    /// Brings the services in line with what the peer wants from now on.
    fn update_service_options(
        &self,
        env: &Env,
        o: &OptionMessage,
        w: &Wishes,
        out: &mut Vec<Action>,
    )
        requires
            *w == wishes_after(self.wishes, *o, env.target),
        ensures
            final(out)@ == service_actions(*self, *env, old(out)@, *o),
    {
        let desktop = env.target.desktop();
        let keyboard_before = self.peer_keyboard_enabled();
        let keyboard = self.rights.keyboard && !w.disable_keyboard;
        let clipboard = self.rights.clipboard && !w.disable_clipboard;
        let cursor = chosen(o.show_remote_cursor) && desktop && env.server_alive;
        let on = keyboard_before || w.show_remote_cursor;
        add_if(out, cursor, Action::Subscribe { service: Service::Cursor, on });
        let on = w.show_remote_cursor;
        add_if(out, cursor, Action::Subscribe { service: Service::CursorPosition, on });
        let window = chosen(o.follow_remote_window) && env.server_alive;
        let on = w.follow_remote_window;
        add_if(out, window, Action::Subscribe { service: Service::WindowFocus, on });
        let audio = chosen(o.disable_audio) && env.server_alive;
        let on = self.rights.audio && !w.disable_audio;
        add_if(out, audio, Action::Subscribe { service: Service::Audio, on });
        let files = chosen(o.enable_file_transfer) && desktop;
        let on = self.rights.file && w.enable_file_transfer;
        add_if(out, files, Action::ToCm(CmData::ClipboardFileEnabled(on)));
        let clips = chosen(o.disable_clipboard) && env.server_alive;
        let on = clipboard && keyboard_before;
        add_if(out, clips, Action::Subscribe { service: Service::Clipboard, on });
        let keys = chosen(o.disable_keyboard) && env.server_alive;
        let on = clipboard && keyboard;
        add_if(out, keys, Action::Subscribe { service: Service::Clipboard, on });
        let on = keyboard || w.show_remote_cursor;
        add_if(out, keys, Action::Subscribe { service: Service::Cursor, on });
    }

    /// What the peer wants once it has set options.
    fn wished(&self, target: &Target, o: &OptionMessage) -> (w: Wishes)
        ensures
            w == wishes_after(self.wishes, *o, *target),
    {
        let desktop = target.desktop();
        let w = self.wishes;
        Wishes {
            lock_after_session_end: chosen_or(o.lock_after_session_end, w.lock_after_session_end),
            show_remote_cursor: if desktop {
                chosen_or(o.show_remote_cursor, w.show_remote_cursor)
            } else {
                w.show_remote_cursor
            },
            follow_remote_cursor: if desktop {
                chosen_or(o.follow_remote_cursor, w.follow_remote_cursor)
            } else {
                w.follow_remote_cursor
            },
            follow_remote_window: chosen_or(o.follow_remote_window, w.follow_remote_window),
            disable_audio: chosen_or(o.disable_audio, w.disable_audio),
            enable_file_transfer: if desktop {
                chosen_or(o.enable_file_transfer, w.enable_file_transfer)
            } else {
                w.enable_file_transfer
            },
            disable_clipboard: chosen_or(o.disable_clipboard, w.disable_clipboard),
            disable_keyboard: chosen_or(o.disable_keyboard, w.disable_keyboard),
        }
    }

    /// Takes up the option on privacy mode.
    fn update_privacy_option(
        &self,
        env: &Env,
        option: Option<BoolOption>,
        out: &mut Vec<Action>,
    )
        ensures
            final(out)@ == privacy_option_actions(*self, *env, old(out)@, option),
    {
        if self.lr.version.number < env.version_1_2_4 {
            if let Some(q) = option {
                if self.rights.keyboard {
                    match q {
                        BoolOption::Yes => self.turn_on_privacy(env, None, out),
                        BoolOption::No => self.turn_off_privacy(env, None, out),
                        BoolOption::NotSet => {},
                    }
                }
            }
        }
    }

    /// Takes up the option on blocked input.
    fn update_block_option(&self, option: Option<BoolOption>, out: &mut Vec<Action>)
        ensures
            final(out)@ == block_option_actions(*self, old(out)@, option),
    {
        if let Some(q) = option {
            if self.rights.keyboard && self.rights.block_input {
                match q {
                    BoolOption::Yes => out.push(Action::Input(MessageInput::BlockOn)),
                    BoolOption::No => out.push(Action::Input(MessageInput::BlockOff)),
                    BoolOption::NotSet => {},
                }
            } else {
                if q != BoolOption::NotSet {
                    let state = if q == BoolOption::Yes {
                        BlockInputState::OnFailed
                    } else {
                        BlockInputState::OffFailed
                    };
                    if let Some(tx) = &self.inner.tx {
                        Self::send_block_input_error(tx, state, Details::NoPermission, out);
                    }
                }
            }
        }
    }

    /// Takes up options that the peer sets.
    pub fn update_options(&mut self, env: &Env, o: &OptionMessage, out: &mut Vec<Action>)
        ensures
            *final(self) == options_set(*old(self), *o, env.target),
            final(out)@ == options_actions(*old(self), *env, old(out)@, *o),
    {
        self.update_picture_options(o, out);
        let wishes = self.wished(&env.target, o);
        self.update_service_options(env, o, &wishes, out);
        self.wishes = wishes;
        self.update_privacy_option(env, o.privacy_mode, out);
        self.update_block_option(o.block_input, out);
    }
}

/// Options that are all left as they are change nothing and ask for nothing.
pub proof fn options_left_alone(c: Connection, env: Env, out: Seq<Action>, o: OptionMessage)
    requires
        wanted_quality(o) is None,
        o.custom_fps <= 0,
        o.supported_decoding is None,
        !is_chosen(o.lock_after_session_end),
        !is_chosen(o.show_remote_cursor),
        !is_chosen(o.follow_remote_cursor),
        !is_chosen(o.follow_remote_window),
        !is_chosen(o.disable_audio),
        !is_chosen(o.enable_file_transfer),
        !is_chosen(o.disable_clipboard),
        !is_chosen(o.disable_keyboard),
        !is_chosen(o.privacy_mode),
        !is_chosen(o.block_input),
    ensures
        options_set(c, o, env.target) == c,
        options_actions(c, env, out, o) == out,
{
}

/// What the options ask of encoder and services is no input on this machine.
proof fn lemma_no_input(c: Connection, env: Env, o: OptionMessage, x: Action)
    requires
        x is Input,
    ensures
        !service_actions(c, env, picture_actions(c.inner.id, seq![], o), o).contains(x),
{
    let id = c.inner.id;
    let w = wishes_after(c.wishes, o, env.target);
    let keyboard = c.rights.keyboard && !w.disable_keyboard;
    let clipboard = c.rights.clipboard && !w.disable_clipboard;
    let cursor = is_chosen(o.show_remote_cursor) && env.target.is_desktop() && env.server_alive;
    let p0 = seq![];
    let quality = Action::Qos { id, update: QosUpdate::ImageQuality(wanted_quality(o)->0) };
    let fps = Action::Qos { id, update: QosUpdate::CustomFps(o.custom_fps as u32) };
    let decoding = Action::Encoder { id, update: EncoderUpdate::Update(o.supported_decoding->0) };
    let p1 = push_if(p0, wanted_quality(o) is Some, quality);
    let p2 = push_if(p1, o.custom_fps > 0, fps);
    let p3 = push_if(p2, o.supported_decoding is Some, decoding);
    lemma_push_if_contains(p0, wanted_quality(o) is Some, quality, x);
    lemma_push_if_contains(p1, o.custom_fps > 0, fps, x);
    lemma_push_if_contains(p2, o.supported_decoding is Some, decoding, x);
    let on = c.keyboard_on() || w.show_remote_cursor;
    let a0 = Action::Subscribe { service: Service::Cursor, on };
    let s0 = push_if(p3, cursor, a0);
    lemma_push_if_contains(p3, cursor, a0, x);
    let a1 = Action::Subscribe { service: Service::CursorPosition, on: w.show_remote_cursor };
    let s1 = push_if(s0, cursor, a1);
    lemma_push_if_contains(s0, cursor, a1, x);
    let window = is_chosen(o.follow_remote_window) && env.server_alive;
    let a2 = Action::Subscribe { service: Service::WindowFocus, on: w.follow_remote_window };
    let s2 = push_if(s1, window, a2);
    lemma_push_if_contains(s1, window, a2, x);
    let audio = is_chosen(o.disable_audio) && env.server_alive;
    let a3 = Action::Subscribe { service: Service::Audio, on: c.rights.audio && !w.disable_audio };
    let s3 = push_if(s2, audio, a3);
    lemma_push_if_contains(s2, audio, a3, x);
    let files = is_chosen(o.enable_file_transfer) && env.target.is_desktop();
    let a4 = Action::ToCm(CmData::ClipboardFileEnabled(c.rights.file && w.enable_file_transfer));
    let s4 = push_if(s3, files, a4);
    lemma_push_if_contains(s3, files, a4, x);
    let clips = is_chosen(o.disable_clipboard) && env.server_alive;
    let a5 = Action::Subscribe { service: Service::Clipboard, on: clipboard && c.keyboard_on() };
    let s5 = push_if(s4, clips, a5);
    lemma_push_if_contains(s4, clips, a5, x);
    let keys = is_chosen(o.disable_keyboard) && env.server_alive;
    let a6 = Action::Subscribe { service: Service::Clipboard, on: clipboard && keyboard };
    let s6 = push_if(s5, keys, a6);
    lemma_push_if_contains(s5, keys, a6, x);
    let a7 = Action::Subscribe { service: Service::Cursor, on: keyboard || w.show_remote_cursor };
    lemma_push_if_contains(s6, keys, a7, x);
}

/// Without the right to the keyboard and to block input, no option of the peer puts anything into
/// the input of this machine.
pub proof fn block_needs_rights(c: Connection, env: Env, o: OptionMessage, x: Action)
    requires
        !(c.rights.keyboard && c.rights.block_input),
        x is Input,
    ensures
        !options_actions(c, env, seq![], o).contains(x),
{
    lemma_no_input(c, env, o, x);
    let out = service_actions(c, env, picture_actions(c.inner.id, seq![], o), o);
    let not_supported = privacy_told(
        PrivacyModeState::NotSupported,
        Details::PrivacyUnsupported,
        None,
    );
    let off = privacy_told(PrivacyModeState::OffSucceeded, Details::Empty, env.privacy_impl);
    let tell = env.in_privacy_mode && env.privacy_impl is Some && !env.privacy_impl_current;
    lemma_push_if_contains(out, true, not_supported, x);
    lemma_push_if_contains(out, tell, off, x);
    lemma_push_if_contains(
        push_if(out, tell, off),
        true,
        Action::TurnOnPrivacy { impl_key: None },
        x,
    );
    lemma_push_if_contains(
        out,
        true,
        Action::TurnOffPrivacy { conn: Some(c.inner.id), answer: true },
        x,
    );
    let then_out = privacy_option_actions(c, env, out, o.privacy_mode);
    assert(!then_out.contains(x));
    let failed = Action::Queue {
        channel: c.inner.tx->0,
        message: Message::BlockInput {
            state: if o.block_input == Some(BoolOption::Yes) {
                BlockInputState::OnFailed
            } else {
                BlockInputState::OffFailed
            },
            details: Details::NoPermission,
        },
    };
    lemma_push_if_contains(then_out, true, failed, x);
}

/// Setting the same options a second time changes no wish.
pub proof fn options_settle(c: Connection, o: OptionMessage, target: Target)
    ensures
        options_set(options_set(c, o, target), o, target) == options_set(c, o, target),
{
}

} // verus!
