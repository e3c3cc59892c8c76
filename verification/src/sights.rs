//! What a peer sees of this machine: displays, resolutions, privacy mode, and the messages of the
//! services, in terms of what was asked for and what is done.

use vstd::prelude::*;

use crate::action::{Action, CmData, Fs, NoPermissions, Service};
use crate::closing::close_actions;
use crate::connection::{Connection, Media, Purpose, Scene};
use crate::deeds::{nothing_happens, obeyed, on_phone, only_does};
use crate::display::{missing, missing_serves_all};
use crate::env::{DisplayKind, Env};
use crate::login::LoginStep;
use crate::logon::LogonFacts;
use crate::message::{
    CloseReason, CursorPosition, Details, Message, Misc, PeerMessage, PrivacyModeState, Prompt,
};
use crate::privacy::{checked_actions, turned_on_actions, TurnedOn};
use crate::registry::{AuthConnType, RegistryView};
use crate::retina::{DisplayInfo, Retina};
use crate::run::outgoing_taken;
use crate::target::Os;

verus! {

/// This program runs with more rights and for several peers, so that none of them may leave the
/// primary display for `display`.
pub open spec fn is_held(env: Env, display: i32) -> bool {
    &&& env.target.os == Os::Windows
    &&& env.portable_running
    &&& env.conn_count > 1
    &&& display != env.primary_display as i32
}

/// A peer that asks for the display it sees gets nothing done; one that may not leave the primary
/// display is told so; and without the server it only hears which display it sees.
pub proof fn display_stays(
    s: Scene,
    env: Env,
    facts: LogonFacts,
    display: i32,
    width: i32,
    height: i32,
    after: Scene,
    step: LoginStep,
)
    requires
        obeyed(
            s,
            env,
            facts,
            PeerMessage::Misc(Misc::SwitchDisplay { display, width, height }),
            after,
            step,
        ),
    ensures
        is_held(env, display) ==> only_does(
            s,
            after,
            step,
            Action::Send(Message::MessageBox(Prompt::SwitchDisplayElevated)),
        ),
        !is_held(env, display) && s.conn.media.display_idx == display as usize ==> nothing_happens(
            s,
            after,
            step,
        ),
        !is_held(env, display) && s.conn.media.display_idx != display as usize
            && !env.server_alive ==> only_does(
            s,
            after,
            step,
            Action::SendDisplayChanged { display: s.conn.media.display_idx },
        ),
{
}

/// A peer that asks for another display sees it from then on: it is subscribed to the pictures of
/// that display, for which a service is added where there is none and it is not the primary one,
/// and an old peer leaves the display of before. It hears of the change last.
pub proof fn display_changes(
    s: Scene,
    env: Env,
    facts: LogonFacts,
    display: i32,
    width: i32,
    height: i32,
    after: Scene,
    step: LoginStep,
)
    requires
        obeyed(
            s,
            env,
            facts,
            PeerMessage::Misc(Misc::SwitchDisplay { display, width, height }),
            after,
            step,
        ),
        !is_held(env, display),
        s.conn.media.display_idx != display as usize,
        env.server_alive,
    ensures
        step == LoginStep::Done(true),
        after.reg == s.reg,
        after.conn == (Connection {
            media: Media { display_idx: display as usize, ..s.conn.media },
            ..s.conn
        }),
        after.out.last() == (Action::SendDisplayChanged { display: display as usize }),
        ({
            let index = display as usize;
            let new = index != env.primary_display && !env.video_services@.contains(index);
            width == 0 || height == 0 || on_phone(env.target) || !s.conn.rights.keyboard
                ==> after.out == s.out + (if new {
                seq![Action::AddVideoService(index)]
            } else {
                seq![]
            }) + (if s.conn.lr.version.multi_ui_session {
                seq![]
            } else {
                seq![
                    Action::Subscribe {
                        service: Service::Video(s.conn.media.display_idx),
                        on: false,
                    },
                ]
            }) + seq![
                Action::Subscribe { service: Service::Video(index), on: true },
                Action::SendDisplayChanged { display: index },
            ]
        }),
{
}

/// The wish for several displays is refused while this program runs with more rights, and counts
/// for nothing without the server. Otherwise displays are added where the peer names some to add,
/// else taken away where it names some to take away, else set; and each that it names to add or set
/// has a service then.
pub proof fn displays_are_captured(
    s: Scene,
    env: Env,
    facts: LogonFacts,
    add: Vec<usize>,
    sub: Vec<usize>,
    set: Vec<usize>,
    after: Scene,
    step: LoginStep,
    i: int,
    d: usize,
)
    requires
        obeyed(
            s,
            env,
            facts,
            PeerMessage::Misc(Misc::CaptureDisplays { add, sub, set }),
            after,
            step,
        ),
    ensures
        ({
            let refused = env.target.os == Os::Windows && env.portable_running && (add@.len() > 0
                || set@.len() > 1);
            &&& refused ==> only_does(
                s,
                after,
                step,
                Action::Send(Message::MessageBox(Prompt::CaptureDisplayElevated)),
            )
            &&& !refused && !env.server_alive ==> nothing_happens(s, after, step)
            &&& !refused && env.server_alive ==> {
                &&& step == LoginStep::Done(true)
                &&& after.conn == s.conn
                &&& after.reg == s.reg
                &&& after.out.len() > s.out.len()
                &&& after.out.take(s.out.len() as int) == s.out
                &&& add@.len() > 0 ==> after.out.last() == (Action::CaptureDisplays {
                    displays: add,
                    start: true,
                    stop: false,
                })
                &&& add@.len() == 0 && sub@.len() > 0 ==> after.out.last()
                    == (Action::CaptureDisplays { displays: sub, start: false, stop: true })
                &&& add@.len() == 0 && sub@.len() == 0 ==> after.out.last()
                    == (Action::CaptureDisplays { displays: set, start: true, stop: true })
                &&& s.out.len() <= i < after.out.len() - 1 ==> {
                    &&& after.out[i] matches Action::AddVideoService(new)
                    &&& add@.contains(new) || set@.contains(new)
                    &&& !env.video_services@.contains(new)
                }
                &&& add@.contains(d) || set@.contains(d) ==> env.video_services@.contains(d)
                    || after.out.contains(Action::AddVideoService(d))
            }
        }),
{
    let refused = env.target.os == Os::Windows && env.portable_running && (add@.len() > 0
        || set@.len() > 1);
    if !refused && env.server_alive {
        let have = env.video_services@;
        let wanted = add@ + set@;
        let new = missing(have, wanted);
        missing_serves_all(have, wanted);
        let n = s.out.len() as int;
        assert(after.out.len() == n + new.len() + 1);
        assert(after.out.take(n) =~= s.out);
        if n <= i < after.out.len() - 1 {
            let x = new[i - n];
            assert(after.out[i] == Action::AddVideoService(x));
            assert(new.contains(x));
            let k = choose|k: int| 0 <= k < wanted.len() && wanted[k] == x;
            if k < add@.len() {
                assert(add@[k] == x);
            } else {
                assert(set@[k - add@.len()] == x);
            }
        }
        if add@.contains(d) || set@.contains(d) {
            if add@.contains(d) {
                let k = choose|k: int| 0 <= k < add@.len() && add@[k] == d;
                assert(wanted[k] == d);
            } else {
                let k = choose|k: int| 0 <= k < set@.len() && set@[k] == d;
                assert(wanted[add@.len() + k] == d);
            }
            if !have.contains(d) {
                assert(new.contains(d));
                let k = choose|k: int| 0 <= k < new.len() && new[k] == d;
                assert(after.out[n + k] == Action::AddVideoService(d));
            }
        }
    }
}

/// The resolution of the display that the peer sees, or of the one that it names, is changed for a
/// peer with the keyboard. The former resolution is kept in mind, except of virtual displays on
/// Windows, of which one kind is changed in a way of its own. Without the keyboard, on a phone, or
/// for a display that is not there, nothing happens.
pub proof fn resolution_is_changed(
    s: Scene,
    env: Env,
    facts: LogonFacts,
    misc: Misc,
    after: Scene,
    step: LoginStep,
)
    requires
        obeyed(s, env, facts, PeerMessage::Misc(misc), after, step),
        misc is ChangeResolution || misc is ChangeDisplayResolution,
    ensures
        ({
            let r = if misc is ChangeResolution {
                misc->ChangeResolution_0
            } else {
                misc->resolution
            };
            let index = if misc is ChangeResolution {
                s.conn.media.display_idx
            } else {
                misc->ChangeDisplayResolution_display as usize
            };
            let there = env.displays is Some && index < env.displays->0@.len();
            let d = env.displays->0@[index as int];
            let windows = env.target.os == Os::Windows;
            let change = Action::ChangeResolution {
                name: d.name,
                width: r.width,
                height: r.height,
            };
            let may = !on_phone(env.target) && s.conn.rights.keyboard && there;
            &&& !may ==> nothing_happens(s, after, step)
            &&& may ==> step == LoginStep::Done(true) && after.conn == s.conn && after.reg == s.reg
            &&& may && windows && d.kind == DisplayKind::Virtual ==> after.out == s.out.push(
                Action::ChangeVirtualResolution {
                    name: d.name,
                    width: r.width,
                    height: r.height,
                },
            )
            &&& may && windows && d.kind == DisplayKind::Amyuni ==> after.out == s.out.push(change)
            &&& may && (!windows || d.kind == DisplayKind::Physical) ==> after.out == s.out.push(
                Action::RecordResolution {
                    name: d.name,
                    original: (d.width, d.height),
                    changed: (r.width, r.height),
                },
            ).push(change)
        }),
{
}

/// Privacy mode is turned on or off for the peer as it says, of the kind that it says, where this
/// machine has it; where another kind is on, the peer hears first that this one ended.
pub proof fn privacy_mode_is_toggled(
    s: Scene,
    env: Env,
    facts: LogonFacts,
    impl_key: String,
    on: bool,
    after: Scene,
    step: LoginStep,
)
    requires
        obeyed(
            s,
            env,
            facts,
            PeerMessage::Misc(Misc::TogglePrivacyMode { impl_key, on }),
            after,
            step,
        ),
    ensures
        step == LoginStep::Done(true),
        after.conn == s.conn,
        after.reg == s.reg,
        !env.privacy_mode_supported ==> after.out == s.out.push(
            Action::Send(
                Message::PrivacyMode {
                    state: PrivacyModeState::NotSupported,
                    details: Details::PrivacyUnsupported,
                    impl_key: Some(impl_key),
                },
            ),
        ),
        env.privacy_mode_supported && !on ==> after.out == s.out.push(
            Action::TurnOffPrivacy { conn: Some(s.conn.inner.id), answer: true },
        ),
        env.privacy_mode_supported && on && !(env.in_privacy_mode && env.privacy_impl is Some
            && !env.privacy_impl_current) ==> after.out == s.out.push(
            Action::TurnOnPrivacy { impl_key: Some(impl_key) },
        ),
        env.privacy_mode_supported && on && env.in_privacy_mode && env.privacy_impl is Some
            && !env.privacy_impl_current ==> after.out == s.out.push(
            Action::Send(
                Message::PrivacyMode {
                    state: PrivacyModeState::OffSucceeded,
                    details: Details::Empty,
                    impl_key: env.privacy_impl,
                },
            ),
        ).push(Action::TurnOnPrivacy { impl_key: Some(impl_key) }),
{
}

/// Privacy mode that was turned on is looked at within five seconds, on the display that the peer
/// sees. What went wrong is told to the peer; a mode that is on though turning it on failed is
/// turned off first.
pub proof fn privacy_mode_is_checked(
    c: Connection,
    env: Env,
    out: Seq<Action>,
    impl_key: Option<String>,
    result: TurnedOn,
)
    ensures
        ({
            let after = turned_on_actions(c, env, out, impl_key, result);
            let told = |state: PrivacyModeState, details: Details|
                Action::Send(Message::PrivacyMode { state, details, impl_key });
            &&& result == TurnedOn::Done(true) ==> after == out.push(
                Action::CheckPrivacyMode {
                    display: c.media.display_idx,
                    timeout_ms: 5_000,
                    impl_key,
                },
            )
            &&& result == TurnedOn::Done(false) ==> after == out.push(
                told(PrivacyModeState::OnFailedPlugin, Details::Empty),
            )
            &&& result == TurnedOn::Absent ==> after == out.push(
                told(PrivacyModeState::OffFailed, Details::NotSupported),
            )
            &&& result matches TurnedOn::Failed(error) ==> {
                let failed = told(PrivacyModeState::OnFailed, Details::Other(error));
                &&& env.in_privacy_mode ==> after == out.push(
                    Action::TurnOffPrivacy { conn: None, answer: false },
                ).push(failed)
                &&& !env.in_privacy_mode ==> after == out.push(failed)
            }
        }),
{
}

/// Privacy mode that works is told as on; one that does not is turned off for this connection, and
/// the peer hears why.
pub proof fn privacy_mode_works_or_ends(
    c: Connection,
    out: Seq<Action>,
    impl_key: Option<String>,
    error: String,
)
    ensures
        error@.len() == 0 ==> checked_actions(c, out, impl_key, error) == out.push(
            Action::Send(
                Message::PrivacyMode {
                    state: PrivacyModeState::OnSucceeded,
                    details: Details::Empty,
                    impl_key,
                },
            ),
        ),
        error@.len() > 0 ==> checked_actions(c, out, impl_key, error) == out.push(
            Action::TurnOffPrivacy { conn: Some(c.inner.id), answer: false },
        ).push(
            Action::Send(
                Message::PrivacyMode {
                    state: PrivacyModeState::OnFailed,
                    details: Details::Other(error),
                    impl_key,
                },
            ),
        ),
{
}

/// Swapping sides starts this program anew as the side that controls the peer, with the peer's id
/// and the token that it gave, and closes this connection without locking the screen. A token that
/// is not sixteen bytes long, or another window, makes it count for nothing.
pub proof fn sides_are_swapped(
    s: Scene,
    env: Env,
    facts: LogonFacts,
    uuid: Vec<u8>,
    after: Scene,
    step: LoginStep,
)
    requires
        obeyed(
            s,
            env,
            facts,
            PeerMessage::Misc(Misc::SwitchSidesRequest { uuid }),
            after,
            step,
        ),
        !s.conn.trace.closed,
    ensures
        !env.target.flutter || uuid@.len() != 16 ==> nothing_happens(s, after, step),
        env.target.flutter && uuid@.len() == 16 ==> {
            &&& step == LoginStep::Done(false)
            &&& after.reg == s.reg
            &&& after.conn.trace.closed
            &&& after.out.len() == s.out.len() + 2
            &&& after.out.take(s.out.len() as int) == s.out
            &&& after.out[s.out.len() as int] matches Action::SwitchSides { args }
            &&& args@.len() == 4
            &&& args@[0]@ == "--connect"@
            &&& args@[1]@ == s.conn.lr.my_id@
            &&& args@[2]@ == "--switch_uuid"@
            &&& args@[3]@.len() == 36
            &&& after.out.last() is ToCm
        },
{
    if env.target.flutter && uuid@.len() == 16 {
        let args = choose|args: Vec<String>|
            #![trigger args@]
            crate::text::texts(args@) == seq![
                "--connect"@,
                s.conn.lr.my_id@,
                "--switch_uuid"@,
                crate::uuids::hyphenated(uuid@),
            ] && after.out == close_actions(
                s.conn,
                env,
                s.out.push(Action::SwitchSides { args }),
                false,
            );
        let words = crate::text::texts(args@);
        assert(words.len() == 4);
        assert(words[0] == args@[0]@ && words[1] == args@[1]@ && words[2] == args@[2]@ && words[3]
            == args@[3]@);
        assert(after.out.take(s.out.len() as int) =~= s.out);
    }
}

/// On Windows, a peer that chooses another session of the operating system goes there where this
/// program is installed and shares sessions, the peer is the only one that controls or transfers,
/// and the session is one of several. Otherwise it stays: a directory that waited is read, and a
/// peer that controls the machine is served, each once. Elsewhere the choice counts for nothing.
pub proof fn session_is_chosen(
    s: Scene,
    env: Env,
    facts: LogonFacts,
    sid: u32,
    after: Scene,
    step: LoginStep,
)
    requires
        obeyed(s, env, facts, PeerMessage::Misc(Misc::SelectedSid(sid)), after, step),
    ensures
        env.target.os != Os::Windows || env.current_sid is None ==> nothing_happens(
            s,
            after,
            step,
        ),
        env.target.os == Os::Windows ==> (env.current_sid matches Some(current) ==> {
            let others = s.reg.authed_conns.filter(
                |c: (i32, AuthConnType)|
                    c.1 == AuthConnType::Remote || c.1 == AuthConnType::FileTransfer,
            );
            let goes = current != sid && env.installed && env.share_rdp && others.len() == 1
                && env.sessions@.len() > 1 && env.sessions@.contains(sid);
            &&& goes ==> step == LoginStep::Done(false) && after.conn == s.conn && after.reg
                == s.reg && after.out == s.out.push(Action::ConnectUserSession(sid))
            &&& !goes ==> step == LoginStep::Done(true) && after.reg == s.reg
            &&& !goes && s.conn.purpose.file_transfer is Some ==> (
            s.conn.purpose.delayed_read_dir matches Some((dir, include_hidden)) ==> {
                &&& after.out == s.out.push(
                    Action::ToCm(CmData::Fs(Fs::ReadDir { dir, include_hidden })),
                )
                &&& after.conn == (Connection {
                    purpose: Purpose { delayed_read_dir: None, ..s.conn.purpose },
                    ..s.conn
                })
            })
            &&& !goes && s.conn.purpose.file_transfer is Some
                && s.conn.purpose.delayed_read_dir is None ==> after == s
            &&& !goes && s.conn.purpose.file_transfer is None ==> {
                &&& after.conn.media.services_subed
                &&& s.conn.media.services_subed ==> after == s
                &&& !s.conn.media.services_subed && !env.server_alive ==> after.out == s.out
                &&& !s.conn.media.services_subed && env.server_alive ==> {
                    let r = s.conn.rights;
                    let w = s.conn.wishes;
                    let keyboard = r.keyboard && !w.disable_keyboard;
                    after.out == s.out.push(
                        Action::AddConnection {
                            noperms: NoPermissions {
                                cursor: !keyboard && !w.show_remote_cursor,
                                cursor_position: !w.show_remote_cursor,
                                window_focus: !w.follow_remote_window,
                                clipboard: !(r.clipboard && !w.disable_clipboard && keyboard),
                                audio: !(r.audio && !w.disable_audio),
                            },
                        },
                    )
                }
            }
        }),
{
}

/// A message of a service goes to the peer as it is, unless it is sound that has waited for more
/// than a second, or the end of the service.
pub proof fn messages_go_out(
    s: Scene,
    env: Env,
    at: u64,
    message: Message,
    displays: Vec<DisplayInfo>,
)
    ensures
        ({
            let (after, go_on) = outgoing_taken(s, env, at, message, displays);
            let late = env.now > at && env.now - at > 1_000;
            &&& message is AudioFrame && late ==> go_on && after == s
            &&& message is AudioFrame && !late ==> go_on && after.conn == s.conn && after.reg
                == s.reg && after.out == s.out.push(Action::SendOrClose(message))
            &&& !(message is AudioFrame || message is StopService || message is PeerInfo
                || message is CursorPosition) ==> go_on && after.conn == s.conn && after.reg
                == s.reg && after.out == s.out.push(Action::SendOrClose(message))
            &&& message is PeerInfo ==> {
                &&& go_on
                &&& after.reg == s.reg
                &&& after.out == s.out.push(Action::RefreshVideo { display: None }).push(
                    Action::SendOrClose(message),
                )
                &&& env.target.os == Os::Macos ==> after.conn == (Connection {
                    retina: Retina { displays },
                    ..s.conn
                })
                &&& env.target.os != Os::Macos ==> after.conn == s.conn
            }
        }),
{
}

/// The end of the service ends the connection: the peer hears that this side closed it, its
/// session is dropped, and the screen is not locked.
pub proof fn stopped_service_ends(
    s: Scene,
    env: Env,
    at: u64,
    displays: Vec<DisplayInfo>,
)
    requires
        !s.conn.trace.closed,
    ensures
        ({
            let (after, go_on) = outgoing_taken(s, env, at, Message::StopService, displays);
            let told = s.out.push(Action::Send(Message::CloseReason(CloseReason::ClosedByPeer)));
            let seen = !(s.conn.trace.chat_unanswered || s.conn.trace.file_transferred
                && env.target.flutter) || on_phone(env.target);
            &&& !go_on
            &&& after.conn.trace.closed
            &&& !after.conn.purpose.port_forward
            &&& after.reg == (RegistryView {
                sessions: s.reg.sessions.remove(s.conn.lr.my_id@),
                ..s.reg
            })
            &&& after.out == told + seq![
                Action::ToCm(if seen { CmData::Close } else { CmData::Disconnected }),
            ] + (if s.conn.purpose.port_forward { seq![Action::CloseForward] } else { seq![] })
        }),
{
}

/// The place of the cursor is told as it is, except on a Mac; a peer that does not follow the
/// cursor hears nothing else.
pub proof fn cursor_is_told(
    s: Scene,
    env: Env,
    at: u64,
    pos: CursorPosition,
    displays: Vec<DisplayInfo>,
)
    ensures
        ({
            let (after, go_on) = outgoing_taken(
                s,
                env,
                at,
                Message::CursorPosition(pos),
                displays,
            );
            &&& go_on
            &&& after.conn == s.conn
            &&& after.reg == s.reg
            &&& env.target.os != Os::Macos ==> after.out.last() == Action::SendOrClose(
                Message::CursorPosition(pos),
            )
            &&& !s.conn.wishes.follow_remote_cursor || on_phone(env.target) ==> after.out.len()
                == s.out.len() + 1
            &&& after.out.take(s.out.len() as int) == s.out
        }),
{
    let after = outgoing_taken(s, env, at, Message::CursorPosition(pos), displays).0;
    assert(after.out.take(s.out.len() as int) =~= s.out);
}

/// A peer that follows the cursor and does not show several displays hears which display the
/// cursor is on, where it is another than the one it sees.
pub proof fn cursor_is_followed(
    s: Scene,
    env: Env,
    at: u64,
    pos: CursorPosition,
    displays: Vec<DisplayInfo>,
    i: int,
)
    requires
        !on_phone(env.target),
        s.conn.wishes.follow_remote_cursor,
        0 <= i < env.sync_displays@.len() <= i32::MAX,
        env.sync_displays@[i].holds_point(pos.x as int, pos.y as int),
        forall|j: int|
            0 <= j < i ==> !(#[trigger] env.sync_displays@[j]).holds_point(
                pos.x as int,
                pos.y as int,
            ),
    ensures
        ({
            let after = outgoing_taken(s, env, at, Message::CursorPosition(pos), displays).0;
            let told = s.out.push(Action::Send(Message::FollowCurrentDisplay(i as i32)));
            &&& !s.conn.media.multi_ui_session && s.conn.media.display_idx != i
                ==> after.out.drop_last() == told
            &&& s.conn.media.multi_ui_session || s.conn.media.display_idx == i
                ==> after.out.drop_last() == s.out
        }),
{
    let (x, y) = (pos.x as int, pos.y as int);
    crate::display::display_at_is_first(env.sync_displays@, x, y);
    let found = crate::display::display_at(env.sync_displays@, x, y);
    assert(found == Some(i)) by {
        if found is Some && found->0 != i {
            let k = found->0;
            if k < i {
                assert(!env.sync_displays@[k].holds_point(x, y));
            } else {
                assert(!env.sync_displays@[i].holds_point(x, y));
            }
        }
    }
    let after = outgoing_taken(s, env, at, Message::CursorPosition(pos), displays).0;
    assert(after.out.drop_last() =~= if !s.conn.media.multi_ui_session && s.conn.media.display_idx
        != i {
        s.out.push(Action::Send(Message::FollowCurrentDisplay(i as i32)))
    } else {
        s.out
    });
}

} // verus!
