//! Displays that a peer sees.

use vstd::prelude::*;

use crate::action::{add_if, push_if, Action, Service};
use crate::connection::{Connection, Media};
use crate::env::{DisplayDesc, DisplayKind, Env};
use crate::message::{CursorPosition, Message, Prompt, Resolution, SupportedEncoding};
use crate::retina::DisplayInfo;
use crate::target::Os;

verus! {

/// Displays of `wanted` that are not in `have`, each once, in the order in which they first come.
pub open spec fn missing(have: Seq<usize>, wanted: Seq<usize>) -> Seq<usize>
    decreases wanted.len(),
{
    if wanted.len() == 0 {
        wanted
    } else {
        let before = missing(have, wanted.drop_last());
        if have.contains(wanted.last()) || before.contains(wanted.last()) {
            before
        } else {
            before.push(wanted.last())
        }
    }
}

/// New video services.
pub open spec fn services_added(displays: Seq<usize>) -> Seq<Action> {
    displays.map_values(|display: usize| Action::AddVideoService(display))
}

/// The connection with another display.
pub open spec fn shows_display(c: Connection, display: usize) -> Connection {
    Connection { media: Media { display_idx: display, ..c.media }, ..c }
}

/// What a change of display asks of the services. The old display is left by itself where the
/// peer is too old to say which displays it wants.
pub open spec fn switch_actions(
    c: Connection,
    env: Env,
    out: Seq<Action>,
    display: usize,
) -> Seq<Action> {
    let out = push_if(
        out,
        display != env.primary_display && !env.video_services@.contains(display),
        Action::AddVideoService(display),
    );
    let out = push_if(
        out,
        !c.lr.version.multi_ui_session,
        Action::Subscribe { service: Service::Video(c.media.display_idx), on: false },
    );
    out.push(Action::Subscribe { service: Service::Video(display), on: true })
}

/// The display that a change of resolution is for.
pub open spec fn resolution_display(
    c: Connection,
    env: Env,
    display: Option<usize>,
) -> Option<DisplayDesc> {
    let index = match display {
        Some(index) => index,
        None => c.media.display_idx,
    };
    match env.displays {
        Some(displays) => if c.rights.keyboard && index < displays@.len() {
            Some(displays@[index as int])
        } else {
            None
        },
        None => None,
    }
}

/// What a change of resolution asks for. The former resolution is kept in mind, except of virtual
/// displays.
pub open spec fn resolution_actions(
    c: Connection,
    env: Env,
    out: Seq<Action>,
    display: Option<usize>,
    r: Resolution,
) -> Seq<Action> {
    let windows = env.target.os == Os::Windows;
    match resolution_display(c, env, display) {
        Some(d) => if windows && d.kind == DisplayKind::Virtual {
            out.push(
                Action::ChangeVirtualResolution {
                    name: d.name,
                    width: r.width,
                    height: r.height,
                },
            )
        } else {
            push_if(
                out,
                !(windows && d.kind == DisplayKind::Amyuni),
                Action::RecordResolution {
                    name: d.name,
                    original: (d.width, d.height),
                    changed: (r.width, r.height),
                },
            ).push(
                Action::ChangeResolution { name: d.name, width: r.width, height: r.height },
            )
        },
        None => out,
    }
}

/// The peer may not leave the primary display: this program runs with more rights, and for
/// several peers.
pub open spec fn held_on_primary(env: Env, display: i32) -> bool {
    env.target.os == Os::Windows && env.portable_running && env.conn_count > 1 && display
        != env.primary_display as i32
}

/// The connection after a peer's wish for another display.
pub open spec fn display_switched(c: Connection, env: Env, display: i32) -> Connection {
    if !held_on_primary(env, display) && c.media.display_idx != display as usize
        && env.server_alive {
        shows_display(c, display as usize)
    } else {
        c
    }
}

/// What a peer's wish for another display asks for.
pub open spec fn switch_display_actions(
    c: Connection,
    env: Env,
    out: Seq<Action>,
    display: i32,
    r: Resolution,
) -> Seq<Action> {
    let index = display as usize;
    if held_on_primary(env, display) {
        out.push(Action::Send(Message::MessageBox(Prompt::SwitchDisplayElevated)))
    } else if c.media.display_idx == index {
        out
    } else if env.server_alive {
        let out = switch_actions(c, env, out, index);
        let out = if env.target.is_desktop() && r.width != 0 && r.height != 0 {
            resolution_actions(shows_display(c, index), env, out, None, r)
        } else {
            out
        };
        out.push(Action::SendDisplayChanged { display: index })
    } else {
        out.push(Action::SendDisplayChanged { display: c.media.display_idx })
    }
}

/// The wish for several displays cannot be met: this program runs with more rights.
pub open spec fn capture_refused(env: Env, add: Seq<usize>, set: Seq<usize>) -> bool {
    env.target.os == Os::Windows && env.portable_running && (add.len() > 0 || set.len() > 1)
}

/// What a peer's wish for displays asks for.
pub open spec fn capture_actions(
    env: Env,
    out: Seq<Action>,
    add: Vec<usize>,
    sub: Vec<usize>,
    set: Vec<usize>,
) -> Seq<Action> {
    if capture_refused(env, add@, set@) {
        out.push(Action::Send(Message::MessageBox(Prompt::CaptureDisplayElevated)))
    } else if !env.server_alive {
        out
    } else {
        (out + services_added(missing(env.video_services@, add@ + set@))).push(
            if add@.len() > 0 {
                Action::CaptureDisplays { displays: add, start: true, stop: false }
            } else if sub@.len() > 0 {
                Action::CaptureDisplays { displays: sub, start: false, stop: true }
            } else {
                Action::CaptureDisplays { displays: set, start: true, stop: true }
            },
        )
    }
}

/// The first display that a point lies on.
pub open spec fn display_at(displays: Seq<DisplayInfo>, x: int, y: int) -> Option<int>
    decreases displays.len(),
{
    if displays.len() == 0 {
        None
    } else {
        match display_at(displays.drop_last(), x, y) {
            Some(i) => Some(i),
            None => if displays.last().holds_point(x, y) {
                Some(displays.len() - 1)
            } else {
                None
            },
        }
    }
}

/// What a move of the cursor asks for where the peer follows it.
pub open spec fn follow_cursor_actions(
    c: Connection,
    env: Env,
    out: Seq<Action>,
    pos: CursorPosition,
) -> Seq<Action> {
    match display_at(env.sync_displays@, pos.x as int, pos.y as int) {
        Some(i) => push_if(
            out,
            !c.media.multi_ui_session && c.media.display_idx != i,
            Action::Send(Message::FollowCurrentDisplay(i as i32)),
        ),
        None => out,
    }
}

/// The codecs that a peer knows of, with those that turned out to work.
pub open spec fn encoding_after(
    last: SupportedEncoding,
    usable: SupportedEncoding,
) -> SupportedEncoding {
    SupportedEncoding {
        vp8: usable.vp8,
        av1: usable.av1,
        h264: usable.h264,
        h265: usable.h265,
        ..last
    }
}

/// The codecs that the peer is to be told of anew; absent where nothing has changed.
pub open spec fn encoding_news(c: Connection, env: Env) -> Option<SupportedEncoding> {
    match (c.media.last_supported_encoding, env.usable_encoding) {
        (Some(last), Some(usable)) => if encoding_after(last, usable) != last {
            Some(encoding_after(last, usable))
        } else {
            None
        },
        _ => None,
    }
}

/// Whether a display is in a list.
fn has_display(displays: &Vec<usize>, display: usize) -> (yes: bool)
    ensures
        yes == displays@.contains(display),
{
    let mut i: usize = 0;
    while i < displays.len()
        invariant
            i <= displays@.len(),
            forall|j: int| 0 <= j < i ==> displays@[j] != display,
        decreases displays@.len() - i,
    {
        if displays[i] == display {
            return true;
        }
        i += 1;
    }
    false
}

/// Adds the displays of `wanted` that are neither in `have` nor in `added`.
fn add_missing(
    have: &Vec<usize>,
    wanted: &Vec<usize>,
    added: &mut Vec<usize>,
    Ghost(earlier): Ghost<Seq<usize>>,
)
    requires
        old(added)@ == missing(have@, earlier),
    ensures
        final(added)@ == missing(have@, earlier + wanted@),
{
    let mut i: usize = 0;
    assert(earlier + wanted@.take(0) =~= earlier);
    while i < wanted.len()
        invariant
            i <= wanted@.len(),
            added@ == missing(have@, earlier + wanted@.take(i as int)),
        decreases wanted@.len() - i,
    {
        let display: usize = wanted[i];
        proof {
            let longer = earlier + wanted@.take(i + 1);
            assert(longer.drop_last() =~= earlier + wanted@.take(i as int));
            assert(longer.last() == display);
        }
        if !has_display(have, display) && !has_display(added, display) {
            added.push(display);
        }
        i += 1;
    }
    assert(wanted@.take(i as int) =~= wanted@);
}

impl Connection {
    /// Asks for new pictures of one display or of all.
    pub(crate) fn refresh_video_display(&self, display: Option<usize>, out: &mut Vec<Action>)
        ensures
            final(out)@ == old(out)@.push(Action::RefreshVideo { display }),
    {
        out.push(Action::RefreshVideo { display });
    }

    /// Shows the peer another display.
    fn switch_display_to(&mut self, env: &Env, display: usize, out: &mut Vec<Action>)
        ensures
            *final(self) == shows_display(*old(self), display),
            final(out)@ == switch_actions(*old(self), *env, old(out)@, display),
    {
        let new = display != env.primary_display && !has_display(&env.video_services, display);
        add_if(out, new, Action::AddVideoService(display));
        let old_service = Service::Video(self.media.display_idx);
        add_if(
            out,
            !self.lr.version.multi_ui_session,
            Action::Subscribe { service: old_service, on: false },
        );
        out.push(Action::Subscribe { service: Service::Video(display), on: true });
        self.media.display_idx = display;
    }

    /// Changes the resolution of a display.
    pub(crate) fn change_resolution(
        &self,
        env: &Env,
        display: Option<usize>,
        r: &Resolution,
        out: &mut Vec<Action>,
    )
        ensures
            final(out)@ == resolution_actions(*self, *env, old(out)@, display, *r),
    {
        if !self.rights.keyboard {
            return ;
        }
        let index: usize = match display {
            Some(index) => index,
            None => self.media.display_idx,
        };
        if let Some(displays) = &env.displays {
            if index < displays.len() {
                let d = &displays[index];
                let windows = env.target.os == Os::Windows;
                if windows && d.kind == DisplayKind::Virtual {
                    out.push(
                        Action::ChangeVirtualResolution {
                            name: d.name.clone(),
                            width: r.width,
                            height: r.height,
                        },
                    );
                    return ;
                }
                add_if(
                    out,
                    !(windows && d.kind == DisplayKind::Amyuni),
                    Action::RecordResolution {
                        name: d.name.clone(),
                        original: (d.width, d.height),
                        changed: (r.width, r.height),
                    },
                );
                out.push(
                    Action::ChangeResolution {
                        name: d.name.clone(),
                        width: r.width,
                        height: r.height,
                    },
                );
            }
        }
    }

    /// Takes up the peer's wish for another display.
    pub(crate) fn handle_switch_display(
        &mut self,
        env: &Env,
        display: i32,
        r: Resolution,
        out: &mut Vec<Action>,
    )
        ensures
            *final(self) == display_switched(*old(self), *env, display),
            final(out)@ == switch_display_actions(*old(self), *env, old(out)@, display, r),
    {
        if env.target.os == Os::Windows && env.portable_running && env.conn_count > 1 && display
            != env.primary_display as i32 {
            out.push(Action::Send(Message::MessageBox(Prompt::SwitchDisplayElevated)));
            return ;
        }
        let index: usize = display as usize;
        if self.media.display_idx == index {
            return ;
        }
        if env.server_alive {
            self.switch_display_to(env, index, out);
            if env.target.desktop() && r.width != 0 && r.height != 0 {
                self.change_resolution(env, None, &r, out);
            }
        }
        out.push(Action::SendDisplayChanged { display: self.media.display_idx });
    }

    /// Takes up which displays the peer wants.
    pub(crate) fn capture_displays(
        &self,
        env: &Env,
        add: Vec<usize>,
        sub: Vec<usize>,
        set: Vec<usize>,
        out: &mut Vec<Action>,
    )
        ensures
            final(out)@ == capture_actions(*env, old(out)@, add, sub, set),
    {
        if env.target.os == Os::Windows && env.portable_running && (add.len() > 0 || set.len()
            > 1) {
            out.push(Action::Send(Message::MessageBox(Prompt::CaptureDisplayElevated)));
            return ;
        }
        if !env.server_alive {
            return ;
        }
        let mut added: Vec<usize> = Vec::new();
        let ghost none = Seq::<usize>::empty();
        assert(added@ =~= missing(env.video_services@, none));
        add_missing(&env.video_services, &add, &mut added, Ghost(none));
        assert(none + add@ =~= add@);
        add_missing(&env.video_services, &set, &mut added, Ghost(add@));
        self.add_services(&added, out);
        let action = if add.len() > 0 {
            Action::CaptureDisplays { displays: add, start: true, stop: false }
        } else if sub.len() > 0 {
            Action::CaptureDisplays { displays: sub, start: false, stop: true }
        } else {
            Action::CaptureDisplays { displays: set, start: true, stop: true }
        };
        out.push(action);
    }

    /// Adds video services.
    fn add_services(&self, displays: &Vec<usize>, out: &mut Vec<Action>)
        ensures
            final(out)@ == old(out)@ + services_added(displays@),
    {
        let ghost before = out@;
        let mut i: usize = 0;
        assert(before + services_added(displays@.take(0)) =~= before);
        while i < displays.len()
            invariant
                i <= displays@.len(),
                out@ == before + services_added(displays@.take(i as int)),
            decreases displays@.len() - i,
        {
            out.push(Action::AddVideoService(displays[i]));
            assert(out@ =~= before + services_added(displays@.take(i + 1)));
            i += 1;
        }
        assert(displays@.take(i as int) =~= displays@);
    }

    /// Takes up how many displays the peer sees now. With several, it does not follow the window
    /// in front.
    pub fn on_captured(&mut self, displays: usize, out: &mut Vec<Action>)
        ensures
            *final(self) == (Connection {
                media: Media { multi_ui_session: displays > 1, ..old(self).media },
                ..*old(self)
            }),
            final(out)@ == push_if(
                old(out)@,
                old(self).wishes.follow_remote_window,
                Action::Subscribe { service: Service::WindowFocus, on: displays <= 1 },
            ),
    {
        add_if(
            out,
            self.wishes.follow_remote_window,
            Action::Subscribe { service: Service::WindowFocus, on: displays <= 1 },
        );
        self.media.multi_ui_session = displays > 1;
    }

    /// The name of the display whose resolutions the peer is told.
    pub fn current_display_name(&self, env: &Env) -> (name: Option<String>)
        ensures
            name == match env.displays {
                Some(displays) => if self.media.display_idx < displays@.len() {
                    Some(displays@[self.media.display_idx as int].name)
                } else {
                    None
                },
                None => None,
            },
    {
        if let Some(displays) = &env.displays {
            if self.media.display_idx < displays.len() {
                return Some(displays[self.media.display_idx].name.clone());
            }
        }
        None
    }

    /// Tells the peer that the cursor has moved to another display.
    pub(crate) fn handle_cursor_switch_display(
        &self,
        env: &Env,
        pos: &CursorPosition,
        out: &mut Vec<Action>,
    )
        ensures
            final(out)@ == follow_cursor_actions(*self, *env, old(out)@, *pos),
    {
        if self.media.multi_ui_session {
            return ;
        }
        let displays = &env.sync_displays;
        let mut i: usize = 0;
        assert(displays@.take(0) =~= Seq::empty());
        let mut found: Option<usize> = None;
        while i < displays.len()
            invariant
                i <= displays@.len(),
                display_at(displays@.take(i as int), pos.x as int, pos.y as int) == match found {
                    Some(at) => Some(at as int),
                    None => None,
                },
            decreases displays@.len() - i,
        {
            proof {
                assert(displays@.take(i + 1).drop_last() =~= displays@.take(i as int));
                assert(displays@.take(i + 1).last() == displays@[i as int]);
            }
            if found.is_none() && displays[i].has_point(pos.x, pos.y) {
                found = Some(i);
            }
            i += 1;
        }
        assert(displays@.take(i as int) =~= displays@);
        if let Some(at) = found {
            if self.media.display_idx != at {
                out.push(Action::Send(Message::FollowCurrentDisplay(at as i32)));
            }
        }
    }

    /// Tells the peer of codecs that turned out to work or not.
    pub(crate) fn update_supported_encoding(&mut self, env: &Env, out: &mut Vec<Action>)
        ensures
            match encoding_news(*old(self), *env) {
                Some(news) => {
                    &&& *final(self) == (Connection {
                        media: Media { last_supported_encoding: Some(news), ..old(self).media },
                        ..*old(self)
                    })
                    &&& final(out)@ == old(self).inner.queued(
                        old(out)@,
                        Message::SupportedEncoding(news),
                    )
                },
                None => *final(self) == *old(self) && final(out)@ == old(out)@,
            },
    {
        let last = match self.media.last_supported_encoding {
            Some(last) => last,
            None => {
                return ;
            },
        };
        let usable = match env.usable_encoding {
            Some(usable) => usable,
            None => {
                return ;
            },
        };
        if usable.vp8 != last.vp8 || usable.av1 != last.av1 || usable.h264 != last.h264
            || usable.h265 != last.h265 {
            let supported_encoding = SupportedEncoding {
                vp8: usable.vp8,
                av1: usable.av1,
                h264: usable.h264,
                h265: usable.h265,
                ..last
            };
            self.media.last_supported_encoding = Some(supported_encoding);
            self.inner.send(Message::SupportedEncoding(supported_encoding), out);
        }
    }
}

/// The services that are added for a wish are all different, were all missing, and with those that
/// were there serve every display that is wished for.
pub proof fn missing_serves_all(have: Seq<usize>, wanted: Seq<usize>)
    ensures
        missing(have, wanted).no_duplicates(),
        forall|d: usize| #[trigger]
            missing(have, wanted).contains(d) <==> wanted.contains(d) && !have.contains(d),
    decreases wanted.len(),
{
    if wanted.len() > 0 {
        let rest = wanted.drop_last();
        let last = wanted.last();
        missing_serves_all(have, rest);
        let before = missing(have, rest);
        let after = missing(have, wanted);
        assert forall|d: usize| #[trigger] after.contains(d) <==> wanted.contains(d)
            && !have.contains(d) by {
            assert(wanted =~= rest.push(last));
            lemma_contains_push(rest, last, d);
            lemma_contains_push(before, last, d);
        }
    }
}

/// What a list with one more display contains.
proof fn lemma_contains_push(s: Seq<usize>, last: usize, x: usize)
    ensures
        s.push(last).contains(x) <==> s.contains(x) || x == last,
{
    let longer = s.push(last);
    if s.contains(x) {
        let i = choose|i: int| 0 <= i < s.len() && s[i] == x;
        assert(longer[i] == x);
    }
    if x == last {
        assert(longer[s.len() as int] == x);
    }
    if longer.contains(x) && x != last {
        let i = choose|i: int| 0 <= i < longer.len() && longer[i] == x;
        assert(s[i] == x);
    }
}

/// The display that a point is found on holds the point, and no display before it does; where none
/// is found, none holds it.
pub proof fn display_at_is_first(displays: Seq<DisplayInfo>, x: int, y: int)
    ensures
        match display_at(displays, x, y) {
            Some(i) => {
                &&& 0 <= i < displays.len()
                &&& displays[i].holds_point(x, y)
                &&& forall|j: int| 0 <= j < i ==> !(#[trigger] displays[j]).holds_point(x, y)
            },
            None => forall|j: int|
                0 <= j < displays.len() ==> !(#[trigger] displays[j]).holds_point(x, y),
        },
    decreases displays.len(),
{
    if displays.len() > 0 {
        let rest = displays.drop_last();
        display_at_is_first(rest, x, y);
        match display_at(displays, x, y) {
            Some(i) => {
                assert forall|j: int| 0 <= j < i implies !(#[trigger] displays[j]).holds_point(
                    x,
                    y,
                ) by {
                    assert(rest[j] == displays[j]);
                }
            },
            None => {
                assert forall|j: int| 0 <= j < displays.len() implies !(
                #[trigger] displays[j]).holds_point(x, y) by {
                    if j < rest.len() {
                        assert(rest[j] == displays[j]);
                    }
                }
            },
        }
    }
}

/// Without the right to the keyboard a peer changes no resolution.
pub proof fn resolution_needs_right(
    c: Connection,
    env: Env,
    out: Seq<Action>,
    display: Option<usize>,
    r: Resolution,
)
    requires
        !c.rights.keyboard,
    ensures
        resolution_actions(c, env, out, display, r) == out,
{
}

/// A peer that is told of codecs is not told the same again while they stay the same.
pub proof fn encoding_told_once(c: Connection, env: Env)
    requires
        encoding_news(c, env) is Some,
    ensures
        encoding_news(
            Connection {
                media: Media {
                    last_supported_encoding: encoding_news(c, env),
                    ..c.media
                },
                ..c
            },
            env,
        ) is None,
{
}

} // verus!
