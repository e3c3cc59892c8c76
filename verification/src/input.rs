//! Mouse, touch and key events of a peer.

use vstd::prelude::*;

use crate::action::{add_if, push_if, Action, MessageInput, PhonePointer};
use crate::connection::{touched, Connection};
use crate::env::Env;
use crate::message::{KeyContent, KeyEvent, KeyboardMode, MouseEvent, PointerDeviceEvent, Touch};
use crate::registry::{Registry, RegistryView};
use crate::retina::mouse_in_points;
use crate::target::{Os, Target};

verus! {

impl KeyEvent {
    /// The code of the key, where the event names its key by one.
    pub open spec fn key_code(self) -> Option<u32> {
        match (self.mode, self.content) {
            (KeyboardMode::Mapped, KeyContent::Chr(code)) => Some(code),
            (KeyboardMode::Mapped, _) => Some(0),
            (KeyboardMode::Translate, KeyContent::Chr(code)) => Some(code & 0xffff),
            _ => None,
        }
    }

    /// The code of the key, where the event names its key by one.
    pub fn code(&self) -> (code: Option<u32>)
        ensures
            code == self.key_code(),
    {
        match self.mode {
            KeyboardMode::Mapped => match self.content {
                KeyContent::Chr(code) => Some(code),
                _ => Some(0),
            },
            KeyboardMode::Translate => match self.content {
                KeyContent::Chr(code) => Some(code & 0xffff),
                _ => None,
            },
            _ => None,
        }
    }

    /// The event is taken as a press of its key. On Linux and Android every key that goes down is
    /// pressed and let go, except modifiers.
    pub open spec fn counts_as_press(self, target: Target) -> bool {
        if target.os == Os::Linux || target.os == Os::Android {
            (self.press || self.down) && !self.modifier
        } else {
            self.press
        }
    }

    /// Whether the event is taken as a press of its key.
    fn is_press(&self, target: &Target) -> (yes: bool)
        ensures
            yes == self.counts_as_press(*target),
    {
        if target.os == Os::Linux || target.os == Os::Android {
            (self.press || self.down) && !self.modifier
        } else {
            self.press
        }
    }
}

/// The modifier that an event presses or lets go.
pub open spec fn modifier_of(e: KeyEvent, env: Env) -> Option<u32> {
    if e.key_code() is Some {
        env.modifier_key
    } else {
        None
    }
}

/// The modifiers that are pressed after a key event.
pub open spec fn modifiers_after(keys: Seq<u32>, key: Option<u32>, press: bool) -> Seq<u32> {
    match key {
        Some(key) => if press {
            if keys.contains(key) {
                keys
            } else {
                keys.push(key)
            }
        } else {
            keys.filter(|k: u32| k != key)
        },
        None => keys,
    }
}

/// The registry after a mouse event.
pub open spec fn mouse_noted(reg: RegistryView, env: Env, left_up: bool) -> RegistryView {
    if left_up {
        RegistryView { click_time: env.epoch_ms, ..reg }
    } else {
        RegistryView { mouse_move_time: env.epoch_ms, ..reg }
    }
}

/// What a mouse event asks for.
pub open spec fn mouse_actions(
    c: Connection,
    env: Env,
    out: Seq<Action>,
    e: MouseEvent,
) -> Seq<Action> {
    if !env.target.is_desktop() {
        out.push(Action::PhonePointer(PhonePointer::Mouse { mask: e.mask, x: e.x, y: e.y }))
    } else {
        push_if(
            out,
            c.keyboard_on(),
            Action::Input(
                MessageInput::Mouse {
                    event: if env.target.os == Os::Macos {
                        mouse_in_points(c.retina.displays@, e, c.media.display_idx as int)
                    } else {
                        e
                    },
                    conn_id: c.inner.id,
                },
            ),
        )
    }
}

/// A step of a touch as a phone takes it.
pub open spec fn phone_touch(touch: Touch) -> PhonePointer {
    match touch {
        Touch::PanStart { x, y } => PhonePointer::Touch { kind: 4, x, y },
        Touch::PanUpdate { x, y } => PhonePointer::Touch { kind: 5, x, y },
        Touch::PanEnd { x, y } => PhonePointer::Touch { kind: 6, x, y },
    }
}

/// What an event of another pointing device asks for.
pub open spec fn pointer_actions(
    c: Connection,
    env: Env,
    out: Seq<Action>,
    e: PointerDeviceEvent,
) -> Seq<Action> {
    if !env.target.is_desktop() {
        match e.touch {
            Some(touch) => out.push(Action::PhonePointer(phone_touch(touch))),
            None => out,
        }
    } else {
        push_if(
            out,
            c.keyboard_on(),
            Action::Input(MessageInput::Pointer { event: e, conn_id: c.inner.id }),
        )
    }
}

/// What a key event asks for on a machine that is no phone. Text is never pressed and let go.
pub open spec fn key_actions(c: Connection, env: Env, out: Seq<Action>, e: KeyEvent) -> Seq<
    Action,
> {
    push_if(
        out,
        c.keyboard_on(),
        Action::Input(
            MessageInput::Key {
                event: e,
                press: e.counts_as_press(env.target) && !(e.content is Unicode)
                    && !(e.content is Sequence),
            },
        ),
    )
}

impl Connection {
    /// Takes a mouse event.
    pub(crate) fn on_mouse_event(
        &mut self,
        reg: &mut Registry,
        env: &Env,
        e: MouseEvent,
        out: &mut Vec<Action>,
    )
        ensures
            *final(self) == touched(*old(self), env.now),
            final(reg)@ == if env.target.is_desktop() && old(self).keyboard_on() {
                mouse_noted(old(reg)@, *env, e.left_up)
            } else {
                old(reg)@
            },
            final(out)@ == mouse_actions(*old(self), *env, old(out)@, e),
    {
        if !env.target.desktop() {
            out.push(Action::PhonePointer(PhonePointer::Mouse { mask: e.mask, x: e.x, y: e.y }));
        } else if self.peer_keyboard_enabled() {
            if e.left_up {
                reg.click_time = env.epoch_ms;
            } else {
                reg.mouse_move_time = env.epoch_ms;
            }
            assert(reg@ =~= mouse_noted(old(reg)@, *env, e.left_up));
            let mut event = e;
            if env.target.os == Os::Macos {
                self.retina.on_mouse_event(&mut event, self.media.display_idx);
            }
            out.push(Action::Input(MessageInput::Mouse { event, conn_id: self.inner.id }));
        }
        self.update_auto_disconnect_timer(env.now);
    }

    /// Takes an event of another pointing device.
    pub(crate) fn on_pointer_event(
        &mut self,
        reg: &mut Registry,
        env: &Env,
        e: PointerDeviceEvent,
        out: &mut Vec<Action>,
    )
        ensures
            *final(self) == touched(*old(self), env.now),
            final(reg)@ == if env.target.is_desktop() && old(self).keyboard_on() {
                mouse_noted(old(reg)@, *env, false)
            } else {
                old(reg)@
            },
            final(out)@ == pointer_actions(*old(self), *env, old(out)@, e),
    {
        if !env.target.desktop() {
            match e.touch {
                Some(touch) => {
                    let pointer = match touch {
                        Touch::PanStart { x, y } => PhonePointer::Touch { kind: 4, x, y },
                        Touch::PanUpdate { x, y } => PhonePointer::Touch { kind: 5, x, y },
                        Touch::PanEnd { x, y } => PhonePointer::Touch { kind: 6, x, y },
                    };
                    out.push(Action::PhonePointer(pointer));
                },
                None => {},
            }
        } else if self.peer_keyboard_enabled() {
            reg.mouse_move_time = env.epoch_ms;
            assert(reg@ =~= mouse_noted(old(reg)@, *env, false));
            out.push(Action::Input(MessageInput::Pointer { event: e, conn_id: self.inner.id }));
        }
        self.update_auto_disconnect_timer(env.now);
    }

    /// Notes that a modifier is pressed or let go.
    fn note_modifier(&mut self, key: Option<u32>, press: bool)
        ensures
            *final(self) == (Connection {
                pressed_modifiers: final(self).pressed_modifiers,
                ..*old(self)
            }),
            final(self).pressed_modifiers@ == modifiers_after(
                old(self).pressed_modifiers@,
                key,
                press,
            ),
    {
        if let Some(key) = key {
            let others = without_key(&self.pressed_modifiers, key);
            if press {
                if others.len() == self.pressed_modifiers.len() {
                    proof {
                        lemma_without(self.pressed_modifiers@, key);
                    }
                    self.pressed_modifiers.push(key);
                } else {
                    proof {
                        lemma_without(self.pressed_modifiers@, key);
                    }
                }
            } else {
                self.pressed_modifiers = others;
            }
        }
    }

    /// Takes a key event on a machine that is no phone.
    fn on_desktop_key(
        &mut self,
        reg: &mut Registry,
        env: &Env,
        e: KeyEvent,
        out: &mut Vec<Action>,
    )
        ensures
            *final(self) == (Connection {
                pressed_modifiers: final(self).pressed_modifiers,
                ..touched(*old(self), env.now)
            }),
            final(self).pressed_modifiers@ == if old(self).keyboard_on() {
                modifiers_after(
                    old(self).pressed_modifiers@,
                    modifier_of(e, *env),
                    e.counts_as_press(env.target),
                )
            } else {
                old(self).pressed_modifiers@
            },
            final(reg)@ == if old(self).keyboard_on() && e.enter {
                RegistryView { click_time: env.epoch_ms, ..old(reg)@ }
            } else {
                old(reg)@
            },
            final(out)@ == key_actions(*old(self), *env, old(out)@, e),
    {
        let enabled = self.peer_keyboard_enabled();
        let is_press = e.is_press(&env.target);
        let text = match e.content {
            KeyContent::Unicode => true,
            KeyContent::Sequence => true,
            _ => false,
        };
        add_if(out, enabled, Action::Input(MessageInput::Key { event: e, press: is_press && !text }));
        if enabled {
            if e.enter {
                reg.click_time = env.epoch_ms;
                assert(reg@ =~= RegistryView { click_time: env.epoch_ms, ..old(reg)@ });
            }
            let key = if e.code().is_some() {
                env.modifier_key
            } else {
                None
            };
            self.note_modifier(key, is_press);
        }
        self.update_auto_disconnect_timer(env.now);
    }

    /// Takes a key event on Android.
    fn on_android_key(&mut self, env: &Env, e: KeyEvent, out: &mut Vec<Action>)
        requires
            env.target.os == Os::Android,
        ensures
            *final(self) == (Connection {
                pressed_modifiers: final(self).pressed_modifiers,
                ..*old(self)
            }),
            final(self).pressed_modifiers@ == modifiers_after(
                old(self).pressed_modifiers@,
                modifier_of(e, *env),
                e.counts_as_press(env.target),
            ),
            android_key_played(old(out)@, final(out)@, e, final(self).pressed_modifiers@),
    {
        let is_press = e.is_press(&env.target);
        let key = if e.code().is_some() {
            env.modifier_key
        } else {
            None
        };
        self.note_modifier(key, is_press);
        let modifiers = self.pressed_modifiers.clone();
        assert(modifiers@ =~= self.pressed_modifiers@);
        out.push(Action::PhoneKey { event: e, modifiers });
        assert(out@ == old(out)@.push(phone_key(e, modifiers)));
    }

    /// Takes a key event. A phone of Apple plays none.
    pub(crate) fn on_key_event(
        &mut self,
        reg: &mut Registry,
        env: &Env,
        e: KeyEvent,
        out: &mut Vec<Action>,
    )
        ensures
            key_event_taken(
                *old(self),
                old(reg)@,
                old(out)@,
                *env,
                e,
                *final(self),
                final(reg)@,
                final(out)@,
            ),
    {
        if env.target.os == Os::Ios {
            return ;
        }
        if env.target.os == Os::Android {
            self.on_android_key(env, e, out);
        } else {
            self.on_desktop_key(reg, env, e, out);
        }
    }

    /// Lets go of all modifiers that the peer still presses.
    pub fn release_pressed_modifiers(&mut self, out: &mut Vec<Action>)
        ensures
            *final(self) == (Connection {
                pressed_modifiers: final(self).pressed_modifiers,
                ..*old(self)
            }),
            final(self).pressed_modifiers@.len() == 0,
            final(out)@ == old(out)@ + released(old(self).pressed_modifiers@),
    {
        let mut i: usize = 0;
        let ghost keys = self.pressed_modifiers@;
        let ghost before = out@;
        assert(before + released(keys.take(0)) =~= before);
        while i < self.pressed_modifiers.len()
            invariant
                i <= keys.len(),
                self.pressed_modifiers@ == keys,
                out@ == before + released(keys.take(i as int)),
            decreases keys.len() - i,
        {
            out.push(Action::ReleaseKey { key: self.pressed_modifiers[i] });
            assert(out@ =~= before + released(keys.take(i + 1)));
            i += 1;
        }
        assert(keys.take(i as int) =~= keys);
        self.pressed_modifiers = Vec::new();
    }
}

/// Letting go of keys, in the order in which they were pressed.
pub open spec fn released(keys: Seq<u32>) -> Seq<Action> {
    keys.map_values(|key: u32| Action::ReleaseKey { key })
}

/// A key is played on Android together with the modifiers that are pressed.
pub open spec fn android_key_played(
    before: Seq<Action>,
    after: Seq<Action>,
    e: KeyEvent,
    modifiers: Seq<u32>,
) -> bool {
    exists|list: Vec<u32>|
        list@ == modifiers && after == before.push(
            #[trigger] phone_key(e, list),
        )
}

/// A key with the modifiers that are pressed.
pub open spec fn phone_key(event: KeyEvent, modifiers: Vec<u32>) -> Action {
    Action::PhoneKey { event, modifiers }
}

/// What a key event changes and asks for. The peer's modifiers are recorded only while its keys
/// are played.
pub open spec fn key_event_taken(
    c: Connection,
    reg: RegistryView,
    out: Seq<Action>,
    env: Env,
    e: KeyEvent,
    c_after: Connection,
    reg_after: RegistryView,
    out_after: Seq<Action>,
) -> bool {
    let played = env.target.os == Os::Android || env.target.is_desktop() && c.keyboard_on();
    &&& c_after == (Connection {
        pressed_modifiers: c_after.pressed_modifiers,
        ..if env.target.is_desktop() {
            touched(c, env.now)
        } else {
            c
        }
    })
    &&& c_after.pressed_modifiers@ == if played {
        modifiers_after(
            c.pressed_modifiers@,
            modifier_of(e, env),
            e.counts_as_press(env.target),
        )
    } else {
        c.pressed_modifiers@
    }
    &&& reg_after == if env.target.is_desktop() && c.keyboard_on() && e.enter {
        RegistryView { click_time: env.epoch_ms, ..reg }
    } else {
        reg
    }
    &&& if env.target.is_desktop() {
        out_after == key_actions(c, env, out, e)
    } else if env.target.os == Os::Android {
        android_key_played(out, out_after, e, c_after.pressed_modifiers@)
    } else {
        out_after == out
    }
}

/// The keys other than `key`.
fn without_key(keys: &Vec<u32>, key: u32) -> (others: Vec<u32>)
    ensures
        others@ == keys@.filter(|k: u32| k != key),
{
    let ghost wanted = |k: u32| k != key;
    let mut others: Vec<u32> = Vec::new();
    let mut i: usize = 0;
    assert(keys@.take(0) =~= Seq::empty());
    reveal_with_fuel(Seq::filter, 1);
    while i < keys.len()
        invariant
            i <= keys@.len(),
            wanted == (|k: u32| k != key),
            others@ == keys@.take(i as int).filter(wanted),
        decreases keys@.len() - i,
    {
        proof {
            assert(keys@.take(i + 1) =~= keys@.take(i as int).push(keys@[i as int]));
            crate::text::lemma_filter_push(keys@.take(i as int), keys@[i as int], wanted);
        }
        let k: u32 = keys[i];
        if k != key {
            others.push(k);
        }
        i += 1;
    }
    assert(keys@.take(i as int) =~= keys@);
    others
}

/// Leaving a key out makes the keys fewer exactly where the key is among them.
proof fn lemma_without(keys: Seq<u32>, key: u32)
    ensures
        keys.filter(|k: u32| k != key).len() <= keys.len(),
        (keys.filter(|k: u32| k != key).len() == keys.len()) <==> !keys.contains(key),
    decreases keys.len(),
{
    let wanted = |k: u32| k != key;
    reveal_with_fuel(Seq::filter, 1);
    if keys.len() > 0 {
        lemma_without(keys.drop_last(), key);
        assert(keys.contains(key) <==> keys.drop_last().contains(key) || keys.last() == key) by {
            if keys.contains(key) && keys.last() != key {
                let i = choose|i: int| 0 <= i < keys.len() && keys[i] == key;
                assert(keys.drop_last()[i] == key);
            }
            if keys.drop_last().contains(key) {
                let i = choose|i: int|
                    0 <= i < keys.drop_last().len() && keys.drop_last()[i] == key;
                assert(keys[i] == key);
            }
        }
    }
}

/// A modifier is recorded at most once, whatever key event comes.
pub proof fn modifiers_stay_distinct(keys: Seq<u32>, key: Option<u32>, press: bool)
    requires
        keys.no_duplicates(),
    ensures
        modifiers_after(keys, key, press).no_duplicates(),
{
    if key is Some && !press {
        lemma_filter_distinct(keys, key->0);
    }
}

/// Leaving a key out keeps keys distinct.
proof fn lemma_filter_distinct(keys: Seq<u32>, key: u32)
    requires
        keys.no_duplicates(),
    ensures
        keys.filter(|k: u32| k != key).no_duplicates(),
        forall|x: u32|
            keys.filter(|k: u32| k != key).contains(x) <==> keys.contains(x) && x != key,
    decreases keys.len(),
{
    reveal_with_fuel(Seq::filter, 1);
    let wanted = |k: u32| k != key;
    if keys.len() > 0 {
        let rest = keys.drop_last();
        lemma_filter_distinct(rest, key);
        let before = rest.filter(wanted);
        assert(!rest.contains(keys.last())) by {
            if rest.contains(keys.last()) {
                let i = choose|i: int| 0 <= i < rest.len() && rest[i] == keys.last();
                assert(keys[i] == keys[keys.len() - 1]);
            }
        }
        let after = keys.filter(wanted);
        assert(keys =~= rest.push(keys.last()));
        assert forall|x: u32| after.contains(x) <==> keys.contains(x) && x != key by {
            assert(keys.contains(x) <==> rest.contains(x) || x == keys.last()) by {
                lemma_push_contains(rest, keys.last(), x);
            }
            if wanted(keys.last()) {
                assert(after == before.push(keys.last()));
                lemma_push_contains(before, keys.last(), x);
            }
        }
    }
}

/// What a sequence with one more element contains.
proof fn lemma_push_contains(s: Seq<u32>, last: u32, x: u32)
    ensures
        s.push(last).contains(x) <==> s.contains(x) || x == last,
{
    let longer = s.push(last);
    if s.contains(x) {
        let i = choose|i: int| 0 <= i < s.len() && s[i] == x;
        assert(longer[i] == x);
    }
    if x == last {
        assert(longer[s.len() as int] == x);
    }
    if longer.contains(x) && x != last {
        let i = choose|i: int| 0 <= i < longer.len() && longer[i] == x;
        assert(s[i] == x);
    }
}

/// A modifier that is pressed and then let go is no longer recorded, and the others are as before.
pub proof fn modifier_let_go(keys: Seq<u32>, key: u32, other: u32)
    requires
        keys.no_duplicates(),
    ensures
        !modifiers_after(modifiers_after(keys, Some(key), true), Some(key), false).contains(key),
        other != key ==> (modifiers_after(
            modifiers_after(keys, Some(key), true),
            Some(key),
            false,
        ).contains(other) <==> keys.contains(other)),
{
    let pressed = modifiers_after(keys, Some(key), true);
    modifiers_stay_distinct(keys, Some(key), true);
    lemma_filter_distinct(pressed, key);
    lemma_push_contains(keys, key, other);
}

/// Without the right to keyboard and mouse, or without the wish for it, no event of the peer
/// reaches the input of this machine.
pub proof fn no_input_without_right(
    c: Connection,
    env: Env,
    out: Seq<Action>,
    m: MouseEvent,
    p: PointerDeviceEvent,
    k: KeyEvent,
)
    requires
        env.target.is_desktop(),
        !c.keyboard_on(),
    ensures
        mouse_actions(c, env, out, m) == out,
        pointer_actions(c, env, out, p) == out,
        key_actions(c, env, out, k) == out,
{
}

} // verus!
