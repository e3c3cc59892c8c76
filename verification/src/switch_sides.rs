//! Tokens for peers that swap sides: the side that was controlled becomes the one that controls.

use vstd::prelude::*;

use crate::env::{elapsed, elapsed_since};
use crate::registry::{Registry, RegistryView};
use crate::table::kept_where;
use crate::text::same_bytes;
use crate::uuids::uuid_from_slice;

verus! {

/// How long a token lasts, in milliseconds.
pub const TOKEN_LIFE_MS: u64 = 10_000;

/// A token that a peer has to show, and when it was given out.
#[derive(Clone, Copy, Debug, PartialEq, Eq)]
pub struct SwitchSides {
    pub at: u64,
    pub uuid: [u8; 16],
}

impl View for SwitchSides {
    type V = SwitchSides;

    open spec fn view(&self) -> SwitchSides {
        *self
    }
}

/// A token still lasts.
pub open spec fn token_fresh(token: SwitchSides, now: u64) -> bool {
    elapsed(now, token.at) < TOKEN_LIFE_MS
}

/// Whether a token still lasts.
fn is_fresh(token: &SwitchSides, now: u64) -> (fresh: bool)
    ensures
        fresh == token_fresh(*token, now),
{
    elapsed_since(now, token.at) < TOKEN_LIFE_MS
}

/// Tokens that still last.
pub open spec fn fresh_tokens(
    tokens: Map<Seq<char>, SwitchSides>,
    now: u64,
) -> Map<Seq<char>, SwitchSides> {
    kept_where(tokens, |t: SwitchSides| token_fresh(t, now))
}

/// The registry when `peer` has shown a token, right or wrong.
pub open spec fn token_taken(reg: RegistryView, now: u64, peer: Seq<char>) -> RegistryView {
    RegistryView {
        switch_sides: fresh_tokens(reg.switch_sides, now).remove(peer),
        ..reg
    }
}

/// `uuid` is the token that was given out to `peer`, and it still lasts.
pub open spec fn token_right(
    reg: RegistryView,
    now: u64,
    peer: Seq<char>,
    uuid: Seq<u8>,
) -> bool {
    let tokens = fresh_tokens(reg.switch_sides, now);
    tokens.dom().contains(peer) && tokens[peer].uuid@ == uuid
}

/// Gives out a token to the peer `id`.
pub fn insert_switch_sides_uuid(reg: &mut Registry, now: u64, id: String, uuid: [u8; 16])
    ensures
        final(reg)@ == (RegistryView {
            switch_sides: old(reg)@.switch_sides.insert(id@, SwitchSides { at: now, uuid }),
            ..old(reg)@
        }),
{
    reg.switch_sides.insert(id, SwitchSides { at: now, uuid });
    assert(reg@ =~= RegistryView {
        switch_sides: old(reg)@.switch_sides.insert(id@, SwitchSides { at: now, uuid }),
        ..old(reg)@
    });
}

/// Takes the token of `peer` away, and says whether `uuid` is that token.
pub fn take_switch_sides_uuid(
    reg: &mut Registry,
    now: u64,
    peer: &String,
    uuid: &Vec<u8>,
) -> (right: bool)
    ensures
        final(reg)@ == token_taken(old(reg)@, now, peer@),
        right == token_right(old(reg)@, now, peer@, uuid@),
{
    let ghost wanted = |t: SwitchSides| token_fresh(t, now);
    let keep = |t: &SwitchSides| -> (kept: bool)
        ensures
            kept == token_fresh(*t, now),
    {
        is_fresh(t, now)
    };
    reg.switch_sides.retain(keep, Ghost(wanted));
    assert(reg.switch_sides@ == fresh_tokens(old(reg)@.switch_sides, now));
    let shown = uuid_from_slice(uuid.as_slice());
    let given = reg.switch_sides.remove(peer.as_str());
    assert(reg@ =~= token_taken(old(reg)@, now, peer@));
    match shown {
        Some(shown) => match given {
            Some(given) => same_bytes(
                vstd::array::array_as_slice(&shown),
                vstd::array::array_as_slice(&given.uuid),
            ),
            None => false,
        },
        None => {
            proof {
                if given is Some {
                    assert(given->0.uuid@.len() == 16);
                }
            }
            false
        },
    }
}

/// A token lets its peer in once: whatever was shown, nothing that is shown afterwards is right
/// until a new token is given out.
pub proof fn token_is_used_up(
    reg: RegistryView,
    now: u64,
    later: u64,
    peer: Seq<char>,
    uuid: Seq<u8>,
)
    ensures
        !token_right(token_taken(reg, now, peer), later, peer, uuid),
{
}

/// A token that was given out is right for its peer until its time is over, and then no more.
pub proof fn token_lasts_ten_seconds(
    reg: RegistryView,
    given: RegistryView,
    at: u64,
    now: u64,
    peer: Seq<char>,
    uuid: [u8; 16],
)
    requires
        given == (RegistryView {
            switch_sides: reg.switch_sides.insert(peer, SwitchSides { at, uuid }),
            ..reg
        }),
    ensures
        token_right(given, now, peer, uuid@) <==> elapsed(now, at) < TOKEN_LIFE_MS,
        forall|other: Seq<u8>| other != uuid@ ==> !token_right(given, now, peer, other),
{
}

/// What a peer shows leaves no token in place that its time is over, and leaves the tokens of the
/// other peers as they are.
pub proof fn token_taken_keeps_others(reg: RegistryView, now: u64, peer: Seq<char>)
    ensures
        forall|other: Seq<char>|
            #![trigger token_taken(reg, now, peer).switch_sides.dom().contains(other)]
            other != peer ==> (token_taken(reg, now, peer).switch_sides.dom().contains(other)
                <==> reg.switch_sides.dom().contains(other) && elapsed(
                now,
                reg.switch_sides[other].at,
            ) < TOKEN_LIFE_MS),
        forall|other: Seq<char>|
            #![trigger token_taken(reg, now, peer).switch_sides[other]]
            token_taken(reg, now, peer).switch_sides.dom().contains(other)
                ==> token_taken(reg, now, peer).switch_sides[other] == reg.switch_sides[other],
{
}

} // verus!
