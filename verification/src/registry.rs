//! What all connections of the server share.

use std::collections::HashMap;
use vstd::prelude::*;

use crate::action::{Action, EncoderUpdate, QosUpdate};
use crate::session::{Session, SessionView};
use crate::switch_sides::SwitchSides;
use crate::table::KeyedTable;
use crate::target::{Os, Target};

verus! {

broadcast use vstd::std_specs::hash::group_hash_axioms;

/// What an authorised connection is for.
#[derive(Clone, Copy, Debug, PartialEq, Eq, Structural)]
pub enum AuthConnType {
    Remote,
    FileTransfer,
    PortForward,
}

/// How many connections are authorised, and how many of them control this machine.
#[derive(Clone, Copy, Debug, PartialEq, Eq, Structural)]
pub struct WakeLockCounts {
    pub connections: usize,
    pub remote: usize,
}

/// What all connections of the server share.
pub struct Registry {
    /// Wrong passwords by address: minute of the last one, how many in that minute, how many.
    pub password_failures: KeyedTable<(i32, i32, i32)>,
    /// Wrong second factors by address, likewise.
    pub tfa_failures: KeyedTable<(i32, i32, i32)>,
    /// Sessions by the peer's id.
    pub sessions: KeyedTable<Session>,
    /// All connections, authorised or not.
    pub alive_conns: Vec<i32>,
    /// All authorised connections.
    pub authed_conns: Vec<(i32, AuthConnType)>,
    /// Tokens for peers that swap sides, by the peer's id.
    pub switch_sides: KeyedTable<SwitchSides>,
    /// Connections whose input plugins may block, by the peer's id.
    pub plugin_inputs: KeyedTable<i32>,
    /// When each connection last received something.
    pub recv_times: HashMap<i32, u64>,
    /// When a peer last clicked.
    pub click_time: i64,
    /// When a peer last moved the mouse.
    pub mouse_move_time: i64,
    /// The wallpaper is taken away.
    pub wallpaper_remover: bool,
    /// The hook that runs when the program ends is set.
    pub shutdown_hook: bool,
}

/// A model of [`Registry`].
#[verifier::ext_equal]
pub struct RegistryView {
    pub password_failures: Map<Seq<char>, (i32, i32, i32)>,
    pub tfa_failures: Map<Seq<char>, (i32, i32, i32)>,
    pub sessions: Map<Seq<char>, SessionView>,
    pub alive_conns: Seq<i32>,
    pub authed_conns: Seq<(i32, AuthConnType)>,
    pub switch_sides: Map<Seq<char>, SwitchSides>,
    pub plugin_inputs: Map<Seq<char>, i32>,
    pub recv_times: Map<i32, u64>,
    pub click_time: i64,
    pub mouse_move_time: i64,
    pub wallpaper_remover: bool,
    pub shutdown_hook: bool,
}

impl View for Registry {
    type V = RegistryView;

    open spec fn view(&self) -> RegistryView {
        RegistryView {
            password_failures: self.password_failures@,
            tfa_failures: self.tfa_failures@,
            sessions: self.sessions@,
            alive_conns: self.alive_conns@,
            authed_conns: self.authed_conns@,
            switch_sides: self.switch_sides@,
            plugin_inputs: self.plugin_inputs@,
            recv_times: self.recv_times@,
            click_time: self.click_time,
            mouse_move_time: self.mouse_move_time,
            wallpaper_remover: self.wallpaper_remover,
            shutdown_hook: self.shutdown_hook,
        }
    }
}

/// Connections that control this machine.
pub open spec fn remote_conns(conns: Seq<(i32, AuthConnType)>) -> Seq<(i32, AuthConnType)> {
    conns.filter(|c: (i32, AuthConnType)| c.1 == AuthConnType::Remote)
}

/// Connections that control this machine or transfer files.
pub open spec fn remote_and_file_conns(
    conns: Seq<(i32, AuthConnType)>,
) -> Seq<(i32, AuthConnType)> {
    conns.filter(
        |c: (i32, AuthConnType)|
            c.1 == AuthConnType::Remote || c.1 == AuthConnType::FileTransfer,
    )
}

/// Whether a connection is another than `id`.
pub open spec fn other_than(id: i32) -> spec_fn(i32) -> bool {
    |c: i32| c != id
}

/// Whether an authorised connection is another than `id`.
pub open spec fn is_other(id: i32) -> spec_fn((i32, AuthConnType)) -> bool {
    |c: (i32, AuthConnType)| c.0 != id
}

/// Connections other than `id`.
pub open spec fn other_conns(
    conns: Seq<(i32, AuthConnType)>,
    id: i32,
) -> Seq<(i32, AuthConnType)> {
    conns.filter(is_other(id))
}

/// The counts of authorised connections that decide on the wake lock.
pub open spec fn wake_lock_counts(conns: Seq<(i32, AuthConnType)>) -> WakeLockCounts {
    WakeLockCounts {
        connections: conns.len() as usize,
        remote: remote_conns(conns).len() as usize,
    }
}

impl Registry {
    /// A registry of a server without connections.
    pub fn new() -> (reg: Self)
        ensures
            reg@ == (RegistryView {
                password_failures: Map::empty(),
                tfa_failures: Map::empty(),
                sessions: Map::empty(),
                alive_conns: Seq::empty(),
                authed_conns: Seq::empty(),
                switch_sides: Map::empty(),
                plugin_inputs: Map::empty(),
                recv_times: Map::empty(),
                click_time: 0,
                mouse_move_time: 0,
                wallpaper_remover: false,
                shutdown_hook: false,
            }),
    {
        Registry {
            password_failures: KeyedTable::new(),
            tfa_failures: KeyedTable::new(),
            sessions: KeyedTable::new(),
            alive_conns: Vec::new(),
            authed_conns: Vec::new(),
            switch_sides: KeyedTable::new(),
            plugin_inputs: KeyedTable::new(),
            recv_times: HashMap::new(),
            click_time: 0,
            mouse_move_time: 0,
            wallpaper_remover: false,
            shutdown_hook: false,
        }
    }

    /// Notes whether the wallpaper could be taken away.
    pub fn on_wallpaper_removed(&mut self, done: bool)
        ensures
            final(self)@ == (RegistryView {
                wallpaper_remover: old(self)@.wallpaper_remover || done,
                ..old(self)@
            }),
    {
        self.wallpaper_remover = self.wallpaper_remover || done;
        assert(self@ =~= RegistryView {
            wallpaper_remover: old(self)@.wallpaper_remover || done,
            ..old(self)@
        });
    }

    /// How many authorised connections control this machine.
    fn remote_count(&self) -> (count: usize)
        ensures
            count == remote_conns(self@.authed_conns).len(),
    {
        let ghost wanted = |c: (i32, AuthConnType)| c.1 == AuthConnType::Remote;
        let conns = &self.authed_conns;
        let mut count: usize = 0;
        let mut i: usize = 0;
        assert(conns@.take(0) =~= Seq::empty());
        reveal_with_fuel(Seq::filter, 1);
        while i < conns.len()
            invariant
                i <= conns@.len(),
                count <= i,
                wanted == (|c: (i32, AuthConnType)| c.1 == AuthConnType::Remote),
                count == conns@.take(i as int).filter(wanted).len(),
            decreases conns@.len() - i,
        {
            proof {
                assert(conns@.take(i + 1) =~= conns@.take(i as int).push(conns@[i as int]));
                crate::text::lemma_filter_push(conns@.take(i as int), conns@[i as int], wanted);
            }
            if conns[i].1 == AuthConnType::Remote {
                count += 1;
            }
            i += 1;
        }
        assert(conns@.take(i as int) =~= conns@);
        count
    }

    /// When connection `id` last received something; the start of the clock where it is unknown.
    pub fn recv_time(&self, id: i32) -> (time: u64)
        ensures
            time == recv_time_of(self@.recv_times, id),
    {
        recv_time_in(&self.recv_times, id)
    }

    /// Notes that connection `id` received something at `now`.
    pub(crate) fn note_receipt(&mut self, id: i32, now: u64)
        ensures
            final(self)@ == (RegistryView {
                recv_times: old(self)@.recv_times.insert(id, now),
                ..old(self)@
            }),
    {
        let _ = self.recv_times.insert(id, now);
        assert(self@ =~= RegistryView {
            recv_times: old(self)@.recv_times.insert(id, now),
            ..old(self)@
        });
    }

    /// Gives the wallpaper back when the program ends.
    pub fn on_shutdown(&mut self, target: &Target, out: &mut Vec<Action>)
        ensures
            final(self)@ == (RegistryView {
                wallpaper_remover: old(self)@.wallpaper_remover && !(target.os == Os::Windows
                    || target.os == Os::Linux),
                ..old(self)@
            }),
            final(out)@ == old(out)@ + if target.os == Os::Windows || target.os == Os::Linux {
                seq![Action::RestoreWallpaper]
            } else {
                seq![]
            },
    {
        if target.os == Os::Windows || target.os == Os::Linux {
            self.wallpaper_remover = false;
            out.push(Action::RestoreWallpaper);
            assert(out@ =~= old(out)@ + seq![Action::RestoreWallpaper]);
        } else {
            assert(out@ =~= old(out)@ + seq![]);
        }
        assert(self@ =~= RegistryView {
            wallpaper_remover: old(self)@.wallpaper_remover && !(target.os == Os::Windows
                || target.os == Os::Linux),
            ..old(self)@
        });
    }
}

/// When connection `id` last received something; the start of the clock where it is unknown.
pub open spec fn recv_time_of(times: Map<i32, u64>, id: i32) -> u64 {
    if times.dom().contains(id) {
        times[id]
    } else {
        0
    }
}

/// When connection `id` last received something; the start of the clock where it is unknown.
pub(crate) fn recv_time_in(times: &HashMap<i32, u64>, id: i32) -> (time: u64)
    ensures
        time == recv_time_of(times@, id),
{
    match times.get(&id) {
        Some(time) => *time,
        None => 0,
    }
}

/// A connection that is there, authorised or not.
pub struct ConnectionID(pub i32);

impl ConnectionID {
    /// Enters a connection.
    pub fn new(reg: &mut Registry, id: i32) -> (entered: Self)
        ensures
            entered.0 == id,
            final(reg)@ == (RegistryView {
                alive_conns: old(reg)@.alive_conns.push(id),
                ..old(reg)@
            }),
    {
        reg.alive_conns.push(id);
        assert(reg@ =~= RegistryView { alive_conns: old(reg)@.alive_conns.push(id), ..old(reg)@ });
        ConnectionID(id)
    }

    /// Takes the connection out when it ends.
    pub fn release(self, reg: &mut Registry, out: &mut Vec<Action>)
        ensures
            final(reg)@ == (RegistryView {
                alive_conns: old(reg)@.alive_conns.filter(other_than(self.0)),
                ..old(reg)@
            }),
            final(out)@ == old(out)@.push(
                Action::Qos { id: self.0, update: QosUpdate::ConnectionClose },
            ),
    {
        let ghost wanted = other_than(self.0);
        let ghost conns = reg.alive_conns@;
        let mut kept: Vec<i32> = Vec::new();
        let mut i: usize = 0;
        assert(conns.take(0) =~= Seq::empty());
        reveal_with_fuel(Seq::filter, 1);
        while i < reg.alive_conns.len()
            invariant
                i <= conns.len(),
                reg.alive_conns@ == conns,
                wanted == other_than(self.0),
                kept@ == conns.take(i as int).filter(wanted),
            decreases conns.len() - i,
        {
            proof {
                assert(conns.take(i + 1) =~= conns.take(i as int).push(conns[i as int]));
                crate::text::lemma_filter_push(conns.take(i as int), conns[i as int], wanted);
            }
            let c = reg.alive_conns[i];
            if c != self.0 {
                kept.push(c);
            }
            i += 1;
        }
        assert(conns.take(i as int) =~= conns);
        reg.alive_conns = kept;
        assert(reg@ =~= RegistryView { alive_conns: conns.filter(wanted), ..old(reg)@ });
        out.push(Action::Qos { id: self.0, update: QosUpdate::ConnectionClose });
    }
}

/// The connections other than `id`.
fn without_conn(conns: &Vec<(i32, AuthConnType)>, id: i32) -> (kept: Vec<(i32, AuthConnType)>)
    ensures
        kept@ == other_conns(conns@, id),
{
    let mut kept: Vec<(i32, AuthConnType)> = Vec::new();
    let mut i: usize = 0;
    assert(conns@.take(0) =~= Seq::empty());
    reveal_with_fuel(Seq::filter, 1);
    while i < conns.len()
        invariant
            i <= conns@.len(),
            kept@ == other_conns(conns@.take(i as int), id),
        decreases conns@.len() - i,
    {
        proof {
            assert(conns@.take(i + 1) =~= conns@.take(i as int).push(conns@[i as int]));
            crate::text::lemma_filter_push(conns@.take(i as int), conns@[i as int], is_other(id));
        }
        let c = conns[i];
        if c.0 != id {
            kept.push(c);
        }
        i += 1;
    }
    assert(conns@.take(i as int) =~= conns@);
    kept
}

/// An authorised connection.
#[derive(Debug, PartialEq, Eq)]
pub struct AuthedConnID(pub i32, pub AuthConnType);

/// What is undone when no connection controls this machine any more.
pub open spec fn last_remote_gone(target: Target) -> Seq<Action> {
    (if target.os == Os::Windows || target.os == Os::Linux {
        seq![Action::RestoreWallpaper]
    } else {
        seq![]
    }) + (if target.is_desktop() {
        seq![Action::ResetResolutions]
    } else {
        seq![]
    }) + (if target.os == Os::Windows {
        seq![Action::ResetVirtualDisplays]
    } else {
        seq![]
    }) + (if target.os == Os::Linux {
        seq![Action::CloseWaylandSession]
    } else {
        seq![]
    })
}

/// What is done when an authorised connection ends.
pub open spec fn authed_release_actions(
    target: Target,
    conns: Seq<(i32, AuthConnType)>,
    gone: AuthedConnID,
) -> Seq<Action> {
    let left = other_conns(conns, gone.0);
    (if gone.1 == AuthConnType::Remote {
        seq![Action::Encoder { id: gone.0, update: EncoderUpdate::Remove }]
    } else {
        seq![]
    }) + (if remote_conns(left).len() == 0 {
        last_remote_gone(target)
    } else {
        seq![]
    }) + seq![Action::WakeLock(wake_lock_counts(left))]
}

impl AuthedConnID {
    /// Enters an authorised connection. The hook for the end of the program is set once.
    pub fn new(
        reg: &mut Registry,
        id: i32,
        conn_type: AuthConnType,
        out: &mut Vec<Action>,
    ) -> (entered: Self)
        ensures
            entered == AuthedConnID(id, conn_type),
            final(reg)@ == authed_entered(old(reg)@, id, conn_type),
            final(out)@ == old(out)@ + authed_new_actions(old(reg)@, id, conn_type),
    {
        reg.authed_conns.push((id, conn_type));
        let counts = Self::check_wake_lock(reg);
        out.push(Action::WakeLock(counts));
        let ghost first = out@;
        if !reg.shutdown_hook {
            reg.shutdown_hook = true;
            out.push(Action::AddShutdownHook);
        }
        assert(out@ =~= old(out)@ + authed_new_actions(old(reg)@, id, conn_type));
        assert(reg@ =~= authed_entered(old(reg)@, id, conn_type));
        AuthedConnID(id, conn_type)
    }

    /// The counts that decide on the wake lock.
    pub fn check_wake_lock(reg: &Registry) -> (counts: WakeLockCounts)
        ensures
            counts == wake_lock_counts(reg@.authed_conns),
            counts.connections == reg@.authed_conns.len(),
            counts.remote == remote_conns(reg@.authed_conns).len(),
    {
        WakeLockCounts { connections: reg.authed_conns.len(), remote: reg.remote_count() }
    }

    /// How many authorised connections control this machine or transfer files.
    pub fn remote_and_file_conn_count(reg: &Registry) -> (count: usize)
        ensures
            count == remote_and_file_conns(reg@.authed_conns).len(),
    {
        let ghost wanted = |c: (i32, AuthConnType)|
            c.1 == AuthConnType::Remote || c.1 == AuthConnType::FileTransfer;
        let conns = &reg.authed_conns;
        let mut count: usize = 0;
        let mut i: usize = 0;
        assert(conns@.take(0) =~= Seq::empty());
        reveal_with_fuel(Seq::filter, 1);
        while i < conns.len()
            invariant
                i <= conns@.len(),
                count <= i,
                wanted == (|c: (i32, AuthConnType)|
                    c.1 == AuthConnType::Remote || c.1 == AuthConnType::FileTransfer),
                count == conns@.take(i as int).filter(wanted).len(),
            decreases conns@.len() - i,
        {
            proof {
                assert(conns@.take(i + 1) =~= conns@.take(i as int).push(conns@[i as int]));
                crate::text::lemma_filter_push(conns@.take(i as int), conns@[i as int], wanted);
            }
            if conns[i].1 == AuthConnType::Remote || conns[i].1 == AuthConnType::FileTransfer {
                count += 1;
            }
            i += 1;
        }
        assert(conns@.take(i as int) =~= conns@);
        count
    }

    /// Takes the connection out when it ends.
    pub fn release(self, reg: &mut Registry, target: &Target, out: &mut Vec<Action>)
        ensures
            final(reg)@ == authed_released(old(reg)@, *target, self.0),
            final(out)@ == old(out)@ + authed_release_actions(
                *target,
                old(reg)@.authed_conns,
                self,
            ),
    {
        let ghost conns = reg.authed_conns@;
        if self.1 == AuthConnType::Remote {
            out.push(Action::Encoder { id: self.0, update: EncoderUpdate::Remove });
        }
        let kept = without_conn(&reg.authed_conns, self.0);
        reg.authed_conns = kept;
        if reg.remote_count() == 0 {
            if target.os == Os::Windows || target.os == Os::Linux {
                reg.wallpaper_remover = false;
                out.push(Action::RestoreWallpaper);
            }
            if target.desktop() {
                out.push(Action::ResetResolutions);
            }
            if target.os == Os::Windows {
                out.push(Action::ResetVirtualDisplays);
            }
            if target.os == Os::Linux {
                out.push(Action::CloseWaylandSession);
            }
        }
        let counts = Self::check_wake_lock(reg);
        out.push(Action::WakeLock(counts));
        assert(out@ =~= old(out)@ + authed_release_actions(*target, conns, self));
        assert(reg@ =~= authed_released(old(reg)@, *target, self.0));
    }
}

/// What is done when a connection becomes authorised.
pub open spec fn authed_new_actions(
    reg: RegistryView,
    id: i32,
    conn_type: AuthConnType,
) -> Seq<Action> {
    seq![Action::WakeLock(wake_lock_counts(reg.authed_conns.push((id, conn_type))))] + (
    if reg.shutdown_hook {
        seq![]
    } else {
        seq![Action::AddShutdownHook]
    })
}

/// The registry when authorised connection `id` has ended.
pub open spec fn authed_released(reg: RegistryView, target: Target, id: i32) -> RegistryView {
    let left = other_conns(reg.authed_conns, id);
    RegistryView {
        authed_conns: left,
        wallpaper_remover: reg.wallpaper_remover && !(remote_conns(left).len() == 0 && (target.os
            == Os::Windows || target.os == Os::Linux)),
        ..reg
    }
}

/// The registry with one more authorised connection.
pub open spec fn authed_entered(reg: RegistryView, id: i32, conn_type: AuthConnType) -> RegistryView {
    RegistryView {
        authed_conns: reg.authed_conns.push((id, conn_type)),
        shutdown_hook: true,
        ..reg
    }
}

/// Filtering a sequence of which all is wanted leaves it as it is.
proof fn lemma_filter_all<T>(s: Seq<T>, wanted: spec_fn(T) -> bool)
    requires
        forall|i: int| 0 <= i < s.len() ==> wanted(#[trigger] s[i]),
    ensures
        s.filter(wanted) == s,
    decreases s.len(),
{
    reveal_with_fuel(Seq::filter, 1);
    if s.len() > 0 {
        assert forall|i: int| 0 <= i < s.drop_last().len() implies wanted(
            #[trigger] s.drop_last()[i],
        ) by {
            assert(s[i] == s.drop_last()[i]);
        }
        lemma_filter_all(s.drop_last(), wanted);
        assert(wanted(s[s.len() - 1]));
        assert(s.drop_last().push(s.last()) =~= s);
    }
}

/// A connection that ends leaves the list of connections as it was before the connection was
/// entered.
pub proof fn release_undoes_entry(alive: Seq<i32>, id: i32)
    requires
        !alive.contains(id),
    ensures
        alive.push(id).filter(other_than(id)) == alive,
{
    crate::text::lemma_filter_push(alive, id, other_than(id));
    assert forall|i: int| 0 <= i < alive.len() implies other_than(id)(#[trigger] alive[i]) by {
        assert(alive.contains(alive[i]));
    }
    lemma_filter_all(alive, other_than(id));
}

/// A connection that has ended is in the list no more, and every other one still is.
pub proof fn released_connection_is_gone(alive: Seq<i32>, id: i32, other: i32)
    ensures
        !alive.filter(other_than(id)).contains(id),
        other != id ==> (alive.filter(other_than(id)).contains(other) <==> alive.contains(other)),
{
    let left = alive.filter(other_than(id));
    if left.contains(id) {
        let i = choose|i: int| 0 <= i < left.len() && left[i] == id;
        alive.lemma_filter_pred(other_than(id), i);
    }
    if left.contains(other) {
        alive.lemma_filter_contains_rev(other_than(id), other);
    }
    if alive.contains(other) && other != id {
        let i = choose|i: int| 0 <= i < alive.len() && alive[i] == other;
        alive.lemma_filter_contains(other_than(id), i);
    }
}

/// An authorised connection that ends leaves the list of authorised connections as it was before
/// it was entered.
pub proof fn authed_release_undoes_entry(
    reg: RegistryView,
    target: Target,
    id: i32,
    conn_type: AuthConnType,
)
    requires
        forall|i: int|
            0 <= i < reg.authed_conns.len() ==> (#[trigger] reg.authed_conns[i]).0 != id,
    ensures
        authed_released(authed_entered(reg, id, conn_type), target, id).authed_conns
            == reg.authed_conns,
{
    crate::text::lemma_filter_push(reg.authed_conns, (id, conn_type), is_other(id));
    lemma_filter_all(reg.authed_conns, is_other(id));
}

/// The wallpaper comes back when the last connection that controls this machine ends, and not
/// before.
pub proof fn wallpaper_comes_back(reg: RegistryView, target: Target, id: i32)
    requires
        target.os == Os::Windows || target.os == Os::Linux,
    ensures
        remote_conns(other_conns(reg.authed_conns, id)).len() == 0 ==> !authed_released(
            reg,
            target,
            id,
        ).wallpaper_remover,
        remote_conns(other_conns(reg.authed_conns, id)).len() > 0 ==> authed_released(
            reg,
            target,
            id,
        ).wallpaper_remover == reg.wallpaper_remover,
{
}

/// No more connections control this machine than are authorised, and none fewer transfer files or
/// control it than control it.
pub proof fn counts_are_ordered(conns: Seq<(i32, AuthConnType)>)
    ensures
        remote_conns(conns).len() <= remote_and_file_conns(conns).len() <= conns.len(),
    decreases conns.len(),
{
    reveal_with_fuel(Seq::filter, 1);
    if conns.len() > 0 {
        counts_are_ordered(conns.drop_last());
    }
}

} // verus!
