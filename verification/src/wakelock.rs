//! The lock that keeps this machine awake while peers are connected.

use vstd::prelude::*;

use crate::registry::WakeLockCounts;
use crate::target::{Os, Target};

verus! {

/// The lock, as it was last set.
#[derive(Clone, Copy, Debug, PartialEq, Eq)]
pub struct WakeLockState {
    pub held: bool,
    /// The display was to stay on.
    pub last_display: bool,
}

/// What is to be done with the lock.
#[derive(Clone, Copy, Debug, PartialEq, Eq, Structural)]
pub enum WakeLockStep {
    Nothing,
    Drop,
    Acquire { display: bool },
    SetDisplay { display: bool },
}

/// The lock after the number of connections has changed. On Linux a new lock keeps the display on.
pub open spec fn lock_after(s: WakeLockState, target: Target, counts: WakeLockCounts) -> WakeLockState {
    if counts.connections == 0 {
        WakeLockState { held: false, ..s }
    } else {
        WakeLockState {
            held: true,
            last_display: counts.remote > 0 || !s.held && target.os == Os::Linux,
        }
    }
}

/// What a change of the number of connections asks for. The display of a lock that is held can be
/// set on Windows and macOS.
pub open spec fn lock_step(s: WakeLockState, target: Target, counts: WakeLockCounts) -> WakeLockStep {
    let display = counts.remote > 0;
    if counts.connections == 0 {
        WakeLockStep::Drop
    } else if !s.held {
        WakeLockStep::Acquire { display: display || target.os == Os::Linux }
    } else if display != s.last_display && (target.os == Os::Windows || target.os == Os::Macos) {
        WakeLockStep::SetDisplay { display }
    } else {
        WakeLockStep::Nothing
    }
}

impl WakeLockState {
    /// No lock.
    pub fn new() -> (s: Self)
        ensures
            s == (WakeLockState { held: false, last_display: false }),
    {
        WakeLockState { held: false, last_display: false }
    }

    /// Takes up a change of the number of connections.
    pub fn on_counts(&mut self, target: &Target, counts: WakeLockCounts) -> (step: WakeLockStep)
        ensures
            *final(self) == lock_after(*old(self), *target, counts),
            step == lock_step(*old(self), *target, counts),
    {
        if counts.connections == 0 {
            self.held = false;
            return WakeLockStep::Drop;
        }
        let mut display = counts.remote > 0;
        let step = if self.held {
            if display != self.last_display && (target.os == Os::Windows || target.os
                == Os::Macos) {
                WakeLockStep::SetDisplay { display }
            } else {
                WakeLockStep::Nothing
            }
        } else {
            if target.os == Os::Linux {
                display = true;
            }
            self.held = true;
            WakeLockStep::Acquire { display }
        };
        self.last_display = display;
        step
    }
}

/// The lock is held exactly while connections are authorised.
pub proof fn lock_follows_connections(s: WakeLockState, target: Target, counts: WakeLockCounts)
    ensures
        lock_after(s, target, counts).held <==> counts.connections > 0,
        lock_step(s, target, counts) is Drop <==> counts.connections == 0,
        lock_step(s, target, counts) is Acquire <==> counts.connections > 0 && !s.held,
{
}

/// The same numbers again ask for nothing.
pub proof fn lock_settles(s: WakeLockState, target: Target, counts: WakeLockCounts)
    requires
        counts.connections > 0,
    ensures
        lock_step(lock_after(s, target, counts), target, counts) is Nothing,
{
}

/// Without connections the lock goes. With the first it is taken, with the display where one of
/// them controls this machine, and on Linux always. While it is held, the display is set anew on
/// Windows and macOS where that has changed, and nothing is done otherwise.
pub proof fn lock_is_taken_and_set(s: WakeLockState, target: Target, counts: WakeLockCounts)
    ensures
        ({
            let step = lock_step(s, target, counts);
            let controlled = counts.remote > 0;
            let can_set = target.os == Os::Windows || target.os == Os::Macos;
            &&& counts.connections == 0 ==> step == WakeLockStep::Drop
            &&& counts.connections > 0 && !s.held && target.os == Os::Linux ==> step
                == (WakeLockStep::Acquire { display: true })
            &&& counts.connections > 0 && !s.held && target.os != Os::Linux ==> step
                == (WakeLockStep::Acquire { display: controlled })
            &&& counts.connections > 0 && s.held && can_set && controlled != s.last_display ==> step
                == (WakeLockStep::SetDisplay { display: controlled })
            &&& counts.connections > 0 && s.held && (!can_set || controlled == s.last_display)
                ==> step == WakeLockStep::Nothing
            &&& counts.connections > 0 && s.held ==> lock_after(s, target, counts).last_display
                == controlled
        }),
{
}

} // verus!
