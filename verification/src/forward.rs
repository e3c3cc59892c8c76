//! Forwarding of a port: bytes go to and fro between the peer and an address on this side.

use vstd::prelude::*;

use crate::env::{elapsed, elapsed_since};
use crate::message::Handle;

verus! {

/// How long both sides may be silent, in milliseconds.
pub const FORWARD_TIMEOUT_MS: u64 = 3_600_000;

/// How long sending to the address may take, in milliseconds.
pub const FORWARD_SEND_TIMEOUT_MS: u64 = 120_000;

/// What one side of a forwarded port gives.
#[derive(Debug, PartialEq, Eq)]
pub enum Received {
    Bytes(Handle),
    Failed(String),
    /// The side has closed.
    End,
}

/// What happens while a port is forwarded.
#[derive(Debug, PartialEq, Eq)]
pub enum ForwardEvent {
    /// The user of this machine ends the connection.
    CmClose,
    CmError(String),
    /// Another message of the connection manager.
    CmOther,
    FromAddress(Received),
    FromPeer(Received),
    /// Sending failed.
    SendFailed(String),
    Tick,
    /// These connections are to be ended.
    WebConsole(Vec<i32>),
}

/// Why forwarding ends.
#[derive(Debug, PartialEq, Eq)]
pub enum ForwardEnd {
    CloseRequested,
    CmError(String),
    ResetByAddress,
    ResetByPeer,
    Timeout,
    ClosedByWebConsole,
    Failed(String),
}

/// What is to be done.
#[derive(Debug, PartialEq, Eq)]
pub enum ForwardStep {
    Nothing,
    ToPeer(Handle),
    ToAddress { data: Handle, timeout_ms: u64 },
    End(ForwardEnd),
}

/// A port that is forwarded.
#[derive(Clone, Copy, Debug, PartialEq, Eq)]
pub struct ForwardLoop {
    pub conn_id: i32,
    /// When something was last received.
    pub last_recv_time: u64,
}

/// What an event asks for.
pub open spec fn forward_step(f: ForwardLoop, now: u64, event: ForwardEvent) -> ForwardStep {
    match event {
        ForwardEvent::CmClose => ForwardStep::End(ForwardEnd::CloseRequested),
        ForwardEvent::CmError(error) => ForwardStep::End(ForwardEnd::CmError(error)),
        ForwardEvent::CmOther => ForwardStep::Nothing,
        ForwardEvent::FromAddress(received) => match received {
            Received::Bytes(data) => ForwardStep::ToPeer(data),
            Received::Failed(error) => ForwardStep::End(ForwardEnd::Failed(error)),
            Received::End => ForwardStep::End(ForwardEnd::ResetByAddress),
        },
        ForwardEvent::FromPeer(received) => match received {
            Received::Bytes(data) => ForwardStep::ToAddress {
                data,
                timeout_ms: FORWARD_SEND_TIMEOUT_MS,
            },
            Received::Failed(error) => ForwardStep::End(ForwardEnd::Failed(error)),
            Received::End => ForwardStep::End(ForwardEnd::ResetByPeer),
        },
        ForwardEvent::SendFailed(error) => ForwardStep::End(ForwardEnd::Failed(error)),
        ForwardEvent::Tick => if elapsed(now, f.last_recv_time) >= FORWARD_TIMEOUT_MS {
            ForwardStep::End(ForwardEnd::Timeout)
        } else {
            ForwardStep::Nothing
        },
        ForwardEvent::WebConsole(conns) => if conns@.contains(f.conn_id) {
            ForwardStep::End(ForwardEnd::ClosedByWebConsole)
        } else {
            ForwardStep::Nothing
        },
    }
}

/// One side has said something, even if only that it failed.
pub open spec fn is_receipt(event: ForwardEvent) -> bool {
    match event {
        ForwardEvent::FromAddress(received) => !(received is End),
        ForwardEvent::FromPeer(received) => !(received is End),
        _ => false,
    }
}

/// The port after an event.
pub open spec fn forward_after(f: ForwardLoop, now: u64, event: ForwardEvent) -> ForwardLoop {
    if is_receipt(event) {
        ForwardLoop { last_recv_time: now, ..f }
    } else {
        f
    }
}

/// Whether a connection is in a list.
pub(crate) fn has_conn(conns: &Vec<i32>, id: i32) -> (yes: bool)
    ensures
        yes == conns@.contains(id),
{
    let mut i: usize = 0;
    while i < conns.len()
        invariant
            i <= conns@.len(),
            forall|j: int| 0 <= j < i ==> conns@[j] != id,
        decreases conns@.len() - i,
    {
        if conns[i] == id {
            return true;
        }
        i += 1;
    }
    false
}

impl ForwardLoop {
    /// A port that is forwarded from now on.
    pub fn new(conn_id: i32, now: u64) -> (f: Self)
        ensures
            f == (ForwardLoop { conn_id, last_recv_time: now }),
    {
        ForwardLoop { conn_id, last_recv_time: now }
    }

    /// Takes an event.
    pub fn on_event(&mut self, now: u64, event: ForwardEvent) -> (step: ForwardStep)
        ensures
            *final(self) == forward_after(*old(self), now, event),
            step == forward_step(*old(self), now, event),
    {
        match event {
            ForwardEvent::CmClose => ForwardStep::End(ForwardEnd::CloseRequested),
            ForwardEvent::CmError(error) => ForwardStep::End(ForwardEnd::CmError(error)),
            ForwardEvent::CmOther => ForwardStep::Nothing,
            ForwardEvent::FromAddress(received) => match received {
                Received::Bytes(data) => {
                    self.last_recv_time = now;
                    ForwardStep::ToPeer(data)
                },
                Received::Failed(error) => {
                    self.last_recv_time = now;
                    ForwardStep::End(ForwardEnd::Failed(error))
                },
                Received::End => ForwardStep::End(ForwardEnd::ResetByAddress),
            },
            ForwardEvent::FromPeer(received) => match received {
                Received::Bytes(data) => {
                    self.last_recv_time = now;
                    ForwardStep::ToAddress { data, timeout_ms: FORWARD_SEND_TIMEOUT_MS }
                },
                Received::Failed(error) => {
                    self.last_recv_time = now;
                    ForwardStep::End(ForwardEnd::Failed(error))
                },
                Received::End => ForwardStep::End(ForwardEnd::ResetByPeer),
            },
            ForwardEvent::SendFailed(error) => ForwardStep::End(ForwardEnd::Failed(error)),
            ForwardEvent::Tick => {
                if elapsed_since(now, self.last_recv_time) >= FORWARD_TIMEOUT_MS {
                    ForwardStep::End(ForwardEnd::Timeout)
                } else {
                    ForwardStep::Nothing
                }
            },
            ForwardEvent::WebConsole(conns) => {
                if has_conn(&conns, self.conn_id) {
                    ForwardStep::End(ForwardEnd::ClosedByWebConsole)
                } else {
                    ForwardStep::Nothing
                }
            },
        }
    }
}

/// What one side says goes to the other side, unchanged, and to nobody else.
pub proof fn bytes_cross_over(f: ForwardLoop, now: u64, data: Handle)
    ensures
        forward_step(f, now, ForwardEvent::FromAddress(Received::Bytes(data)))
            == ForwardStep::ToPeer(data),
        forward_step(f, now, ForwardEvent::FromPeer(Received::Bytes(data)))
            == (ForwardStep::ToAddress { data, timeout_ms: FORWARD_SEND_TIMEOUT_MS }),
{
}

/// A port over which something went within the last hour is not cut off by the clock.
pub proof fn forward_stays_open(f: ForwardLoop, at: u64, now: u64, event: ForwardEvent)
    requires
        is_receipt(event),
        elapsed(now, at) < FORWARD_TIMEOUT_MS,
    ensures
        forward_step(forward_after(f, at, event), now, ForwardEvent::Tick) is Nothing,
{
}

/// Forwarding ends for the reason that there is: the user or the connection manager, a side that
/// has closed or failed, an hour of silence, or the console. Nothing else ends it.
pub proof fn forwarding_ends_for_a_reason(f: ForwardLoop, now: u64, event: ForwardEvent)
    ensures
        ({
            let step = forward_step(f, now, event);
            let silent = now > f.last_recv_time && now - f.last_recv_time >= 3_600_000;
            &&& event is CmClose ==> step == ForwardStep::End(ForwardEnd::CloseRequested)
            &&& event matches ForwardEvent::CmError(error) ==> step == ForwardStep::End(
                ForwardEnd::CmError(error),
            )
            &&& event is CmOther ==> step == ForwardStep::Nothing
            &&& event == ForwardEvent::FromAddress(Received::End) ==> step == ForwardStep::End(
                ForwardEnd::ResetByAddress,
            )
            &&& event == ForwardEvent::FromPeer(Received::End) ==> step == ForwardStep::End(
                ForwardEnd::ResetByPeer,
            )
            &&& event matches ForwardEvent::FromAddress(Received::Failed(error)) ==> step
                == ForwardStep::End(ForwardEnd::Failed(error))
            &&& event matches ForwardEvent::FromPeer(Received::Failed(error)) ==> step
                == ForwardStep::End(ForwardEnd::Failed(error))
            &&& event matches ForwardEvent::SendFailed(error) ==> step == ForwardStep::End(
                ForwardEnd::Failed(error),
            )
            &&& event is Tick && silent ==> step == ForwardStep::End(ForwardEnd::Timeout)
            &&& event is Tick && !silent ==> step == ForwardStep::Nothing
            &&& event matches ForwardEvent::WebConsole(conns) ==> {
                &&& conns@.contains(f.conn_id) ==> step == ForwardStep::End(
                    ForwardEnd::ClosedByWebConsole,
                )
                &&& !conns@.contains(f.conn_id) ==> step == ForwardStep::Nothing
            }
        }),
{
}

/// What one side sends goes to the other side as it came, within two minutes to the address, and
/// shows that there is no silence; nothing but what a side says does.
pub proof fn bytes_break_silence(f: ForwardLoop, now: u64, event: ForwardEvent)
    ensures
        event matches ForwardEvent::FromAddress(Received::Bytes(data)) ==> forward_step(
            f,
            now,
            event,
        ) == ForwardStep::ToPeer(data),
        event matches ForwardEvent::FromPeer(Received::Bytes(data)) ==> forward_step(f, now, event)
            == (ForwardStep::ToAddress { data, timeout_ms: 120_000 }),
        forward_after(f, now, event).conn_id == f.conn_id,
        event matches ForwardEvent::FromAddress(Received::Bytes(_)) ==> forward_after(
            f,
            now,
            event,
        ).last_recv_time == now,
        event matches ForwardEvent::FromPeer(Received::Bytes(_)) ==> forward_after(
            f,
            now,
            event,
        ).last_recv_time == now,
        !(event is FromAddress || event is FromPeer) ==> forward_after(f, now, event) == f,
{
}

} // verus!
