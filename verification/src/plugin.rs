//! Plugins that block the input of this machine while a peer controls it.

use vstd::prelude::*;

use crate::action::MessageInput;
use crate::registry::Registry;

verus! {

/// How long a plugin waits for input to be blocked, in milliseconds.
pub const PLUGIN_WAIT_MS: u64 = 3_000;

/// What the input thread is told to block or free input for a plugin.
pub open spec fn block_message(peer: String, block: bool) -> MessageInput {
    if block {
        MessageInput::BlockOnPlugin { peer }
    } else {
        MessageInput::BlockOffPlugin { peer }
    }
}

/// What the input thread of the peer's connection is to be told, and which connection that is;
/// nothing where the peer is not known.
pub fn plugin_block_request(
    reg: &Registry,
    peer: &String,
    block: bool,
) -> (request: Option<(i32, MessageInput)>)
    ensures
        request == if reg@.plugin_inputs.dom().contains(peer@) {
            Some((reg@.plugin_inputs[peer@], block_message(*peer, block)))
        } else {
            None
        },
{
    match reg.plugin_inputs.get(peer.as_str()) {
        Some(conn) => {
            let message = if block {
                MessageInput::BlockOnPlugin { peer: peer.clone() }
            } else {
                MessageInput::BlockOffPlugin { peer: peer.clone() }
            };
            Some((*conn, message))
        },
        None => None,
    }
}

/// Whether input is blocked or freed as wanted, given what the input thread answered in time.
pub fn plugin_block_input(reg: &Registry, peer: &str, block: bool, reply: Option<bool>) -> (done: bool)
    ensures
        done == (reg@.plugin_inputs.dom().contains(peer@) && reply == Some(block)),
{
    match reg.plugin_inputs.get(peer) {
        Some(_) => match reply {
            Some(blocked) => blocked == block,
            None => false,
        },
        None => false,
    }
}

/// A plugin's wish reaches the input thread as it was made, with the peer that it is for.
pub proof fn plugin_wish_is_handed_on(peer: String, block: bool)
    ensures
        block ==> block_message(peer, block) == (MessageInput::BlockOnPlugin { peer }),
        !block ==> block_message(peer, block) == (MessageInput::BlockOffPlugin { peer }),
{
}

} // verus!
