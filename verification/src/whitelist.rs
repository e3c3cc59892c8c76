//! Addresses that may connect.

use std::str::FromStr;
use vstd::prelude::*;

use crate::text::{filled_pieces, same_text, split_filled, texts};

verus! {

/// The address of a peer.
#[derive(Clone, Copy, Debug, PartialEq, Eq)]
pub enum IpOctets {
    V4([u8; 4]),
    V6([u8; 16]),
}

impl IpOctets {
    /// The bytes of the address.
    pub open spec fn octets(self) -> Seq<u8> {
        match self {
            IpOctets::V4(o) => o@,
            IpOctets::V6(o) => o@,
        }
    }
}

/// Where a peer connects from.
#[derive(Debug, PartialEq, Eq)]
pub struct PeerAddr {
    pub ip: IpOctets,
    /// The address as text.
    pub text: String,
}

/// What crate `cidr_utils` says of an entry and the address with these bytes: whether the block of
/// addresses that the entry stands for holds the address, or nothing where the entry is no block.
pub uninterp spec fn cidr_answer(entry: Seq<char>, octets: Seq<u8>) -> Option<bool>;

/// Calls `IpCidr::from_str` of crate `cidr_utils` on `entry` and, where that gives a block,
/// `IpCidr::contains` of it on the address. The answer depends on the text and the address alone.
/// An address of four bytes is one of version 4.
#[verifier::external_body]
fn cidr_contains(entry: &str, ip: &IpOctets) -> (answer: Option<bool>)
    ensures
        answer == cidr_answer(entry@, ip.octets()),
{
    let ip = match *ip {
        IpOctets::V4(o) => o.into(),
        IpOctets::V6(o) => o.into(),
    };
    cidr_utils::cidr::IpCidr::from_str(entry).ok().map(|cidr| cidr.contains(ip))
}

/// An entry that is a block of addresses holds the address with these bytes.
pub open spec fn cidr_holds(entry: Seq<char>, octets: Seq<u8>) -> bool {
    cidr_answer(entry, octets) == Some(true)
}

/// The entry that lets every address in.
pub open spec fn is_wildcard(entry: Seq<char>) -> bool {
    entry == "0.0.0.0"@
}

/// An address for which the blocks of `held` are those that hold it may connect: there are no
/// entries, or one lets every address in, or one holds the address.
pub open spec fn list_admits(entries: Seq<Seq<char>>, held: spec_fn(Seq<char>) -> bool) -> bool {
    entries.len() == 0 || exists|i: int|
        0 <= i < entries.len() && (is_wildcard(#[trigger] entries[i]) || held(entries[i]))
}

/// A list of entries with commas between them admits an address.
pub open spec fn whitelist_admits(list: Seq<char>, ip: IpOctets) -> bool {
    list_admits(filled_pieces(list, ','), |entry: Seq<char>| cidr_holds(entry, ip.octets()))
}

/// Entry `i` lets the address in, given for each entry that is a block whether it holds the address.
pub open spec fn entry_admits(entries: Seq<String>, held: Seq<Option<bool>>, i: int) -> bool {
    is_wildcard(entries[i]@) || held[i] == Some(true)
}

/// Whether an address may connect, given for each entry that is a block whether it holds the
/// address. An entry that is no block holds none.
pub fn admitted(entries: &Vec<String>, held: &Vec<Option<bool>>) -> (yes: bool)
    requires
        held@.len() == entries@.len(),
    ensures
        yes == (entries@.len() == 0 || exists|i: int|
            0 <= i < entries@.len() && #[trigger] entry_admits(entries@, held@, i)),
{
    if entries.len() == 0 {
        return true;
    }
    let mut i: usize = 0;
    while i < entries.len()
        invariant
            i <= entries@.len(),
            held@.len() == entries@.len(),
            entries@.len() > 0,
            forall|j: int| 0 <= j < i ==> !#[trigger] entry_admits(entries@, held@, j),
        decreases entries@.len() - i,
    {
        let holds = match held[i] {
            Some(holds) => holds,
            None => false,
        };
        if same_text(entries[i].as_str(), "0.0.0.0") || holds {
            assert(entry_admits(entries@, held@, i as int));
            return true;
        }
        i += 1;
    }
    false
}

/// Whether a list of entries with commas between them admits an address.
pub fn admits(list: &str, ip: &IpOctets) -> (yes: bool)
    ensures
        yes == whitelist_admits(list@, *ip),
{
    let entries = split_filled(list, ',');
    let ghost parts = filled_pieces(list@, ',');
    let mut held: Vec<Option<bool>> = Vec::new();
    let mut i: usize = 0;
    while i < entries.len()
        invariant
            i <= entries@.len(),
            held@.len() == i,
            forall|j: int| 0 <= j < i ==> #[trigger] held@[j] == cidr_answer(entries@[j]@, ip.octets()),
        decreases entries@.len() - i,
    {
        held.push(cidr_contains(entries[i].as_str(), ip));
        i += 1;
    }
    let yes = admitted(&entries, &held);
    proof {
        assert(parts == texts(entries@));
        assert forall|j: int| 0 <= j < parts.len() implies #[trigger] parts[j]
            == entries@[j]@ by {}
        let holds = |entry: Seq<char>| cidr_holds(entry, ip.octets());
        if list_admits(parts, holds) && parts.len() > 0 {
            let j = choose|j: int|
                0 <= j < parts.len() && (is_wildcard(#[trigger] parts[j]) || holds(parts[j]));
            assert(entry_admits(entries@, held@, j));
        }
        if yes && parts.len() > 0 {
            let j = choose|j: int|
                0 <= j < entries@.len() && #[trigger] entry_admits(entries@, held@, j);
            assert(is_wildcard(parts[j]) || holds(parts[j]));
        }
    }
    yes
}

/// A list without entries admits every address.
pub proof fn empty_whitelist_admits_all(list: Seq<char>, ip: IpOctets)
    requires
        filled_pieces(list, ',').len() == 0,
    ensures
        whitelist_admits(list, ip),
{
}

/// A list with the entry for all addresses admits every address.
pub proof fn wildcard_admits_all(list: Seq<char>, ip: IpOctets)
    requires
        filled_pieces(list, ',').contains("0.0.0.0"@),
    ensures
        whitelist_admits(list, ip),
{
    let parts = filled_pieces(list, ',');
    let i = choose|i: int| 0 <= i < parts.len() && parts[i] == "0.0.0.0"@;
    assert(is_wildcard(parts[i]));
}

} // verus!
