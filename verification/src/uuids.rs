//! Universally unique identifiers: their bytes and their text.

use vstd::prelude::*;

verus! {

/// The lower-case hexadecimal digit of a number below sixteen.
pub open spec fn hex_digit(n: int) -> char {
    if n < 10 {
        (('0' as u32) + n) as char
    } else {
        (('a' as u32) + n - 10) as char
    }
}

/// Each byte as two hexadecimal digits.
pub open spec fn hex(bytes: Seq<u8>) -> Seq<char> {
    Seq::new(
        2 * bytes.len(),
        |i: int| hex_digit(if i % 2 == 0 {
            bytes[i / 2] as int / 16
        } else {
            bytes[i / 2] as int % 16
        }),
    )
}

/// The text of an identifier: five groups of hexadecimal digits with hyphens between.
pub open spec fn hyphenated(bytes: Seq<u8>) -> Seq<char> {
    hex(bytes.subrange(0, 4)) + seq!['-'] + hex(bytes.subrange(4, 6)) + seq!['-'] + hex(
        bytes.subrange(6, 8),
    ) + seq!['-'] + hex(bytes.subrange(8, 10)) + seq!['-'] + hex(bytes.subrange(10, 16))
}

/// Calls `uuid::Uuid::from_slice`: it takes exactly those byte strings that are sixteen bytes
/// long, and keeps the bytes in their order.
#[verifier::external_body]
pub(crate) fn uuid_from_slice(bytes: &[u8]) -> (uuid: Option<[u8; 16]>)
    ensures
        uuid is Some <==> bytes@.len() == 16,
        uuid matches Some(u) ==> u@ == bytes@,
{
    uuid::Uuid::from_slice(bytes).ok().map(|u| u.into_bytes())
}

/// Calls `to_string` of `uuid::Uuid`: the text is the lower-case hexadecimal form with hyphens.
#[verifier::external_body]
pub(crate) fn uuid_to_string(uuid: &[u8; 16]) -> (text: String)
    ensures
        text@ == hyphenated(uuid@),
{
    uuid::Uuid::from_bytes(*uuid).to_string()
}

/// The arguments with which this program connects to `peer` and shows the token `uuid`; absent
/// where `uuid` is no identifier.
pub fn switch_sides_args(peer: &String, uuid: &Vec<u8>) -> (args: Option<Vec<String>>)
    ensures
        args is Some <==> uuid@.len() == 16,
        args matches Some(list) ==> crate::text::texts(list@) == seq![
            "--connect"@,
            peer@,
            "--switch_uuid"@,
            hyphenated(uuid@),
        ],
{
    match uuid_from_slice(uuid.as_slice()) {
        Some(u) => {
            let mut list: Vec<String> = Vec::new();
            list.push("--connect".to_owned());
            list.push(peer.clone());
            list.push("--switch_uuid".to_owned());
            list.push(uuid_to_string(&u));
            assert(crate::text::texts(list@) =~= seq![
                "--connect"@,
                peer@,
                "--switch_uuid"@,
                hyphenated(uuid@),
            ]);
            Some(list)
        },
        None => None,
    }
}

} // verus!
