//! Proof of a password: the peer answers a challenge with a hash of the password.

use sha2::Digest;
use vstd::prelude::*;
use vstd::string::*;

use crate::text::same_bytes;

verus! {

/// What `Sha256::digest` of crate `sha2` gives for `data`.
pub uninterp spec fn sha256_of(data: Seq<u8>) -> Seq<u8>;

/// Calls `Sha256::digest` of crate `sha2`: the hash depends on the data alone and is 32 bytes
/// long.
#[verifier::external_body]
fn sha256(data: &Vec<u8>) -> (digest: Vec<u8>)
    ensures
        digest@ == sha256_of(data@),
        digest@.len() == 32,
{
    sha2::Sha256::digest(data).to_vec()
}

/// What both sides know before the peer shows that it knows the password.
#[derive(Debug, PartialEq, Eq)]
pub struct LoginHash {
    pub salt: String,
    pub challenge: String,
}

/// The bytes of a text.
pub open spec fn bytes_of(text: Seq<char>) -> Seq<u8> {
    vstd::utf8::encode_utf8(text)
}

/// The answer to the challenge by one who knows `password`.
pub open spec fn answer_to(hash: LoginHash, password: Seq<char>) -> Seq<u8> {
    sha256_of(
        sha256_of(bytes_of(password) + bytes_of(hash.salt@)) + bytes_of(hash.challenge@),
    )
}

/// `given` shows that the peer knows `password`; an empty password is never known.
pub open spec fn shows_password(hash: LoginHash, password: Seq<char>, given: Seq<u8>) -> bool {
    password.len() > 0 && answer_to(hash, password) == given
}

/// First `a`, then `b`.
fn joined(a: &[u8], b: &[u8]) -> (both: Vec<u8>)
    ensures
        both@ == a@ + b@,
{
    let mut both = vstd::slice::slice_to_vec(a);
    let mut rest = vstd::slice::slice_to_vec(b);
    both.append(&mut rest);
    both
}

/// Whether `given` is the answer `expected` of one who knows `password`.
pub fn accepts_answer(password: &String, expected: &Vec<u8>, given: &Vec<u8>) -> (right: bool)
    ensures
        right == (password@.len() > 0 && expected@ == given@),
{
    !password.as_str().is_empty() && same_bytes(expected.as_slice(), given.as_slice())
}

impl LoginHash {
    /// Whether `given` shows that the peer knows `password`.
    pub fn validate_one_password(&self, password: &String, given: &Vec<u8>) -> (right: bool)
        ensures
            right == shows_password(*self, password@, given@),
    {
        let salted = joined(password.as_str().as_bytes(), self.salt.as_str().as_bytes());
        let first = sha256(&salted);
        let challenged = joined(first.as_slice(), self.challenge.as_str().as_bytes());
        let expected = sha256(&challenged);
        accepts_answer(password, &expected, given)
    }
}

} // verus!
