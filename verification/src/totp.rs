//! A second factor: one-time passwords that change with time.

use vstd::prelude::*;

verus! {

/// Hash that one-time passwords are made with.
#[derive(Clone, Copy, Debug, PartialEq, Eq, Structural)]
pub enum TotpAlgorithm {
    Sha1,
    Sha256,
    Sha512,
}

impl TotpAlgorithm {
    /// A number for each hash.
    pub open spec fn number(self) -> int {
        match self {
            TotpAlgorithm::Sha1 => 1,
            TotpAlgorithm::Sha256 => 256,
            TotpAlgorithm::Sha512 => 512,
        }
    }
}

/// How one-time passwords are made.
#[derive(Debug)]
pub struct Totp {
    pub algorithm: TotpAlgorithm,
    pub digits: usize,
    /// How many steps before and after the present one are taken too.
    pub skew: u8,
    /// The length of a step in seconds.
    pub step: u64,
    pub secret: Vec<u8>,
}

/// What `TOTP::check` of crate `totp_rs` says of `code` at `secs` seconds since 1970.
pub uninterp spec fn totp_check(
    algorithm: int,
    digits: int,
    skew: int,
    step: int,
    secret: Seq<u8>,
    code: Seq<char>,
    secs: int,
) -> bool;

impl Totp {
    /// One-time passwords can be made: a step takes time, and the digits fit a number.
    pub open spec fn usable(self) -> bool {
        self.step > 0 && self.digits <= 9
    }

    /// At `secs` seconds since 1970 all steps that are taken lie in the range of times.
    pub open spec fn time_usable(self, secs: u64) -> bool {
        &&& self.usable()
        &&& secs as int / self.step as int >= self.skew
        &&& (secs as int / self.step as int + self.skew) * self.step <= u64::MAX
    }

    /// What `TOTP::check` says of `code` at `secs` seconds since 1970.
    pub open spec fn says(self, code: Seq<char>, secs: u64) -> bool {
        totp_check(
            self.algorithm.number(),
            self.digits as int,
            self.skew as int,
            self.step as int,
            self.secret@,
            code,
            secs as int,
        )
    }

    /// Whether `code` is right at the time that `secs` says, in seconds since 1970. Absent where
    /// there is no time, or none for which codes can be made.
    pub open spec fn verdict(self, code: Seq<char>, secs: Option<u64>) -> Option<bool> {
        match secs {
            Some(secs) => if self.time_usable(secs) {
                Some(self.says(code, secs))
            } else {
                None
            },
            None => None,
        }
    }

    /// Calls `TOTP::check` of crate `totp_rs`. The answer depends on the parameters, the code and
    /// the time alone. The issuer and the account of a `TOTP` have no part in it. Times and
    /// parameters on which the arithmetic of `check` leaves its range are left out.
    #[verifier::external_body]
    fn check(&self, code: &str, secs: u64) -> (right: bool)
        requires
            self.time_usable(secs),
        ensures
            right == totp_check(
                self.algorithm.number(),
                self.digits as int,
                self.skew as int,
                self.step as int,
                self.secret@,
                code@,
                secs as int,
            ),
    {
        let algorithm = match self.algorithm {
            TotpAlgorithm::Sha1 => totp_rs::Algorithm::SHA1,
            TotpAlgorithm::Sha256 => totp_rs::Algorithm::SHA256,
            TotpAlgorithm::Sha512 => totp_rs::Algorithm::SHA512,
        };
        totp_rs::TOTP {
            algorithm,
            digits: self.digits,
            skew: self.skew,
            step: self.step,
            secret: self.secret.clone(),
            issuer: None,
            account_name: String::new(),
        }.check(code, secs)
    }

    /// Whether codes can be made and checked at `secs` seconds since 1970.
    fn is_time_usable(&self, secs: u64) -> (yes: bool)
        ensures
            yes == self.time_usable(secs),
    {
        if self.step == 0 || self.digits > 9 {
            return false;
        }
        let steps: u64 = secs / self.step;
        if steps < self.skew as u64 {
            return false;
        }
        let last: u128 = steps as u128 + self.skew as u128;
        let step: u128 = self.step as u128;
        assert(last * step <= 0xffff_ffff_ffff_ffff + 255 * 0xffff_ffff_ffff_ffff)
            by (nonlinear_arith)
            requires
                last <= secs as int / self.step as int + 255,
                step == self.step,
                0 < self.step <= 0xffff_ffff_ffff_ffff,
                0 <= secs <= 0xffff_ffff_ffff_ffff,
        ;
        last * step <= u64::MAX as u128
    }

    /// Whether `code` is right at the time that `secs` says.
    pub fn check_current(&self, code: &str, secs: Option<u64>) -> (right: Option<bool>)
        ensures
            right == self.verdict(code@, secs),
    {
        match secs {
            Some(secs) => {
                if self.is_time_usable(secs) {
                    Some(self.check(code, secs))
                } else {
                    None
                }
            },
            None => None,
        }
    }
}

} // verus!
