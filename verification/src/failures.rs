//! Wrong attempts to log on, counted by the address that they come from.

use vstd::prelude::*;

use crate::action::Action;
use crate::audit::{AlarmAuditType, AlarmInfo};
use crate::connection::{alarm_audit, login_error, Connection};
use crate::env::Env;
use crate::message::LoginError;
use crate::registry::{Registry, RegistryView};

verus! {

/// More wrong attempts than this, and the address is refused for good.
pub const MAX_ATTEMPTS: i32 = 30;

/// More wrong attempts than this in one minute, and the address has to wait.
pub const MAX_ATTEMPTS_PER_MINUTE: i32 = 6;

/// What was wrong.
#[derive(Clone, Copy, Debug, PartialEq, Eq, Structural)]
pub enum Factor {
    Password,
    Second,
}

/// The wrong attempts of each address.
pub open spec fn failures(reg: RegistryView, factor: Factor) -> Map<Seq<char>, (i32, i32, i32)> {
    match factor {
        Factor::Password => reg.password_failures,
        Factor::Second => reg.tfa_failures,
    }
}

/// The registry with other wrong attempts.
pub open spec fn with_failures(
    reg: RegistryView,
    factor: Factor,
    table: Map<Seq<char>, (i32, i32, i32)>,
) -> RegistryView {
    match factor {
        Factor::Password => RegistryView { password_failures: table, ..reg },
        Factor::Second => RegistryView { tfa_failures: table, ..reg },
    }
}

/// The wrong attempts of an address: the minute of the last one, how many in that minute, and how
/// many altogether.
pub open spec fn failure_of(reg: RegistryView, factor: Factor, ip: Seq<char>) -> (i32, i32, i32) {
    if failures(reg, factor).dom().contains(ip) {
        failures(reg, factor)[ip]
    } else {
        (0, 0, 0)
    }
}

/// The minute of a time in milliseconds, rounded towards 1970.
pub open spec fn minute_of(ms: i64) -> i32 {
    if ms >= 0 {
        (ms as int / 60_000) as i32
    } else {
        (-(-ms / 60_000)) as i32
    }
}

/// The minute of a time in milliseconds.
fn minute(ms: i64) -> (time: i32)
    ensures
        time == minute_of(ms),
{
    if ms >= 0 {
        (ms / 60_000) as i32
    } else {
        (-(-(ms as i128) / 60_000)) as i32
    }
}

/// An address with these wrong attempts may try again in minute `time`.
pub open spec fn may_try(failure: (i32, i32, i32), time: i32) -> bool {
    failure.2 <= MAX_ATTEMPTS && !(time == failure.0 && failure.1 > MAX_ATTEMPTS_PER_MINUTE)
}

/// What an address that may not try is told, and who else is.
pub open spec fn refusal_actions(
    c: Connection,
    env: Env,
    out: Seq<Action>,
    failure: (i32, i32, i32),
    time: i32,
) -> Seq<Action> {
    let info = AlarmInfo::Attempts { ip: c.trace.ip, id: c.lr.my_id, name: c.lr.my_name };
    if failure.2 > MAX_ATTEMPTS {
        alarm_audit(
            env.audit,
            out.push(login_error(LoginError::TooManyWrongAttempts)),
            AlarmAuditType::ExceedThirtyAttempts,
            info,
        )
    } else if !may_try(failure, time) {
        alarm_audit(
            env.audit,
            out.push(login_error(LoginError::TryOneMinuteLater)),
            AlarmAuditType::SixAttemptsWithinOneMinute,
            info,
        )
    } else {
        out
    }
}

/// The wrong attempts when one more comes in minute `time`.
pub open spec fn one_more(failure: (i32, i32, i32), time: i32) -> (i32, i32, i32) {
    if failure.0 == time {
        (time, (failure.1 + 1) as i32, (failure.2 + 1) as i32)
    } else {
        (time, 1, (failure.2 + 1) as i32)
    }
}

/// The registry after an attempt: a right one wipes the record of the address out, a wrong one is
/// counted.
pub open spec fn attempt_noted(
    reg: RegistryView,
    factor: Factor,
    ip: Seq<char>,
    failure: (i32, i32, i32),
    time: i32,
    right: bool,
) -> RegistryView {
    let table = failures(reg, factor);
    if !right {
        with_failures(reg, factor, table.insert(ip, one_more(failure, time)))
    } else if failure.0 != 0 {
        with_failures(reg, factor, table.remove(ip))
    } else {
        reg
    }
}

impl Registry {
    /// The wrong attempts of an address.
    fn failure(&self, factor: Factor, ip: &str) -> (failure: (i32, i32, i32))
        ensures
            failure == failure_of(self@, factor, ip@),
    {
        let found = match factor {
            Factor::Password => self.password_failures.get(ip),
            Factor::Second => self.tfa_failures.get(ip),
        };
        match found {
            Some(failure) => *failure,
            None => (0, 0, 0),
        }
    }

    /// Wipes the record of an address out.
    fn forget_failure(&mut self, factor: Factor, ip: &str)
        ensures
            final(self)@ == with_failures(
                old(self)@,
                factor,
                failures(old(self)@, factor).remove(ip@),
            ),
    {
        match factor {
            Factor::Password => {
                let _ = self.password_failures.remove(ip);
            },
            Factor::Second => {
                let _ = self.tfa_failures.remove(ip);
            },
        }
        assert(self@ =~= with_failures(
            old(self)@,
            factor,
            failures(old(self)@, factor).remove(ip@),
        ));
    }

    /// Records the wrong attempts of an address.
    fn set_failure(&mut self, factor: Factor, ip: String, failure: (i32, i32, i32))
        ensures
            final(self)@ == with_failures(
                old(self)@,
                factor,
                failures(old(self)@, factor).insert(ip@, failure),
            ),
    {
        match factor {
            Factor::Password => self.password_failures.insert(ip, failure),
            Factor::Second => self.tfa_failures.insert(ip, failure),
        }
        assert(self@ =~= with_failures(
            old(self)@,
            factor,
            failures(old(self)@, factor).insert(ip@, failure),
        ));
    }
}

impl Connection {
    /// Counts an attempt of the peer, or wipes its record out where the attempt was right.
    pub(crate) fn update_failure(
        &self,
        reg: &mut Registry,
        failure: (i32, i32, i32),
        time: i32,
        right: bool,
        factor: Factor,
    )
        requires
            !right ==> failure.2 < i32::MAX && (failure.0 == time ==> failure.1 < i32::MAX),
        ensures
            final(reg)@ == attempt_noted(
                old(reg)@,
                factor,
                self.trace.ip@,
                failure,
                time,
                right,
            ),
    {
        if right {
            if failure.0 != 0 {
                reg.forget_failure(factor, self.trace.ip.as_str());
            }
            return ;
        }
        let counted = if failure.0 == time {
            (time, failure.1 + 1, failure.2 + 1)
        } else {
            (time, 1, failure.2 + 1)
        };
        reg.set_failure(factor, self.trace.ip.clone(), counted);
    }

    /// Whether the peer may try; where not, it is told so and an alarm goes out.
    pub(crate) fn check_failure(
        &self,
        reg: &Registry,
        env: &Env,
        factor: Factor,
        out: &mut Vec<Action>,
    ) -> (found: (((i32, i32, i32), i32), bool))
        ensures
            found.0.0 == failure_of(reg@, factor, self.trace.ip@),
            found.0.1 == minute_of(env.epoch_ms),
            found.1 == may_try(found.0.0, found.0.1),
            final(out)@ == refusal_actions(*self, *env, old(out)@, found.0.0, found.0.1),
    {
        let failure = reg.failure(factor, self.trace.ip.as_str());
        let time = minute(env.epoch_ms);
        let allowed = if failure.2 > MAX_ATTEMPTS {
            self.refuse(
                env,
                LoginError::TooManyWrongAttempts,
                AlarmAuditType::ExceedThirtyAttempts,
                out,
            );
            false
        } else if time == failure.0 && failure.1 > MAX_ATTEMPTS_PER_MINUTE {
            self.refuse(
                env,
                LoginError::TryOneMinuteLater,
                AlarmAuditType::SixAttemptsWithinOneMinute,
                out,
            );
            false
        } else {
            true
        };
        ((failure, time), allowed)
    }

    /// Tells the peer that it may not try, and reports an alarm.
    fn refuse(
        &self,
        env: &Env,
        error: LoginError,
        typ: AlarmAuditType,
        out: &mut Vec<Action>,
    )
        ensures
            final(out)@ == alarm_audit(
                env.audit,
                old(out)@.push(login_error(error)),
                typ,
                AlarmInfo::Attempts {
                    ip: self.trace.ip,
                    id: self.lr.my_id,
                    name: self.lr.my_name,
                },
            ),
    {
        self.send_login_error(error, out);
        let info = AlarmInfo::Attempts {
            ip: self.trace.ip.clone(),
            id: self.lr.my_id.clone(),
            name: self.lr.my_name.clone(),
        };
        Self::post_alarm_audit(&env.audit, typ, info, out);
    }
}

/// The counts of wrong attempts are those that can come of attempts that were let through.
pub open spec fn counts_fit(table: Map<Seq<char>, (i32, i32, i32)>) -> bool {
    forall|ip: Seq<char>| #[trigger]
        table.dom().contains(ip) ==> 1 <= table[ip].1 <= MAX_ATTEMPTS_PER_MINUTE + 1
            && table[ip].1 <= table[ip].2 <= MAX_ATTEMPTS + 1
}

/// Every attempt that is let through keeps the counts in their bounds, right or wrong.
pub proof fn attempts_keep_counts(
    reg: RegistryView,
    factor: Factor,
    other: Factor,
    ip: Seq<char>,
    time: i32,
    right: bool,
)
    requires
        counts_fit(failures(reg, other)),
        may_try(failure_of(reg, factor, ip), time),
    ensures
        counts_fit(
            failures(
                attempt_noted(reg, factor, ip, failure_of(reg, factor, ip), time, right),
                other,
            ),
        ),
{
    let after = failures(
        attempt_noted(reg, factor, ip, failure_of(reg, factor, ip), time, right),
        other,
    );
    assert forall|k: Seq<char>| #[trigger] after.dom().contains(k) implies 1 <= after[k].1
        <= MAX_ATTEMPTS_PER_MINUTE + 1 && after[k].1 <= after[k].2 <= MAX_ATTEMPTS + 1 by {
        if failures(reg, other).dom().contains(k) {
        }
    }
}

/// An address with more than thirty wrong attempts is refused at any time.
pub proof fn lockout_lasts(failure: (i32, i32, i32), time: i32)
    requires
        failure.2 > MAX_ATTEMPTS,
    ensures
        !may_try(failure, time),
{
}

/// After the seventh wrong attempt in one minute the address is refused for the rest of that
/// minute, and is let through in the next one while it has not more than thirty wrong attempts.
pub proof fn seventh_attempt_waits(failure: (i32, i32, i32), time: i32, later: i32)
    requires
        may_try(failure, time),
        failure.0 == time,
        failure.1 == MAX_ATTEMPTS_PER_MINUTE,
        later != time,
    ensures
        !may_try(one_more(failure, time), time),
        may_try(one_more(failure, time), later) <==> failure.2 < MAX_ATTEMPTS,
{
}

/// Wrong attempts of a fresh address in one minute: the first seven are let through and counted,
/// and from then on the address has to wait for the next minute.
pub proof fn seven_attempts_per_minute(time: i32, k: nat)
    requires
        k <= MAX_ATTEMPTS_PER_MINUTE + 1,
    ensures
        k > 0 ==> after_wrong((0, 0, 0), same_minute(time, k)) == (time, k as i32, k as i32),
        may_try(after_wrong((0, 0, 0), same_minute(time, k)), time) <==> k
            <= MAX_ATTEMPTS_PER_MINUTE,
    decreases k,
{
    if k > 0 {
        seven_attempts_per_minute(time, (k - 1) as nat);
        assert(same_minute(time, k).drop_last() =~= same_minute(time, (k - 1) as nat));
    }
}

/// What is checked after wrong attempts in the minutes of `times`, each counted against a fresh
/// address, is what the attempts add up to.
pub proof fn attempts_add_up(
    reg: RegistryView,
    after: RegistryView,
    factor: Factor,
    ip: Seq<char>,
    times: Seq<i32>,
    time: i32,
)
    requires
        failure_of(reg, factor, ip) == after_wrong((0, 0, 0), times),
        after == attempt_noted(reg, factor, ip, failure_of(reg, factor, ip), time, false),
    ensures
        failure_of(after, factor, ip) == after_wrong((0, 0, 0), times.push(time)),
{
    assert(times.push(time).drop_last() =~= times);
}

/// A wrong attempt counts once, whenever it comes.
pub proof fn wrong_attempt_counts(
    reg: RegistryView,
    factor: Factor,
    ip: Seq<char>,
    time: i32,
)
    requires
        may_try(failure_of(reg, factor, ip), time),
    ensures
        failure_of(
            attempt_noted(reg, factor, ip, failure_of(reg, factor, ip), time, false),
            factor,
            ip,
        ).2 == failure_of(reg, factor, ip).2 + 1,
{
}

/// A right attempt wipes out what was held against the address, and nothing else.
pub proof fn right_attempt_forgives(
    reg: RegistryView,
    factor: Factor,
    ip: Seq<char>,
    other: Seq<char>,
    time: i32,
)
    requires
        failure_of(reg, factor, ip).0 != 0,
        other != ip,
    ensures
        failure_of(
            attempt_noted(reg, factor, ip, failure_of(reg, factor, ip), time, true),
            factor,
            ip,
        ) == (0i32, 0i32, 0i32),
        failure_of(
            attempt_noted(reg, factor, ip, failure_of(reg, factor, ip), time, true),
            factor,
            other,
        ) == failure_of(reg, factor, other),
{
}

/// One minute, `k` times.
pub open spec fn same_minute(time: i32, k: nat) -> Seq<i32> {
    Seq::new(k, |i: int| time)
}

/// The wrong attempts of an address after one in each of the minutes of `times`.
pub open spec fn after_wrong(failure: (i32, i32, i32), times: Seq<i32>) -> (i32, i32, i32)
    decreases times.len(),
{
    if times.len() == 0 {
        failure
    } else {
        one_more(after_wrong(failure, times.drop_last()), times.last())
    }
}

/// Thirty-one wrong attempts, whenever they come, lock an address out for good.
pub proof fn brute_force_is_stopped(times: Seq<i32>, now: i32)
    requires
        times.len() == MAX_ATTEMPTS + 1,
    ensures
        !may_try(after_wrong((0, 0, 0), times), now),
{
    lemma_wrong_total(times);
}

/// Wrong attempts add up.
proof fn lemma_wrong_total(times: Seq<i32>)
    requires
        times.len() <= MAX_ATTEMPTS + 1,
    ensures
        after_wrong((0, 0, 0), times).2 == times.len(),
    decreases times.len(),
{
    if times.len() > 0 {
        lemma_wrong_total(times.drop_last());
    }
}

/// A time lies in its minute: a time after 1970 not before its beginning and before its end, and
/// one before 1970 likewise, counted backwards.
pub proof fn time_lies_in_its_minute(ms: i64)
    requires
        -120_000_000_000_000 <= ms <= 120_000_000_000_000,
    ensures
        ms >= 0 ==> minute_of(ms) * 60_000 <= ms < (minute_of(ms) + 1) * 60_000,
        ms < 0 ==> (minute_of(ms) - 1) * 60_000 < ms <= minute_of(ms) * 60_000,
{
}

} // verus!
