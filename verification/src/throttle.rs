//! The login throttle: a count of failed attempts in a row and the time of
//! the last, and the policy that tells when they lock.
use crate::clock::{elapsed_nanos, Timestamp};
use vstd::prelude::*;

verus! {

/// When the throttle locks and for how long.
#[derive(Clone, Copy, Debug, PartialEq, Eq, Structural)]
pub struct ThrottlePolicy {
    /// The count of failed attempts up to which a further attempt is let
    /// through: the lock engages on the failure after these.
    pub max_failed_attempts: usize,
    /// How long the lock holds after the last failed attempt, in seconds.
    pub cooldown_seconds: u64,
}

impl Default for ThrottlePolicy {
    /// Three failed attempts are let through, and the lock holds for 300
    /// seconds.
    fn default() -> (policy: ThrottlePolicy)
        ensures
            policy == (ThrottlePolicy { max_failed_attempts: 3, cooldown_seconds: 300 }),
    {
        ThrottlePolicy { max_failed_attempts: 3, cooldown_seconds: 300 }
    }
}

/// The throttle's record: how many attempts failed in a row, and when the
/// last of them did.
#[derive(Clone, Copy, Debug, PartialEq, Eq, Structural)]
pub struct FailedLoginAttempt {
    pub failed_attempt_count: usize,
    pub last_attempt: Timestamp,
}

impl FailedLoginAttempt {
    /// The record without a failed attempt, as of `now`.
    pub open spec fn fresh(now: Timestamp) -> FailedLoginAttempt {
        FailedLoginAttempt { failed_attempt_count: 0, last_attempt: now }
    }

    /// Whether more attempts failed than the policy lets through.
    pub open spec fn exceeded(self, policy: ThrottlePolicy) -> bool {
        self.failed_attempt_count > policy.max_failed_attempts
    }

    /// Whether less than the cooldown passed since the last failed attempt.
    pub open spec fn cooling(self, now: Timestamp, policy: ThrottlePolicy) -> bool {
        elapsed_nanos(self.last_attempt, now) < policy.cooldown_seconds as nat * 1_000_000_000
    }

    /// Whether the throttle turns an attempt at `now` away.
    pub open spec fn locked(self, now: Timestamp, policy: ThrottlePolicy) -> bool {
        self.exceeded(policy) && self.cooling(now, policy)
    }

    /// Whether the cooldown of a lock is over at `now`.
    pub open spec fn cooled_down(self, now: Timestamp, policy: ThrottlePolicy) -> bool {
        self.exceeded(policy) && !self.cooling(now, policy)
    }

    /// The record after one more failed attempt at `now`.
    pub open spec fn after_failure(self, now: Timestamp) -> FailedLoginAttempt {
        FailedLoginAttempt {
            failed_attempt_count: (self.failed_attempt_count + 1) as usize,
            last_attempt: now,
        }
    }

    /// The record without a failed attempt, as of `now`.
    pub fn new(now: Timestamp) -> (info: FailedLoginAttempt)
        ensures
            info == FailedLoginAttempt::fresh(now),
    {
        FailedLoginAttempt { failed_attempt_count: 0, last_attempt: now }
    }

    /// Whether more attempts failed than the policy lets through.
    pub fn has_exceeded(&self, policy: &ThrottlePolicy) -> (r: bool)
        ensures
            r == self.exceeded(*policy),
    {
        self.failed_attempt_count > policy.max_failed_attempts
    }

    /// Whether the throttle turns an attempt at `now` away.
    pub fn is_locked(&self, now: Timestamp, policy: &ThrottlePolicy) -> (r: bool)
        ensures
            r == self.locked(now, *policy),
    {
        self.has_exceeded(policy) && !now.at_least_seconds_after(
            &self.last_attempt,
            policy.cooldown_seconds,
        )
    }

    /// Counts one more failed attempt, made at `now`.
    pub fn add_failed_count(&mut self, now: Timestamp)
        requires
            old(self).failed_attempt_count < usize::MAX,
        ensures
            *final(self) == old(self).after_failure(now),
            final(self).failed_attempt_count == old(self).failed_attempt_count + 1,
    {
        self.failed_attempt_count += 1;
        self.last_attempt = now;
    }
}

} // verus!
