//! The lifetime of a leaf node that comes with a key package.

use vstd::prelude::*;
use crate::codec::append_u64;
use crate::codec::u64_encoding;

verus! {

/// `SystemTime` of the standard library: a time of the clock. Nothing is
/// known of what is inside it.
#[verifier::external_type_specification]
#[verifier::external_body]
pub struct ExSystemTime(std::time::SystemTime);

/// Calls `SystemTime::now`. What comes back depends on the clock.
#[verifier::external_body]
fn system_time_now() -> (t: std::time::SystemTime) {
    std::time::SystemTime::now()
}

/// Calls `SystemTime::duration_since` with the start of the Unix epoch. The
/// error value, which comes where the time is before that start, is dropped.
#[verifier::external_body]
fn duration_since_epoch(t: &std::time::SystemTime) -> (d: Option<std::time::Duration>) {
    t.duration_since(std::time::UNIX_EPOCH).ok()
}

/// Calls `Duration::as_secs`.
#[verifier::external_body]
fn duration_as_secs(d: &std::time::Duration) -> (s: u64) {
    d.as_secs()
}

/// The default lifetime of a key package in seconds: twelve weeks.
pub const DEFAULT_KEY_PACKAGE_LIFETIME_SECONDS: u64 = 7257600;

/// How long before its making a lifetime starts, in seconds, to allow for
/// clocks that differ: an hour.
pub const DEFAULT_KEY_PACKAGE_LIFETIME_MARGIN_SECONDS: u64 = 3600;

/// The greatest length of a lifetime that is accepted, in seconds.
pub const MAX_LEAF_NODE_LIFETIME_RANGE_SECONDS: u64 = 7261200;

/// The time from which and the time up to which a leaf node is valid, in
/// seconds since the start of the Unix epoch.
#[derive(Clone, Copy, Debug, PartialEq, Eq, Structural)]
pub struct Lifetime {
    pub not_before: u64,
    pub not_after: u64,
}

/// The seconds from `a` on for `b` more, or the greatest number.
pub open spec fn saturating_sum(a: u64, b: u64) -> u64 {
    if a + b > u64::MAX {
        u64::MAX
    } else {
        (a + b) as u64
    }
}

/// The seconds from `b` to `a`, or 0 where `a` is before `b`.
pub open spec fn saturating_difference(a: u64, b: u64) -> u64 {
    if a < b {
        0
    } else {
        (a - b) as u64
    }
}

/// The encoding of a lifetime: its two times.
pub open spec fn lifetime_encoding(lifetime: Lifetime) -> Seq<u8> {
    u64_encoding(lifetime.not_before) + u64_encoding(lifetime.not_after)
}

impl Lifetime {
    /// Whether the lifetime is no longer than the greatest length accepted.
    pub open spec fn spec_has_acceptable_range(self) -> bool {
        saturating_difference(self.not_after, self.not_before) <= MAX_LEAF_NODE_LIFETIME_RANGE_SECONDS
    }

    /// Whether the time `now` is within the lifetime, its ends left out.
    pub open spec fn spec_is_valid_at(self, now: u64) -> bool {
        self.not_before < now && now < self.not_after
    }

    /// The lifetime that was made at the time `now` to last `t` seconds: it
    /// starts the margin before `now`.
    pub open spec fn spec_starting_at(now: u64, t: u64) -> Lifetime {
        Lifetime { not_before: saturating_difference(now, DEFAULT_KEY_PACKAGE_LIFETIME_MARGIN_SECONDS), not_after: saturating_sum(now, t) }
    }

    /// The lifetime that is made at the time `now` to last `t` seconds.
    pub fn starting_at(now: u64, t: u64) -> (lifetime: Self)
        ensures
            lifetime == Lifetime::spec_starting_at(now, t),
    {
        Lifetime { not_before: now.saturating_sub(DEFAULT_KEY_PACKAGE_LIFETIME_MARGIN_SECONDS), not_after: now.saturating_add(t) }
    }

    /// The seconds since the start of the Unix epoch by the clock, if the
    /// clock is not before it.
    pub fn now() -> (t: Option<u64>) {
        let time = system_time_now();
        match duration_since_epoch(&time) {
            Some(elapsed) => Some(duration_as_secs(&elapsed)),
            None => None,
        }
    }

    /// The lifetime that is made now to last `t` seconds. A clock that is
    /// before the start of the Unix epoch is taken to be at it.
    pub fn new(t: u64) -> (lifetime: Self)
        ensures
            exists|now: u64| lifetime == #[trigger] Lifetime::spec_starting_at(now, t),
    {
        let now: u64 = match Lifetime::now() {
            Some(seconds) => seconds,
            None => 0,
        };
        let lifetime = Lifetime::starting_at(now, t);
        assert(lifetime == Lifetime::spec_starting_at(now, t));
        lifetime
    }

    /// Whether the lifetime is no longer than the greatest length accepted.
    pub fn has_acceptable_range(&self) -> (b: bool)
        ensures
            b == self.spec_has_acceptable_range(),
    {
        self.not_after.saturating_sub(self.not_before) <= MAX_LEAF_NODE_LIFETIME_RANGE_SECONDS
    }

    /// Whether the time `now` is within the lifetime.
    pub fn is_valid_at(&self, now: u64) -> (b: bool)
        ensures
            b == self.spec_is_valid_at(now),
    {
        self.not_before < now && now < self.not_after
    }

    /// Whether the time of the clock is within the lifetime. A clock that
    /// is before the start of the Unix epoch is taken to be at it, which is
    /// within no lifetime.
    pub fn is_valid(&self) -> (b: bool)
        ensures
            exists|now: u64| b == #[trigger] self.spec_is_valid_at(now),
    {
        match Lifetime::now() {
            Some(now) => {
                let b = self.is_valid_at(now);
                assert(b == self.spec_is_valid_at(now));
                b
            },
            None => {
                assert(false == self.spec_is_valid_at(0));
                false
            },
        }
    }

    /// The start of the lifetime.
    pub fn not_before(&self) -> (t: u64)
        ensures
            t == self.not_before,
    {
        self.not_before
    }

    /// The end of the lifetime.
    pub fn not_after(&self) -> (t: u64)
        ensures
            t == self.not_after,
    {
        self.not_after
    }

    /// Appends the encoding of the lifetime.
    pub fn append_encoding(&self, out: &mut Vec<u8>)
        ensures
            final(out)@ == old(out)@ + lifetime_encoding(*self),
    {
        append_u64(out, self.not_before);
        append_u64(out, self.not_after);
        assert(out@ == old(out)@ + lifetime_encoding(*self));
    }
}

impl Default for Lifetime {
    fn default() -> (lifetime: Self)
        ensures
            exists|now: u64| lifetime == #[trigger] Lifetime::spec_starting_at(now, DEFAULT_KEY_PACKAGE_LIFETIME_SECONDS),
    {
        Lifetime::new(DEFAULT_KEY_PACKAGE_LIFETIME_SECONDS)
    }
}

} // verus!
