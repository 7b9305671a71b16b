//! Temporal quantification.
//!
//! A [`Duration`] is a span of time and an [`Instant`] a reading of a clock;
//! both count nanoseconds. Arithmetic on instants saturates: it stops at the
//! clock's epoch and at the latest instant that can be told, and neither
//! wraps around nor fails.

use vstd::prelude::*;
use core::cmp::Ordering;

verus! {

/// The number of nanoseconds in a second.
pub const NANOS_PER_SEC: u32 = 1_000_000_000;

/// The number of nanoseconds in a microsecond.
pub const NANOS_PER_MICRO: u32 = 1_000;

/// The longest span, and the latest instant, that can be told: in
/// nanoseconds.
pub open spec fn max_nanos() -> nat {
    0xffff_ffff_ffff_ffff * 1_000_000_000 + 999_999_999
}

/// `nanos`, held to the range from zero to [`max_nanos`].
pub open spec fn saturate(nanos: int) -> nat {
    if nanos < 0 {
        0
    } else if nanos > max_nanos() {
        max_nanos()
    } else {
        nanos as nat
    }
}

/// A span of time: whole seconds, and nanoseconds below one second.
#[derive(Debug, PartialEq, Eq, Structural, Clone, Copy)]
pub struct Duration {
    secs: u64,
    nanos: u32,
}

/// A measurement of a monotonically nondecreasing clock: the time since the
/// clock's epoch. Opaque and useful only with [`Duration`].
#[derive(Debug, PartialEq, Eq, Structural, Ord, Clone, Copy)]
pub struct Instant {
    secs: u64,
    nanos: u32,
}

impl View for Duration {
    type V = nat;

    /// The span in nanoseconds.
    closed spec fn view(&self) -> nat {
        (self.secs * 1_000_000_000 + self.nanos) as nat
    }
}

impl View for Instant {
    type V = nat;

    /// The nanoseconds since the clock's epoch.
    closed spec fn view(&self) -> nat {
        (self.secs * 1_000_000_000 + self.nanos) as nat
    }
}

impl Duration {
    #[verifier::type_invariant]
    spec fn inv(self) -> bool {
        self.wf()
    }

    /// The part below one second is less than one second. Every `Duration`
    /// that this crate hands out is well formed.
    pub closed spec fn wf(&self) -> bool {
        self.nanos < 1_000_000_000
    }

    /// The span of `nanos` nanoseconds.
    pub closed spec fn of(nanos: nat) -> Duration {
        Duration { secs: (nanos / 1_000_000_000) as u64, nanos: (nanos % 1_000_000_000) as u32 }
    }

    /// Every number of nanoseconds up to [`max_nanos`] is the view of one
    /// well-formed span.
    pub broadcast proof fn lemma_of_view(nanos: nat)
        requires
            nanos <= max_nanos(),
        ensures
            (#[trigger] Duration::of(nanos))@ == nanos,
            Duration::of(nanos).wf(),
    {
    }

    /// The whole seconds of the span.
    pub open spec fn spec_as_secs(&self) -> u64 {
        (self@ / 1_000_000_000) as u64
    }

    /// The part of the span below one second, in nanoseconds.
    pub open spec fn spec_subsec_nanos(&self) -> u32 {
        (self@ % 1_000_000_000) as u32
    }

    /// The part of the span below one second, in whole microseconds.
    pub open spec fn spec_subsec_micros(&self) -> u32 {
        (self@ % 1_000_000_000 / 1_000) as u32
    }

    /// The span of `secs` seconds and `nanos` nanoseconds. Nanoseconds that
    /// make up whole seconds are carried over, so the sum has to be a span
    /// that can be told.
    pub fn new(secs: u64, nanos: u32) -> (duration: Duration)
        requires
            secs * 1_000_000_000 + nanos <= max_nanos(),
        ensures
            duration@ == secs * 1_000_000_000 + nanos,
            duration == Duration::of((secs * 1_000_000_000 + nanos) as nat),
            duration.wf(),
    {
        let carry: u32 = nanos / NANOS_PER_SEC;
        Duration { secs: secs + carry as u64, nanos: nanos % NANOS_PER_SEC }
    }

    /// Returns the whole seconds of the span.
    #[verifier::when_used_as_spec(spec_as_secs)]
    pub fn as_secs(&self) -> (secs: u64)
        ensures
            secs == self.spec_as_secs(),
    {
        proof {
            use_type_invariant(self);
        }
        self.secs
    }

    /// Returns the part of the span below one second, in nanoseconds.
    #[verifier::when_used_as_spec(spec_subsec_nanos)]
    pub fn subsec_nanos(&self) -> (nanos: u32)
        ensures
            nanos == self.spec_subsec_nanos(),
    {
        proof {
            use_type_invariant(self);
        }
        self.nanos
    }

    /// Returns the part of the span below one second, in whole microseconds.
    #[verifier::when_used_as_spec(spec_subsec_micros)]
    pub fn subsec_micros(&self) -> (micros: u32)
        ensures
            micros == self.spec_subsec_micros(),
    {
        proof {
            use_type_invariant(self);
        }
        self.nanos / NANOS_PER_MICRO
    }
}

impl Instant {
    #[verifier::type_invariant]
    spec fn inv(self) -> bool {
        self.wf()
    }

    /// The part below one second is less than one second. Every `Instant`
    /// that this crate hands out is well formed.
    pub closed spec fn wf(&self) -> bool {
        self.nanos < 1_000_000_000
    }

    /// The instant `nanos` nanoseconds after the clock's epoch.
    pub closed spec fn at(nanos: nat) -> Instant {
        Instant { secs: (nanos / 1_000_000_000) as u64, nanos: (nanos % 1_000_000_000) as u32 }
    }

    /// Every number of nanoseconds up to [`max_nanos`] is the view of one
    /// well-formed instant.
    pub broadcast proof fn lemma_at_view(nanos: nat)
        requires
            nanos <= max_nanos(),
        ensures
            (#[trigger] Instant::at(nanos))@ == nanos,
            Instant::at(nanos).wf(),
    {
    }

    /// A well-formed instant is determined by its view.
    pub broadcast proof fn lemma_view_at(instant: Instant)
        requires
            instant.wf(),
        ensures
            #[trigger] Instant::at(instant@) == instant,
            instant@ <= max_nanos(),
    {
    }

    /// The instant that `duration` after `self` falls on, and the latest
    /// instant where that lies beyond it.
    pub open spec fn spec_add_duration(self, duration: Duration) -> Instant {
        Instant::at(saturate((self@ + duration@) as int))
    }

    /// The instant that `duration` before `self` falls on, and the clock's
    /// epoch where that lies before it.
    pub open spec fn spec_sub_duration(self, duration: Duration) -> Instant {
        Instant::at(saturate(self@ - duration@))
    }

    /// The span from `earlier` to `self`, and the empty span where `earlier`
    /// is the later one.
    pub open spec fn spec_duration_since(self, earlier: Instant) -> Duration {
        Duration::of(saturate(self@ - earlier@))
    }

    /// The instant `secs` seconds and `nanos` nanoseconds after the clock's
    /// epoch. Nanoseconds that make up whole seconds are carried over.
    pub fn new(secs: u64, nanos: u32) -> (instant: Instant)
        ensures
            instant@ == saturate(secs * 1_000_000_000 + nanos),
            instant == Instant::at(saturate(secs * 1_000_000_000 + nanos)),
    {
        let carry: u32 = nanos / NANOS_PER_SEC;
        match secs.checked_add(carry as u64) {
            Some(secs) => Instant { secs, nanos: nanos % NANOS_PER_SEC },
            None => Instant { secs: u64::MAX, nanos: NANOS_PER_SEC - 1 },
        }
    }

    /// Returns the instant corresponding to "now" on the host's clock: the
    /// instant that a reading of the clock, a number of nanoseconds that fits
    /// 64 bits, tells.
    pub fn now() -> (instant: Instant)
        ensures
            exists|nanos: u64| instant@ == nanos && instant == Instant::at(nanos as nat),
    {
        crate::sys::hosted::now()
    }

    /// Returns the amount of time elapsed since this instant was taken: the
    /// span from this instant to a reading of the clock.
    pub fn elapsed(&self) -> (elapsed: Duration)
        ensures
            exists|now: Instant| now.wf() && elapsed == now.spec_duration_since(*self),
    {
        let now = Instant::now();
        proof {
            use_type_invariant(now);
        }
        now.duration_since(*self)
    }

    /// Returns the amount of time elapsed from `earlier` to this instant,
    /// which is zero where `earlier` is the later one.
    pub fn duration_since(&self, earlier: Instant) -> (elapsed: Duration)
        ensures
            elapsed@ == saturate(self@ - earlier@),
            elapsed == self.spec_duration_since(earlier),
    {
        proof {
            use_type_invariant(self);
            use_type_invariant(earlier);
        }
        if self.secs < earlier.secs || (self.secs == earlier.secs && self.nanos < earlier.nanos) {
            return Duration { secs: 0, nanos: 0 };
        }
        if self.nanos >= earlier.nanos {
            Duration { secs: self.secs - earlier.secs, nanos: self.nanos - earlier.nanos }
        } else {
            Duration {
                secs: self.secs - earlier.secs - 1,
                nanos: self.nanos + NANOS_PER_SEC - earlier.nanos,
            }
        }
    }

    /// Returns the instant `duration` after this one, and the latest instant
    /// where that lies beyond it.
    pub fn add_duration(self, duration: Duration) -> (later: Instant)
        ensures
            later@ == saturate((self@ + duration@) as int),
            later == self.spec_add_duration(duration),
    {
        proof {
            use_type_invariant(self);
            use_type_invariant(duration);
        }
        let mut nanos: u32 = self.nanos + duration.nanos;
        let mut carry: u64 = 0;
        if nanos >= NANOS_PER_SEC {
            nanos = nanos - NANOS_PER_SEC;
            carry = 1;
        }
        let latest = Instant { secs: u64::MAX, nanos: NANOS_PER_SEC - 1 };
        match self.secs.checked_add(duration.secs) {
            Some(secs) => match secs.checked_add(carry) {
                Some(secs) => Instant { secs, nanos },
                None => latest,
            },
            None => latest,
        }
    }

    /// Returns the instant `duration` before this one, and the clock's epoch
    /// where that lies before it.
    pub fn sub_duration(self, duration: Duration) -> (earlier: Instant)
        ensures
            earlier@ == saturate(self@ - duration@),
            earlier == self.spec_sub_duration(duration),
    {
        proof {
            use_type_invariant(self);
            use_type_invariant(duration);
        }
        let epoch = Instant { secs: 0, nanos: 0 };
        if duration.secs > self.secs {
            return epoch;
        }
        let secs: u64 = self.secs - duration.secs;
        if self.nanos >= duration.nanos {
            Instant { secs, nanos: self.nanos - duration.nanos }
        } else if secs == 0 {
            epoch
        } else {
            Instant { secs: secs - 1, nanos: self.nanos + NANOS_PER_SEC - duration.nanos }
        }
    }

    /// Instants are ordered by the time they tell, and two instants that
    /// tell the same time are the same instant: the order is total.
    pub proof fn lemma_order_total(a: Instant, b: Instant)
        requires
            a.wf(),
            b.wf(),
        ensures
            a@ == b@ <==> a == b,
            a@ < b@ || a == b || a@ > b@,
    {
        Instant::lemma_view_at(a);
        Instant::lemma_view_at(b);
    }

    /// Adding a span to an instant and taking it away again gives the
    /// instant back, provided the sum is an instant that can be told.
    pub proof fn lemma_add_then_sub(instant: Instant, duration: Duration)
        requires
            instant.wf(),
            instant@ + duration@ <= max_nanos(),
        ensures
            instant.spec_add_duration(duration).spec_sub_duration(duration) == instant,
    {
        Instant::lemma_at_view(instant@ + duration@);
        Instant::lemma_view_at(instant);
    }

    /// The span from an instant to a later one, added to the earlier one,
    /// gives the later one.
    pub proof fn lemma_since_then_add(later: Instant, earlier: Instant)
        requires
            later.wf(),
            earlier.wf(),
            earlier@ <= later@,
        ensures
            earlier.spec_add_duration(later.spec_duration_since(earlier)) == later,
    {
        Instant::lemma_view_at(later);
        Instant::lemma_view_at(earlier);
        Duration::lemma_of_view((later@ - earlier@) as nat);
    }
}

impl core::ops::Add<Duration> for Instant {
    type Output = Instant;

    /// The instant `other` after this one; see [`Instant::add_duration`].
    fn add(self, other: Duration) -> (later: Instant) {
        self.add_duration(other)
    }
}

impl vstd::std_specs::ops::AddSpecImpl<Duration> for Instant {
    open spec fn obeys_add_spec() -> bool {
        true
    }

    open spec fn add_req(self, other: Duration) -> bool {
        true
    }

    open spec fn add_spec(self, other: Duration) -> Instant {
        self.spec_add_duration(other)
    }
}

impl core::ops::Sub<Duration> for Instant {
    type Output = Instant;

    /// The instant `other` before this one; see [`Instant::sub_duration`].
    fn sub(self, other: Duration) -> (earlier: Instant) {
        self.sub_duration(other)
    }
}

impl vstd::std_specs::ops::SubSpecImpl<Duration> for Instant {
    open spec fn obeys_sub_spec() -> bool {
        true
    }

    open spec fn sub_req(self, other: Duration) -> bool {
        true
    }

    open spec fn sub_spec(self, other: Duration) -> Instant {
        self.spec_sub_duration(other)
    }
}

impl core::ops::Sub<Instant> for Instant {
    type Output = Duration;

    /// The span from `other` to this instant; see
    /// [`Instant::duration_since`].
    fn sub(self, other: Instant) -> (elapsed: Duration) {
        self.duration_since(other)
    }
}

impl vstd::std_specs::ops::SubSpecImpl<Instant> for Instant {
    open spec fn obeys_sub_spec() -> bool {
        true
    }

    open spec fn sub_req(self, other: Instant) -> bool {
        true
    }

    open spec fn sub_spec(self, other: Instant) -> Duration {
        self.spec_duration_since(other)
    }
}

impl From<(i32, u32)> for Instant {
    /// The instant at `seconds` seconds and `nanoseconds` nanoseconds after
    /// the clock's epoch. A time before the epoch counts as the epoch itself.
    fn from(parts: (i32, u32)) -> (instant: Instant) {
        let (seconds, nanoseconds) = parts;
        let total: i64 = seconds as i64 * 1_000_000_000 + nanoseconds as i64;
        if total <= 0 {
            Instant::new(0, 0)
        } else {
            Instant::new((total / 1_000_000_000) as u64, (total % 1_000_000_000) as u32)
        }
    }
}

impl vstd::std_specs::convert::FromSpecImpl<(i32, u32)> for Instant {
    open spec fn obeys_from_spec() -> bool {
        true
    }

    open spec fn from_spec(parts: (i32, u32)) -> Instant {
        Instant::at(saturate(parts.0 * 1_000_000_000 + parts.1))
    }
}

impl PartialOrd for Instant {
    /// Orders instants by the time they tell.
    fn partial_cmp(&self, other: &Instant) -> (order: Option<Ordering>) {
        proof {
            use_type_invariant(self);
            use_type_invariant(other);
        }
        if self.secs < other.secs {
            Some(Ordering::Less)
        } else if self.secs > other.secs {
            Some(Ordering::Greater)
        } else if self.nanos < other.nanos {
            Some(Ordering::Less)
        } else if self.nanos > other.nanos {
            Some(Ordering::Greater)
        } else {
            Some(Ordering::Equal)
        }
    }
}

impl vstd::std_specs::cmp::PartialOrdSpecImpl for Instant {
    open spec fn obeys_partial_cmp_spec() -> bool {
        true
    }

    /// Instants are ordered by their views; the order is total.
    open spec fn partial_cmp_spec(&self, other: &Instant) -> Option<Ordering> {
        if self@ < other@ {
            Some(Ordering::Less)
        } else if self@ > other@ {
            Some(Ordering::Greater)
        } else {
            Some(Ordering::Equal)
        }
    }
}

} // verus!
