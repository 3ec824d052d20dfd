//! Points in time as nanosecond counts, and the arithmetic between them and `Duration`s.
//!
//! Reading the clocks is left to the embedding kernel; here an `Instant` or a `SystemTime`
//! is made from the nanosecond count that its clock reported.
use vstd::prelude::*;

pub use core::time::Duration;

verus! {

/// The total number of nanoseconds in a `Duration`, as `Duration::as_nanos` returns it.
pub uninterp spec fn duration_nanos(d: Duration) -> nat;

/// `Duration::as_nanos`: the total number of whole nanoseconds the duration holds.
#[verifier::external_body]
fn as_nanos(d: &Duration) -> (r: u128)
    ensures
        r == duration_nanos(*d),
{
    d.as_nanos()
}

/// `Duration::from_nanos`: the duration of exactly `n` nanoseconds. A `Duration` is its
/// count of whole seconds and the nanoseconds below one second, so it is the only duration
/// of that many nanoseconds.
#[verifier::external_body]
fn from_nanos(n: u64) -> (d: Duration)
    ensures
        duration_nanos(d) == n,
        forall|x: Duration| #[trigger] duration_nanos(x) == n ==> x == d,
{
    Duration::from_nanos(n)
}

/// No other duration has as many nanoseconds as `d`.
pub open spec fn only_one_of_its_length(d: Duration) -> bool {
    forall|x: Duration| #[trigger] duration_nanos(x) == duration_nanos(d) ==> x == d
}

/// The step that adding or subtracting `d` makes: all of its nanoseconds.
pub open spec fn step(d: Duration) -> nat {
    duration_nanos(d)
}

/// `ns` moved forward by `step` nanoseconds, or `None` past the last representable point.
pub open spec fn nanos_after(ns: u64, step: nat) -> Option<u64> {
    if ns + step <= u64::MAX {
        Some((ns + step) as u64)
    } else {
        None
    }
}

/// `ns` moved back by `step` nanoseconds, or `None` before the first representable point.
pub open spec fn nanos_before(ns: u64, step: nat) -> Option<u64> {
    if step <= ns {
        Some((ns - step) as u64)
    } else {
        None
    }
}

/// The nanoseconds from `earlier` to `later`, or zero when `earlier` is the later one.
pub open spec fn nanos_between(later: u64, earlier: u64) -> nat {
    if earlier <= later {
        (later - earlier) as nat
    } else {
        0
    }
}

/// The gap from `earlier` to `later`: `Ok` with its length when `earlier` is not the later
/// one, else `Err` with the length of the gap the other way.
pub open spec fn gap(later: u64, earlier: u64) -> core::result::Result<nat, nat> {
    if earlier <= later {
        Ok((later - earlier) as nat)
    } else {
        Err((earlier - later) as nat)
    }
}

/// A reading of a monotonic clock, as nanoseconds since an unspecified start.
#[derive(Clone, Copy, Debug, PartialEq, Eq, PartialOrd, Ord, Hash, Structural)]
pub struct Instant {
    ns: u64,
}

impl View for Instant {
    type V = u64;

    closed spec fn view(&self) -> u64 {
        self.ns
    }
}

/// The nanosecond counts inside an optional `Instant`.
pub open spec fn instant_nanos(t: Option<Instant>) -> Option<u64> {
    match t {
        Some(i) => Some(i@),
        None => None,
    }
}

impl Instant {
    /// The instant `ns` nanoseconds after the clock's start, as a spec value.
    pub closed spec fn spec_at(ns: u64) -> Instant {
        Instant { ns }
    }

    /// The instant `ns` nanoseconds after the clock's start.
    pub fn from_raw_nanos(ns: u64) -> (t: Self)
        ensures
            t@ == ns,
    {
        Instant { ns }
    }

    /// The time from `earlier` to `self`, or zero when `earlier` is later.
    pub fn duration_since(&self, earlier: Self) -> (d: Duration)
        ensures
            duration_nanos(d) == nanos_between(self@, earlier@),
            only_one_of_its_length(d),
    {
        from_nanos(self.ns.saturating_sub(earlier.ns))
    }

    /// The time from `earlier` to `self`, or `None` when `earlier` is later.
    pub fn checked_duration_since(&self, earlier: Self) -> (d: Option<Duration>)
        ensures
            d is Some <==> earlier@ <= self@,
            d matches Some(x) ==> duration_nanos(x) == self@ - earlier@ && only_one_of_its_length(x),
    {
        match self.ns.checked_sub(earlier.ns) {
            Some(n) => Some(from_nanos(n)),
            None => None,
        }
    }

    /// The same as `duration_since`.
    pub fn saturating_duration_since(&self, earlier: Self) -> (d: Duration)
        ensures
            duration_nanos(d) == nanos_between(self@, earlier@),
            only_one_of_its_length(d),
    {
        self.duration_since(earlier)
    }

    /// The instant `duration` later, or `None` when that is past the last representable one.
    pub fn checked_add(&self, duration: Duration) -> (t: Option<Self>)
        ensures
            instant_nanos(t) == nanos_after(self@, step(duration)),
    {
        let n = as_nanos(&duration);
        if n <= (u64::MAX - self.ns) as u128 {
            Some(Instant { ns: self.ns + n as u64 })
        } else {
            None
        }
    }

    /// The instant `duration` earlier, or `None` when that is before the clock's start.
    pub fn checked_sub(&self, duration: Duration) -> (t: Option<Self>)
        ensures
            instant_nanos(t) == nanos_before(self@, step(duration)),
    {
        let n = as_nanos(&duration);
        if n <= self.ns as u128 {
            Some(Instant { ns: self.ns - n as u64 })
        } else {
            None
        }
    }
}

/// Two instants with the same nanosecond count are the same instant.
pub proof fn lemma_instant_view_eq(a: Instant, b: Instant)
    requires
        a@ == b@,
    ensures
        a == b,
{
}

/// The instant made from a count has that count.
pub broadcast proof fn lemma_instant_at(ns: u64)
    ensures
        #[trigger] Instant::spec_at(ns)@ == ns,
{
}

impl core::ops::Add<Duration> for Instant {
    type Output = Self;

    /// The point `rhs` later; the sum must stay representable.
    fn add(self, rhs: Duration) -> (t: Self)
        ensures
            t@ == self@ + step(rhs),
    {
        let n = as_nanos(&rhs) as u64;
        Instant { ns: self.ns + n }
    }
}

impl vstd::std_specs::ops::AddSpecImpl<Duration> for Instant {
    open spec fn obeys_add_spec() -> bool {
        true
    }

    open spec fn add_req(self, rhs: Duration) -> bool {
        self@ + step(rhs) <= u64::MAX
    }

    open spec fn add_spec(self, rhs: Duration) -> Instant {
        Instant::spec_at((self@ + step(rhs)) as u64)
    }
}

impl core::ops::Sub<Duration> for Instant {
    type Output = Self;

    /// The point `rhs` earlier; the difference must not fall before zero.
    fn sub(self, rhs: Duration) -> (t: Self)
        ensures
            t@ == self@ - step(rhs),
    {
        let n = as_nanos(&rhs) as u64;
        Instant { ns: self.ns - n }
    }
}

impl vstd::std_specs::ops::SubSpecImpl<Duration> for Instant {
    open spec fn obeys_sub_spec() -> bool {
        true
    }

    open spec fn sub_req(self, rhs: Duration) -> bool {
        step(rhs) <= self@
    }

    open spec fn sub_spec(self, rhs: Duration) -> Instant {
        Instant::spec_at((self@ - step(rhs)) as u64)
    }
}

impl core::ops::AddAssign<Duration> for Instant {
    /// Moves the point `rhs` later; the sum must stay representable.
    fn add_assign(&mut self, rhs: Duration)
        requires
            old(self)@ + step(rhs) <= u64::MAX,
        ensures
            final(self)@ == old(self)@ + step(rhs),
    {
        *self = *self + rhs;
    }
}

impl core::ops::SubAssign<Duration> for Instant {
    /// Moves the point `rhs` earlier; the difference must not fall before zero.
    fn sub_assign(&mut self, rhs: Duration)
        requires
            step(rhs) <= old(self)@,
        ensures
            final(self)@ == old(self)@ - step(rhs),
    {
        *self = *self - rhs;
    }
}

impl core::ops::Sub<Instant> for Instant {
    type Output = Duration;

    /// The same as `duration_since`.
    fn sub(self, rhs: Instant) -> (d: Duration)
        ensures
            duration_nanos(d) == nanos_between(self@, rhs@),
            only_one_of_its_length(d),
    {
        self.duration_since(rhs)
    }
}

impl vstd::std_specs::ops::SubSpecImpl<Instant> for Instant {
    open spec fn obeys_sub_spec() -> bool {
        false
    }

    open spec fn sub_req(self, rhs: Instant) -> bool {
        true
    }

    open spec fn sub_spec(self, rhs: Instant) -> Duration {
        vstd::pervasive::arbitrary()
    }
}

/// A reading of the wall clock, as nanoseconds since the Unix epoch.
///
/// The count is public so that the epoch can be written as a constant: `SystemTime { ns: 0 }`.
#[derive(Clone, Copy, Debug, PartialEq, Eq, PartialOrd, Ord, Hash, Structural)]
pub struct SystemTime {
    pub ns: u64,
}

impl View for SystemTime {
    type V = u64;

    open spec fn view(&self) -> u64 {
        self.ns
    }
}

/// The nanosecond counts inside an optional `SystemTime`.
pub open spec fn system_time_nanos(t: Option<SystemTime>) -> Option<u64> {
    match t {
        Some(s) => Some(s@),
        None => None,
    }
}

/// The error of `SystemTime::duration_since` when the other time is the later one; it
/// holds how much later.
#[derive(Clone, Copy, Debug)]
pub struct SystemTimeError(Duration);

impl SystemTimeError {
    /// How much later the other time was.
    pub closed spec fn spec_duration(&self) -> Duration {
        self.0
    }

    /// How much later the other time was.
    pub fn duration(&self) -> (d: Duration)
        ensures
            d == self.spec_duration(),
    {
        self.0
    }

    /// The message the error displays.
    pub fn to_string(&self) -> (s: String)
        ensures
            s@ == "second time provided was later than self"@,
    {
        String::from_str("second time provided was later than self")
    }
}

impl SystemTime {
    /// The time from `earlier` to `self`; when `earlier` is the later one, an error that
    /// holds the time from `self` to `earlier`.
    pub fn duration_since(&self, earlier: Self) -> (r: core::result::Result<Duration, SystemTimeError>)
        ensures
            match r {
                Ok(d) => gap(self@, earlier@) == Ok::<nat, nat>(duration_nanos(d))
                    && only_one_of_its_length(d),
                Err(e) => gap(self@, earlier@) == Err::<nat, nat>(duration_nanos(e.spec_duration()))
                    && only_one_of_its_length(e.spec_duration()),
            },
    {
        match self.ns.checked_sub(earlier.ns) {
            Some(n) => Ok(from_nanos(n)),
            None => Err(SystemTimeError(from_nanos(earlier.ns.saturating_sub(self.ns)))),
        }
    }

    /// The time `duration` later, or `None` when that is past the last representable one.
    pub fn checked_add(&self, duration: Duration) -> (t: Option<Self>)
        ensures
            system_time_nanos(t) == nanos_after(self@, step(duration)),
    {
        let n = as_nanos(&duration);
        if n <= (u64::MAX - self.ns) as u128 {
            Some(SystemTime { ns: self.ns + n as u64 })
        } else {
            None
        }
    }

    /// The time `duration` earlier, or `None` when that is before the epoch.
    pub fn checked_sub(&self, duration: Duration) -> (t: Option<Self>)
        ensures
            system_time_nanos(t) == nanos_before(self@, step(duration)),
    {
        let n = as_nanos(&duration);
        if n <= self.ns as u128 {
            Some(SystemTime { ns: self.ns - n as u64 })
        } else {
            None
        }
    }

    /// The time at `ns` nanoseconds after the epoch, as a spec value.
    pub open spec fn spec_at(ns: u64) -> SystemTime {
        SystemTime { ns }
    }
}

impl core::ops::Add<Duration> for SystemTime {
    type Output = Self;

    /// The point `rhs` later; the sum must stay representable.
    fn add(self, rhs: Duration) -> (t: Self)
        ensures
            t@ == self@ + step(rhs),
    {
        let n = as_nanos(&rhs) as u64;
        SystemTime { ns: self.ns + n }
    }
}

impl vstd::std_specs::ops::AddSpecImpl<Duration> for SystemTime {
    open spec fn obeys_add_spec() -> bool {
        true
    }

    open spec fn add_req(self, rhs: Duration) -> bool {
        self@ + step(rhs) <= u64::MAX
    }

    open spec fn add_spec(self, rhs: Duration) -> SystemTime {
        SystemTime::spec_at((self@ + step(rhs)) as u64)
    }
}

impl core::ops::Sub<Duration> for SystemTime {
    type Output = Self;

    /// The point `rhs` earlier; the difference must not fall before zero.
    fn sub(self, rhs: Duration) -> (t: Self)
        ensures
            t@ == self@ - step(rhs),
    {
        let n = as_nanos(&rhs) as u64;
        SystemTime { ns: self.ns - n }
    }
}

impl vstd::std_specs::ops::SubSpecImpl<Duration> for SystemTime {
    open spec fn obeys_sub_spec() -> bool {
        true
    }

    open spec fn sub_req(self, rhs: Duration) -> bool {
        step(rhs) <= self@
    }

    open spec fn sub_spec(self, rhs: Duration) -> SystemTime {
        SystemTime::spec_at((self@ - step(rhs)) as u64)
    }
}

/// Moving forward by a step and then back by the same step returns to the start, whenever
/// the forward move stays representable.
pub proof fn law_after_then_before(ns: u64, s: nat)
    requires
        ns + s <= u64::MAX,
    ensures
        nanos_after(ns, s) matches Some(m) && nanos_before(m, s) == Some(ns),
{
}

/// Moving back by a step and then forward by the same step returns to the start, whenever
/// the backward move stays at or after zero.
pub proof fn law_before_then_after(ns: u64, s: nat)
    requires
        s <= ns,
    ensures
        nanos_before(ns, s) matches Some(m) && nanos_after(m, s) == Some(ns),
{
}

/// The time from a point to the point one step later is that step.
pub proof fn law_between_after(ns: u64, s: nat)
    requires
        ns + s <= u64::MAX,
    ensures
        nanos_after(ns, s) matches Some(m) && nanos_between(m, ns) == s,
{
}

/// The time from a point to a point that is not earlier is zero; in particular the time
/// from a point to itself is zero.
pub proof fn law_between_saturates(later: u64, earlier: u64)
    requires
        later <= earlier,
    ensures
        nanos_between(later, earlier) == 0,
{
}

/// A move succeeds exactly when it stays in range: forward when the sum fits in 64 bits,
/// backward when the step is at most the count.
pub proof fn law_moves_in_range(ns: u64, s: nat)
    ensures
        nanos_after(ns, s) is Some <==> ns + s <= u64::MAX,
        nanos_before(ns, s) is Some <==> s <= ns,
{
}

/// Swapping the two times of a failed `duration_since` gives a success, with the duration
/// that the error held; the gap between a time and itself is zero.
pub proof fn law_gap_swap(a: u64, b: u64)
    ensures
        gap(a, b) matches Err(x) ==> gap(b, a) == Ok::<nat, nat>(x),
        gap(a, b) matches Ok(x) ==> (x == 0 || gap(b, a) == Err::<nat, nat>(x)),
        gap(a, a) == Ok::<nat, nat>(0),
{
}

/// The time from `earlier` to `later`, taken on the whole 64-bit counts: when `earlier` is
/// not the later one it is exactly `later - earlier` nanoseconds, otherwise the gap holds
/// exactly `earlier - later` nanoseconds the other way, and `duration_since` saturates to 0.
pub proof fn law_gap_is_the_difference(later: u64, earlier: u64)
    ensures
        earlier <= later ==> gap(later, earlier) == Ok::<nat, nat>((later - earlier) as nat),
        later < earlier ==> gap(later, earlier) == Err::<nat, nat>((earlier - later) as nat),
        earlier <= later ==> nanos_between(later, earlier) == later - earlier,
        later < earlier ==> nanos_between(later, earlier) == 0,
{
}

/// A move forward or back by a step lands exactly that many nanoseconds away, counted on the
/// whole 64-bit count and the whole step.
pub proof fn law_moves_land_exactly(ns: u64, s: nat)
    ensures
        ns + s <= u64::MAX ==> nanos_after(ns, s) == Some((ns + s) as u64),
        ns + s > u64::MAX ==> nanos_after(ns, s) is None,
        s <= ns ==> nanos_before(ns, s) == Some((ns - s) as u64),
        s > ns ==> nanos_before(ns, s) is None,
{
}

/// The step of a duration is all of its nanoseconds.
pub proof fn law_step_is_the_whole_duration(d: Duration)
    ensures
        step(d) == duration_nanos(d),
{
}

/// The counts inside optional readings are the readings' own counts.
pub proof fn law_optional_counts(t: Option<Instant>, u: Option<SystemTime>)
    ensures
        t matches Some(i) ==> instant_nanos(t) == Some(i@),
        t is None ==> instant_nanos(t) is None,
        u matches Some(w) ==> system_time_nanos(u) == Some(w.ns),
        u is None ==> system_time_nanos(u) is None,
{
}

} // verus!
