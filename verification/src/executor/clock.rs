//! Monotonic time as plain nanoseconds, and deterministic backoff jitter.
//!
//! Restart and logger backoff use the same bounded arithmetic and deterministic
//! per-generation and per-broker seed mixing.

use vstd::prelude::*;

use crate::process::ProcessId;
use crate::supervisor::Generation;

verus! {

/// Nanoseconds in one second.
pub const NANOS_PER_SECOND: u128 = 1_000_000_000;

/// Last second which a monotonic clock can represent.
pub const CLOCK_LIMIT_SECONDS: u128 = 9_223_372_036_854_775_807;

/// One reading of the monotonic clock, or a deadline on it.
#[derive(Clone, Copy, Debug, PartialEq, Eq, Structural)]
pub struct Moment {
    /// Nanoseconds since the clock's origin.
    pub nanoseconds: u128,
}

impl Moment {
    /// The moment a number of seconds later. A sum beyond every clock stays at
    /// the end of time and never falls due.
    pub open spec fn after(self, seconds: u64) -> Moment {
        let sum = self.nanoseconds + seconds * NANOS_PER_SECOND;
        Moment {
            nanoseconds: if sum > u128::MAX {
                u128::MAX
            } else {
                sum as u128
            },
        }
    }

    /// Whole seconds from `earlier` to this moment, zero when it lies behind.
    pub open spec fn since(self, earlier: Moment) -> u64 {
        if self.nanoseconds <= earlier.nanoseconds {
            0
        } else {
            let seconds = (self.nanoseconds - earlier.nanoseconds) / (NANOS_PER_SECOND as int);
            if seconds > u64::MAX {
                u64::MAX
            } else {
                seconds as u64
            }
        }
    }

    /// Whether this deadline has come at `now`.
    pub open spec fn due(self, now: Moment) -> bool {
        self.nanoseconds <= now.nanoseconds
    }

    /// Whether a monotonic clock can represent the moment `seconds` later.
    pub open spec fn representable_after(self, seconds: u64) -> bool {
        self.nanoseconds + seconds * NANOS_PER_SECOND < (CLOCK_LIMIT_SECONDS + 1)
            * NANOS_PER_SECOND
    }

    /// The moment a number of seconds later.
    #[must_use]
    pub fn plus_seconds(self, seconds: u64) -> (later: Moment)
        ensures
            later == self.after(seconds),
    {
        let span: u128 = (seconds as u128) * NANOS_PER_SECOND;
        Moment { nanoseconds: self.nanoseconds.saturating_add(span) }
    }

    /// The moment a number of seconds later, if a monotonic clock can represent
    /// it.
    #[must_use]
    pub fn checked_plus_seconds(self, seconds: u64) -> (later: Option<Moment>)
        ensures
            later == (if self.representable_after(seconds) {
                Some(self.after(seconds))
            } else {
                None
            }),
    {
        let span: u128 = (seconds as u128) * NANOS_PER_SECOND;
        let limit: u128 = (CLOCK_LIMIT_SECONDS + 1) * NANOS_PER_SECOND;
        if self.nanoseconds < limit && span < limit - self.nanoseconds {
            Some(Moment { nanoseconds: self.nanoseconds + span })
        } else {
            None
        }
    }

    /// Whole seconds from `earlier` to this moment.
    #[must_use]
    pub fn seconds_since(self, earlier: Moment) -> (seconds: u64)
        ensures
            seconds == self.since(earlier),
    {
        if self.nanoseconds <= earlier.nanoseconds {
            return 0;
        }
        let seconds: u128 = (self.nanoseconds - earlier.nanoseconds) / NANOS_PER_SECOND;
        if seconds > u64::MAX as u128 {
            u64::MAX
        } else {
            seconds as u64
        }
    }

    /// Whether this deadline has come at `now`.
    #[must_use]
    pub fn is_due(self, now: Moment) -> (due: bool)
        ensures
            due == self.due(now),
    {
        self.nanoseconds <= now.nanoseconds
    }
}

/// Smaller of a number and the largest `u64`.
pub open spec fn clamp_u64(value: int) -> u64 {
    if value > u64::MAX {
        u64::MAX
    } else {
        value as u64
    }
}

/// Permitted distance from the base delay.
pub open spec fn jitter_spread(base_seconds: u64, jitter_percent: u8) -> u64 {
    (clamp_u64(base_seconds * jitter_percent) / 100) as u64
}

/// Mixed seed: three xor-shift rounds around two odd multipliers.
pub open spec fn mixed(seed: u64) -> u64 {
    let first = seed ^ (seed >> 30);
    let second = ((first * 0xbf58_476d_1ce4_e5b9u64) % 0x1_0000_0000_0000_0000) as u64;
    let third = second ^ (second >> 27);
    let fourth = ((third * 0x94d0_49bb_1331_11ebu64) % 0x1_0000_0000_0000_0000) as u64;
    fourth ^ (fourth >> 31)
}

/// Jittered delay: deterministic in the seed and the broker.
pub open spec fn jittered(
    base_seconds: u64,
    jitter_percent: u8,
    seed: u64,
    broker: ProcessId,
) -> u64 {
    let spread = jitter_spread(base_seconds, jitter_percent);
    if spread == 0 {
        base_seconds
    } else {
        let width = clamp_u64(clamp_u64(spread * 2) + 1);
        let offset = mixed(seed ^ (broker.number() as u64)) % width;
        let low = if base_seconds < spread {
            0
        } else {
            (base_seconds - spread) as u64
        };
        clamp_u64(low + offset)
    }
}

/// Delay for one generation.
#[must_use]
pub fn jittered_backoff(
    base_seconds: u64,
    jitter_percent: u8,
    generation: Generation,
    broker: ProcessId,
) -> (delay: u64)
    ensures
        delay == jittered(base_seconds, jitter_percent, generation.number(), broker),
{
    jittered_backoff_seed(base_seconds, jitter_percent, generation.get(), broker)
}

fn saturating_product(left: u64, right: u64) -> (product: u64)
    ensures
        product == clamp_u64(left * right),
{
    assert(left * right <= u64::MAX * u64::MAX) by (nonlinear_arith)
        requires
            left <= u64::MAX,
            right <= u64::MAX,
    ;
    let product: u128 = (left as u128) * (right as u128);
    if product > u64::MAX as u128 {
        u64::MAX
    } else {
        product as u64
    }
}

fn wrapping_product(left: u64, right: u64) -> (product: u64)
    ensures
        product == ((left * right) % 0x1_0000_0000_0000_0000) as u64,
{
    assert(left * right <= u64::MAX * u64::MAX) by (nonlinear_arith)
        requires
            left <= u64::MAX,
            right <= u64::MAX,
    ;
    let product: u128 = (left as u128) * (right as u128);
    (product % 0x1_0000_0000_0000_0000) as u64
}

/// Delay for one seed.
#[must_use]
pub fn jittered_backoff_seed(
    base_seconds: u64,
    jitter_percent: u8,
    seed: u64,
    broker: ProcessId,
) -> (delay: u64)
    ensures
        delay == jittered(base_seconds, jitter_percent, seed, broker),
{
    let spread: u64 = saturating_product(base_seconds, jitter_percent as u64) / 100;
    if spread == 0 {
        return base_seconds;
    }
    let width: u64 = saturating_product(spread, 2).saturating_add(1);
    let mut state: u64 = seed ^ (broker.get() as u64);
    state = state ^ (state >> 30);
    state = wrapping_product(state, 0xbf58_476d_1ce4_e5b9);
    state = state ^ (state >> 27);
    state = wrapping_product(state, 0x94d0_49bb_1331_11eb);
    state = state ^ (state >> 31);
    let offset: u64 = state % width;
    base_seconds.saturating_sub(spread).saturating_add(offset)
}

/// Jitter moves a delay by at most the permitted percentage in either direction.
pub proof fn jitter_stays_within_its_spread(
    base_seconds: u64,
    jitter_percent: u8,
    seed: u64,
    broker: ProcessId,
)
    requires
        jitter_percent <= 100,
    ensures
        ({
            let spread = jitter_spread(base_seconds, jitter_percent);
            let delay = jittered(base_seconds, jitter_percent, seed, broker);
            base_seconds - spread <= delay <= base_seconds + spread
        }),
        jitter_percent == 0 ==> jittered(base_seconds, jitter_percent, seed, broker)
            == base_seconds,
{
    assert(base_seconds * jitter_percent <= base_seconds * 100) by (nonlinear_arith)
        requires
            jitter_percent <= 100,
    ;
    assert(jitter_percent == 0 ==> base_seconds * jitter_percent == 0) by (nonlinear_arith);
    let spread = jitter_spread(base_seconds, jitter_percent);
    if spread > 0 {
        let width = clamp_u64(clamp_u64(spread * 2) + 1);
        let state = mixed(seed ^ (broker.number() as u64));
        assert(state % width < width);
    }
}

/// A deadline lies exactly its seconds behind the moment it was set, or at the end
/// of time; it is due from then on and never earlier.
pub proof fn deadlines_lie_their_seconds_ahead(moment: Moment, seconds: u64, now: Moment)
    ensures
        moment.nanoseconds + seconds * 1_000_000_000 <= u128::MAX ==> moment.after(
            seconds,
        ).nanoseconds == moment.nanoseconds + seconds * 1_000_000_000,
        moment.nanoseconds + seconds * 1_000_000_000 > u128::MAX ==> moment.after(
            seconds,
        ).nanoseconds == u128::MAX,
        moment.after(seconds).due(now) <==> now.nanoseconds >= moment.after(seconds).nanoseconds,
        moment.nanoseconds <= moment.after(seconds).nanoseconds,
{
}

/// Elapsed seconds are whole seconds, counted from the earlier moment: a moment
/// `seconds` later is exactly that far away.
pub proof fn elapsed_seconds_are_whole(moment: Moment, seconds: u64, later: Moment)
    requires
        moment.nanoseconds + seconds * 1_000_000_000 <= later.nanoseconds,
        later.nanoseconds < moment.nanoseconds + (seconds + 1) * 1_000_000_000,
    ensures
        later.since(moment) == seconds,
        seconds > 0 ==> moment.since(later) == 0,
{
    let span = later.nanoseconds - moment.nanoseconds;
    assert(span / 1_000_000_000 == seconds) by (nonlinear_arith)
        requires
            seconds * 1_000_000_000 <= span < (seconds + 1) * 1_000_000_000,
    ;
    if seconds == 0 && later.nanoseconds > moment.nanoseconds {
        assert(span / (NANOS_PER_SECOND as int) == 0);
    }
}

/// A jittered delay differs from the configured one by no more than the configured
/// percentage of it.
pub proof fn jitter_keeps_its_percentage(
    base_seconds: u64,
    jitter_percent: u8,
    seed: u64,
    broker: ProcessId,
)
    requires
        jitter_percent <= 100,
    ensures
        (jittered(base_seconds, jitter_percent, seed, broker) - base_seconds) * 100 <= base_seconds
            * jitter_percent,
        (base_seconds - jittered(base_seconds, jitter_percent, seed, broker)) * 100 <= base_seconds
            * jitter_percent,
{
    jitter_stays_within_its_spread(base_seconds, jitter_percent, seed, broker);
    assert(base_seconds * jitter_percent <= base_seconds * 100) by (nonlinear_arith)
        requires
            jitter_percent <= 100,
    ;
    assert(base_seconds * jitter_percent >= 0) by (nonlinear_arith);
}

} // verus!
