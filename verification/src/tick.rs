use vstd::prelude::*;

use crate::error::FatalError;

verus! {

/// Game time advances at 60 discrete ticks per second of wall-clock time.
pub const TICKS_PER_SECOND: u64 = 60;

pub const MILLIS_PER_SECOND: u64 = 1000;

/// The game tick reached after `elapsed_ms` milliseconds:
/// `floor(elapsed_ms * 60 / 1000)`. Every replica must compute this
/// identically from the same deterministic inputs, so it is defined as an
/// integer formulation with an explicit floor and no floating point.
pub open spec fn tick_of(elapsed_ms: int) -> int {
    (elapsed_ms * TICKS_PER_SECOND) / (MILLIS_PER_SECOND as int)
}

/// Converts elapsed wall-clock milliseconds to the game tick they fall in.
///
/// Computed as whole seconds times the tick rate plus the floored
/// contribution of the leftover milliseconds, which equals the single
/// floored division and cannot overflow.
pub fn ms_to_tick(elapsed_ms: u64) -> (t: u64)
    ensures
        t == tick_of(elapsed_ms as int),
{
    let seconds: u64 = elapsed_ms / MILLIS_PER_SECOND;
    let rem: u64 = elapsed_ms % MILLIS_PER_SECOND;
    proof {
        vstd::arithmetic::div_mod::lemma_fundamental_div_mod(
            elapsed_ms as int,
            MILLIS_PER_SECOND as int,
        );
        vstd::arithmetic::div_mod::lemma_div_is_ordered(
            elapsed_ms as int,
            u64::MAX as int,
            MILLIS_PER_SECOND as int,
        );
        assert((u64::MAX as int) / (MILLIS_PER_SECOND as int) == 18446744073709551int);
    }
    let whole: u64 = seconds * TICKS_PER_SECOND;
    let frac: u64 = (rem * TICKS_PER_SECOND) / MILLIS_PER_SECOND;
    proof {
        vstd::arithmetic::div_mod::lemma_hoist_over_denominator(
            (rem * TICKS_PER_SECOND) as int,
            (seconds * TICKS_PER_SECOND) as int,
            MILLIS_PER_SECOND as nat,
        );
    }
    whole + frac
}

/// A tick never outruns the milliseconds it was derived from, since fewer
/// than 1000 ticks pass per 1000 milliseconds.
pub proof fn lemma_tick_within_elapsed(elapsed_ms: int)
    requires
        0 <= elapsed_ms,
    ensures
        0 <= tick_of(elapsed_ms) <= elapsed_ms,
{
    vstd::arithmetic::div_mod::lemma_div_is_ordered(
        elapsed_ms * TICKS_PER_SECOND,
        elapsed_ms * (MILLIS_PER_SECOND as int),
        MILLIS_PER_SECOND as int,
    );
    vstd::arithmetic::div_mod::lemma_div_multiples_vanish(
        elapsed_ms,
        MILLIS_PER_SECOND as int,
    );
    vstd::arithmetic::div_mod::lemma_div_pos_is_pos(
        elapsed_ms * TICKS_PER_SECOND,
        MILLIS_PER_SECOND as int,
    );
}

/// Game time never runs backwards: a later wall-clock reading never gives
/// an earlier tick. With monotonic clocks this makes every stored baseline
/// tick at most the current tick, the invariant the movement model rests
/// on.
pub proof fn lemma_tick_monotonic(a: int, b: int)
    requires
        a <= b,
    ensures
        tick_of(a) <= tick_of(b),
{
    vstd::arithmetic::mul::lemma_mul_inequality(a, b, TICKS_PER_SECOND as int);
    vstd::arithmetic::div_mod::lemma_div_is_ordered(
        a * TICKS_PER_SECOND,
        b * TICKS_PER_SECOND,
        MILLIS_PER_SECOND as int,
    );
}

/// The current game tick of a contract initialized at `start_time_ms`,
/// given the deterministic wall-clock reading `now_ms` of the execution.
/// A reading earlier than the stored start time can only mean corrupted
/// deterministic state and is reported as a typed fatal error.
pub fn game_tick(now_ms: u64, start_time_ms: u64) -> (r: Result<u64, FatalError>)
    ensures
        r is Ok <==> start_time_ms <= now_ms,
        r matches Ok(t) ==> t == tick_of(now_ms - start_time_ms),
        r matches Err(e) ==> e == FatalError::TimeBeforeStart,
{
    if now_ms < start_time_ms {
        Err(FatalError::TimeBeforeStart)
    } else {
        Ok(ms_to_tick(now_ms - start_time_ms))
    }
}

/// `game_tick` narrowed to the signed storage width that baselines use.
/// The elapsed-time bound is a machine limit only; the tick itself is
/// always at most the elapsed milliseconds.
pub fn game_tick_i64(now_ms: u64, start_time_ms: u64) -> (r: Result<i64, FatalError>)
    requires
        start_time_ms <= now_ms ==> now_ms - start_time_ms <= i64::MAX,
    ensures
        r is Ok <==> start_time_ms <= now_ms,
        r matches Ok(t) ==> t == tick_of(now_ms - start_time_ms) && 0 <= t,
        r matches Err(e) ==> e == FatalError::TimeBeforeStart,
{
    match game_tick(now_ms, start_time_ms) {
        Err(e) => Err(e),
        Ok(t) => {
            proof {
                lemma_tick_within_elapsed(now_ms - start_time_ms);
            }
            Ok(t as i64)
        },
    }
}

} // verus!
