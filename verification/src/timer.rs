//! The publish timer: samples are written at a fixed cadence, measured on
//! the wall clock and independent of how often the loop turns.

use vstd::prelude::*;

verus! {

/// The time that must have passed since the last write before the next one,
/// in nanoseconds.
pub const PUBLISH_INTERVAL_NANOS: u64 = 200_000_000;

/// Whether a write is due at time `now` when the last one was at
/// `last_write`: strictly more than the publish interval has passed.
pub open spec fn publish_due(last_write: int, now: int) -> bool {
    last_write + PUBLISH_INTERVAL_NANOS < now
}

/// Decides whether a write is due. Times are nanoseconds on one monotonic
/// clock.
pub fn is_due(last_write: u64, now: u64) -> (due: bool)
    ensures
        due == publish_due(last_write as int, now as int),
{
    now > last_write && now - last_write > PUBLISH_INTERVAL_NANOS
}

/// The time of the last write after the clock was read at each of `clocks` in
/// turn, one reading per turn of the loop, when the last write before them
/// was at `start`.
pub open spec fn last_write_after(start: int, clocks: Seq<int>) -> int
    decreases clocks.len(),
{
    if clocks.len() == 0 {
        start
    } else {
        let before = last_write_after(start, clocks.drop_last());
        if publish_due(before, clocks.last()) {
            clocks.last()
        } else {
            before
        }
    }
}

/// How many writes fall due over the clock readings `clocks`.
pub open spec fn writes_during(start: int, clocks: Seq<int>) -> nat
    decreases clocks.len(),
{
    if clocks.len() == 0 {
        0
    } else {
        let earlier = writes_during(start, clocks.drop_last());
        if publish_due(last_write_after(start, clocks.drop_last()), clocks.last()) {
            earlier + 1
        } else {
            earlier
        }
    }
}

/// Clock readings that never go back, the first of them not before `start`.
pub open spec fn clock_advances(start: int, clocks: Seq<int>) -> bool {
    &&& clocks.len() > 0 ==> start <= clocks[0]
    &&& forall|i: int, j: int| 0 <= i <= j < clocks.len() ==> clocks[i] <= clocks[j]
}

/// Clock readings of which each is at most `gap` after the one before it, the
/// first at most `gap` after `start`.
pub open spec fn clock_steps_within(start: int, clocks: Seq<int>, gap: int) -> bool {
    &&& clocks.len() > 0 ==> clocks[0] - start <= gap
    &&& forall|i: int| 0 < i < clocks.len() ==> clocks[i] - #[trigger] clocks[i - 1] <= gap
}

/// The time from `start` to the last of the clock readings.
pub open spec fn elapsed(start: int, clocks: Seq<int>) -> int {
    if clocks.len() == 0 {
        0
    } else {
        clocks.last() - start
    }
}

/// By how much the writes over `clocks` came late, all together. A write
/// falls due one publish interval after the write before it; it is made at
/// the first reading after that moment, and is late by the time between the
/// two.
pub open spec fn delays(start: int, clocks: Seq<int>) -> int
    decreases clocks.len(),
{
    if clocks.len() == 0 {
        0
    } else {
        let before = last_write_after(start, clocks.drop_last());
        if publish_due(before, clocks.last()) {
            delays(start, clocks.drop_last()) + (clocks.last() - before - PUBLISH_INTERVAL_NANOS)
        } else {
            delays(start, clocks.drop_last())
        }
    }
}

/// The time from the last write to the last of the clock readings.
pub open spec fn since_last_write(start: int, clocks: Seq<int>) -> int {
    if clocks.len() == 0 {
        0
    } else {
        clocks.last() - last_write_after(start, clocks)
    }
}

/// Where the time goes. The elapsed time is made up of one publish interval
/// for every write, the delays of the writes, and the time since the last
/// write. Every write is late by some time; the time since the last write is
/// at most one interval, and it is not negative where the clock never goes
/// back.
pub proof fn lemma_time_accounting(start: int, clocks: Seq<int>)
    ensures
        last_write_after(start, clocks) - start == writes_during(start, clocks)
            * PUBLISH_INTERVAL_NANOS + delays(start, clocks),
        elapsed(start, clocks) == writes_during(start, clocks) * PUBLISH_INTERVAL_NANOS + delays(
            start,
            clocks,
        ) + since_last_write(start, clocks),
        writes_during(start, clocks) <= delays(start, clocks),
        writes_during(start, clocks) <= clocks.len(),
        since_last_write(start, clocks) <= PUBLISH_INTERVAL_NANOS,
        clock_advances(start, clocks) ==> 0 <= since_last_write(start, clocks),
    decreases clocks.len(),
{
    if clocks.len() > 0 {
        let earlier = clocks.drop_last();
        lemma_time_accounting(start, earlier);
        let count = writes_during(start, earlier);
        assert((count + 1) * PUBLISH_INTERVAL_NANOS == count * PUBLISH_INTERVAL_NANOS
            + PUBLISH_INTERVAL_NANOS) by (nonlinear_arith);
    }
}

/// The number of writes never exceeds the elapsed time divided by the publish
/// interval, rounded down, whenever the clock never goes back.
pub proof fn lemma_writes_at_most(start: int, clocks: Seq<int>)
    requires
        clock_advances(start, clocks),
    ensures
        writes_during(start, clocks) * PUBLISH_INTERVAL_NANOS <= elapsed(start, clocks),
        writes_during(start, clocks) <= elapsed(start, clocks) / (PUBLISH_INTERVAL_NANOS as int),
{
    lemma_time_accounting(start, clocks);
    lemma_quotient_at_least(elapsed(start, clocks), writes_during(start, clocks) as int);
}

/// The number of writes is the elapsed time divided by the publish interval,
/// rounded down, or one less, as long as the delays of the writes and the
/// time since the last write make up less than two intervals.
pub proof fn lemma_write_count(start: int, clocks: Seq<int>)
    requires
        clock_advances(start, clocks),
        delays(start, clocks) + since_last_write(start, clocks) < 2 * PUBLISH_INTERVAL_NANOS,
    ensures
        elapsed(start, clocks) / (PUBLISH_INTERVAL_NANOS as int) - 1 <= writes_during(
            start,
            clocks,
        ) <= elapsed(start, clocks) / (PUBLISH_INTERVAL_NANOS as int),
{
    lemma_time_accounting(start, clocks);
    lemma_writes_at_most(start, clocks);
    let count = writes_during(start, clocks) as int;
    assert((count + 2) * PUBLISH_INTERVAL_NANOS == count * PUBLISH_INTERVAL_NANOS + 2
        * PUBLISH_INTERVAL_NANOS) by (nonlinear_arith);
    lemma_quotient_at_most(elapsed(start, clocks), count + 1);
}

/// Beyond that the writes fall behind: where the delays and the time since
/// the last write make up two intervals or more, the number of writes is
/// smaller than the quotient by two at least.
pub proof fn lemma_writes_fall_behind(start: int, clocks: Seq<int>)
    requires
        delays(start, clocks) + since_last_write(start, clocks) >= 2 * PUBLISH_INTERVAL_NANOS,
    ensures
        writes_during(start, clocks) + 2 <= elapsed(start, clocks) / (
        PUBLISH_INTERVAL_NANOS as int),
{
    lemma_time_accounting(start, clocks);
    let count = writes_during(start, clocks) as int;
    assert((count + 2) * PUBLISH_INTERVAL_NANOS == count * PUBLISH_INTERVAL_NANOS + 2
        * PUBLISH_INTERVAL_NANOS) by (nonlinear_arith);
    lemma_quotient_at_least(elapsed(start, clocks), count + 2);
}

/// A clock that is read often keeps the delays small: when no reading is
/// more than `gap` after the one before it, no write is late by more than
/// `gap`.
pub proof fn lemma_delays_within_gaps(start: int, clocks: Seq<int>, gap: int)
    requires
        clock_advances(start, clocks),
        clock_steps_within(start, clocks, gap),
    ensures
        delays(start, clocks) <= writes_during(start, clocks) * gap,
        clocks.len() > 0 ==> delays(start, clocks) <= clocks.len() * gap,
    decreases clocks.len(),
{
    if clocks.len() > 0 {
        let earlier = clocks.drop_last();
        lemma_delays_within_gaps(start, earlier, gap);
        lemma_time_accounting(start, earlier);
        lemma_time_accounting(start, clocks);
        let count = writes_during(start, earlier) as int;
        assert((count + 1) * gap == count * gap + gap) by (nonlinear_arith);
        if earlier.len() > 0 {
            assert(clocks[clocks.len() - 1] - clocks[clocks.len() - 1 - 1] <= gap);
        }
        let total = writes_during(start, clocks) as int;
        let turns = clocks.len() as int;
        assert(total * gap <= turns * gap) by (nonlinear_arith)
            requires
                0 <= total <= turns,
                gap >= 0,
        ;
    } else {
        let none = writes_during(start, clocks);
        assert(none * gap == 0) by (nonlinear_arith)
            requires
                none == 0,
        ;
    }
}

/// `total / interval >= count` when `count` whole intervals fit in `total`.
proof fn lemma_quotient_at_least(total: int, count: int)
    requires
        count * PUBLISH_INTERVAL_NANOS <= total,
    ensures
        count <= total / (PUBLISH_INTERVAL_NANOS as int),
{
    assert(count * 200_000_000 <= total ==> count <= total / 200_000_000) by (nonlinear_arith);
}

/// `total / interval <= count` when `total` falls short of `count + 1` whole
/// intervals.
proof fn lemma_quotient_at_most(total: int, count: int)
    requires
        total < (count + 1) * PUBLISH_INTERVAL_NANOS,
    ensures
        total / (PUBLISH_INTERVAL_NANOS as int) <= count,
{
    assert(total < (count + 1) * 200_000_000 ==> total / 200_000_000 <= count)
        by (nonlinear_arith);
}

} // verus!
