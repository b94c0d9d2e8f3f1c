//! Rolling windows and the indicator values computed over them.
//!
//! Levels are hundredths of a percent between `0` and `FULL_SCALE`.
use vstd::prelude::*;
use crate::types::{max_u64, min_u64, Candle, FULL_SCALE};

verus! {

/// The sum of `values`.
pub open spec fn sum(values: Seq<u64>) -> int
    decreases values.len(),
{
    if values.len() == 0 {
        0
    } else {
        sum(values.drop_last()) + values.last()
    }
}

/// The mean of `values`, rounded down; `values` is not empty.
pub open spec fn mean(values: Seq<u64>) -> int {
    sum(values) / values.len() as int
}

/// A window after `value` has entered it: the last `capacity` items of the
/// window with `value` appended.
pub open spec fn pushed<T>(window: Seq<T>, value: T, capacity: usize) -> Seq<T> {
    let grown = window.push(value);
    if grown.len() > capacity {
        grown.subrange(grown.len() - capacity, grown.len() as int)
    } else {
        grown
    }
}

/// The mean of a window that holds exactly `period` values, and at least one.
pub open spec fn window_mean(window: Seq<u64>, period: usize) -> Option<u64> {
    if window.len() == period && window.len() > 0 {
        Some(mean(window) as u64)
    } else {
        None
    }
}

/// The mean of the last `n` of `values`, rounded down: defined where there
/// are that many, and at least one.
pub open spec fn tail_mean(values: Seq<u64>, n: usize) -> Option<u64> {
    if 0 < n <= values.len() {
        Some(mean(values.subrange(values.len() - n, values.len() as int)) as u64)
    } else {
        None
    }
}

/// The highest high among `candles`, `0` where there is none.
pub open spec fn max_high(candles: Seq<Candle>) -> u64
    decreases candles.len(),
{
    if candles.len() == 0 {
        0
    } else {
        max_u64(max_high(candles.drop_last()), candles.last().high)
    }
}

/// The lowest low among `candles`, `u64::MAX` where there is none.
pub open spec fn min_low(candles: Seq<Candle>) -> u64
    decreases candles.len(),
{
    if candles.len() == 0 {
        u64::MAX
    } else {
        min_u64(min_low(candles.drop_last()), candles.last().low)
    }
}

/// Where `close` stands between `lowest` and `highest`, as a level: `0` at or
/// below `lowest` and where the range is empty, `FULL_SCALE` at or above
/// `highest`.
pub open spec fn percent_k(close: u64, lowest: u64, highest: u64) -> u64 {
    if highest <= lowest || close <= lowest {
        0
    } else if close >= highest {
        FULL_SCALE
    } else {
        (((close - lowest) * FULL_SCALE) / (highest - lowest)) as u64
    }
}

/// The distance between `a` and `b`.
pub open spec fn gap(a: u64, b: u64) -> u64 {
    if a >= b {
        (a - b) as u64
    } else {
        (b - a) as u64
    }
}

/// The true range of `candle`: the largest of its own range and the
/// distances of its high and its low from the close before it.
pub open spec fn true_range(candle: Candle, prev_close: Option<u64>) -> u64 {
    let own = gap(candle.high, candle.low);
    match prev_close {
        None => own,
        Some(before) => max_u64(own, max_u64(gap(candle.high, before), gap(candle.low, before))),
    }
}

/// `amount` times `factor`, a factor given in hundredths, rounded down.
pub open spec fn times_hundredths(amount: u64, factor: u64) -> int {
    (amount * factor) / 100
}

/// The move from `before` to `now` as a part of `before`, as a level that
/// stops at `FULL_SCALE`; `0` where `before` is `0`.
pub open spec fn absolute_return(before: u64, now: u64) -> u64 {
    if before == 0 {
        0
    } else if gap(now, before) >= before {
        FULL_SCALE
    } else {
        ((gap(now, before) * FULL_SCALE) / before as int) as u64
    }
}

/// The value a part `weight` of the way from `from` to `to`, `weight` being
/// a level: `from` at `0`, `to` at `FULL_SCALE` and beyond.
pub open spec fn blend(from: u64, to: u64, weight: u64) -> int {
    let part = min_u64(weight, FULL_SCALE);
    (from * (FULL_SCALE - part) + to * part) / FULL_SCALE as int
}

/// `previous` at or below `level`, `current` above it.
pub open spec fn crosses_above(previous: u64, current: u64, level: u64) -> bool {
    previous <= level && current > level
}

/// `previous` at or above `level`, `current` below it.
pub open spec fn crosses_below(previous: u64, current: u64, level: u64) -> bool {
    previous >= level && current < level
}

/// Both values are known, and from the first to the second the indicator
/// crossed above `level`.
pub open spec fn crossed_above(previous: Option<u64>, current: Option<u64>, level: u64) -> bool {
    previous matches Some(p) && current matches Some(c) && crosses_above(p, c, level)
}

/// Both values are known, and from the first to the second the indicator
/// crossed below `level`.
pub open spec fn crossed_below(previous: Option<u64>, current: Option<u64>, level: u64) -> bool {
    previous matches Some(p) && current matches Some(c) && crosses_below(p, c, level)
}

/// A sum of `n` values is at most `n` times the largest `u64`.
pub proof fn lemma_sum_bound(values: Seq<u64>)
    ensures
        0 <= sum(values) <= values.len() * u64::MAX,
    decreases values.len(),
{
    if values.len() > 0 {
        lemma_sum_bound(values.drop_last());
        assert(values.len() * u64::MAX == (values.len() - 1) * u64::MAX + u64::MAX)
            by (nonlinear_arith);
    }
}

/// The mean of values is at most the largest `u64`.
pub proof fn lemma_mean_bound(values: Seq<u64>)
    requires
        values.len() > 0,
    ensures
        0 <= mean(values) <= u64::MAX,
{
    lemma_sum_bound(values);
    let n = values.len() as int;
    let s = sum(values);
    assert(0 <= s / n <= u64::MAX) by (nonlinear_arith)
        requires
            n > 0,
            0 <= s <= n * u64::MAX,
    ;
}

/// Lets `value` into `window`, dropping the oldest items beyond `capacity`.
pub fn push_bounded<T>(window: &mut Vec<T>, value: T, capacity: usize)
    ensures
        final(window)@ == pushed(old(window)@, value, capacity),
{
    let ghost grown = window@.push(value);
    window.push(value);
    while window.len() > capacity
        invariant
            grown == old(window)@.push(value),
            window.len() <= grown.len(),
            window.len() >= capacity || window.len() == grown.len(),
            window@ == grown.subrange(grown.len() - window.len(), grown.len() as int),
        decreases window.len(),
    {
        window.remove(0);
    }
}

/// The sum of `values`.
pub fn sum_of(values: &Vec<u64>) -> (total: u128)
    ensures
        total == sum(values@),
{
    let mut total: u128 = 0;
    let mut i: usize = 0;
    while i < values.len()
        invariant
            i <= values.len(),
            total == sum(values@.take(i as int)),
            total <= i * u64::MAX,
        decreases values.len() - i,
    {
        proof {
            assert(values@.take(i + 1).drop_last() =~= values@.take(i as int));
            assert((i + 1) * u64::MAX == i * u64::MAX + u64::MAX) by (nonlinear_arith);
            assert(i * u64::MAX <= 0xFFFF_FFFF_FFFF_FFFF * 0xFFFF_FFFF_FFFF_FFFF)
                by (nonlinear_arith)
                requires
                    0 <= i <= 0xFFFF_FFFF_FFFF_FFFF,
            ;
        }
        total = total + values[i] as u128;
        i += 1;
    }
    assert(values@.take(values.len() as int) =~= values@);
    total
}

/// The mean of `values`, rounded down; nothing for no values.
pub fn mean_of(values: &Vec<u64>) -> (average: Option<u64>)
    ensures
        values.len() == 0 <==> average is None,
        average matches Some(m) ==> m == mean(values@),
{
    if values.len() == 0 {
        None
    } else {
        proof {
            lemma_mean_bound(values@);
        }
        let total = sum_of(values);
        Some((total / (values.len() as u128)) as u64)
    }
}

/// The mean of `window` where it holds exactly `period` values.
pub fn mean_of_full(window: &Vec<u64>, period: usize) -> (average: Option<u64>)
    ensures
        average == window_mean(window@, period),
{
    if window.len() == period {
        mean_of(window)
    } else {
        None
    }
}

/// Computes `tail_mean`.
pub fn mean_of_last(values: &Vec<u64>, n: usize) -> (average: Option<u64>)
    ensures
        average == tail_mean(values@, n),
{
    let len = values.len();
    if n == 0 || n > len {
        return None;
    }
    let start = len - n;
    let ghost tail = values@.subrange(start as int, len as int);
    let mut total: u128 = 0;
    let mut i: usize = start;
    while i < len
        invariant
            start <= i <= len,
            len == values.len(),
            total == sum(values@.subrange(start as int, i as int)),
            total <= (i - start) * u64::MAX,
        decreases len - i,
    {
        proof {
            assert(values@.subrange(start as int, i + 1).drop_last() =~= values@.subrange(
                start as int,
                i as int,
            ));
            assert((i + 1 - start) * u64::MAX == (i - start) * u64::MAX + u64::MAX)
                by (nonlinear_arith);
            assert((i - start) * u64::MAX <= 0xFFFF_FFFF_FFFF_FFFF * 0xFFFF_FFFF_FFFF_FFFF)
                by (nonlinear_arith)
                requires
                    0 <= i - start <= 0xFFFF_FFFF_FFFF_FFFF,
            ;
        }
        total = total + values[i] as u128;
        i += 1;
    }
    proof {
        lemma_mean_bound(tail);
    }
    Some((total / (n as u128)) as u64)
}

/// The highest high among `candles`.
pub fn highest_high(candles: &Vec<Candle>) -> (highest: u64)
    ensures
        highest == max_high(candles@),
{
    let mut highest: u64 = 0;
    let mut i: usize = 0;
    while i < candles.len()
        invariant
            i <= candles.len(),
            highest == max_high(candles@.take(i as int)),
        decreases candles.len() - i,
    {
        proof {
            assert(candles@.take(i + 1).drop_last() =~= candles@.take(i as int));
        }
        if candles[i].high > highest {
            highest = candles[i].high;
        }
        i += 1;
    }
    assert(candles@.take(candles.len() as int) =~= candles@);
    highest
}

/// The lowest low among `candles`.
pub fn lowest_low(candles: &Vec<Candle>) -> (lowest: u64)
    ensures
        lowest == min_low(candles@),
{
    let mut lowest: u64 = u64::MAX;
    let mut i: usize = 0;
    while i < candles.len()
        invariant
            i <= candles.len(),
            lowest == min_low(candles@.take(i as int)),
        decreases candles.len() - i,
    {
        proof {
            assert(candles@.take(i + 1).drop_last() =~= candles@.take(i as int));
        }
        if candles[i].low < lowest {
            lowest = candles[i].low;
        }
        i += 1;
    }
    assert(candles@.take(candles.len() as int) =~= candles@);
    lowest
}

/// Computes `percent_k`.
pub fn stochastic_k(close: u64, lowest: u64, highest: u64) -> (level: u64)
    ensures
        level == percent_k(close, lowest, highest),
        level <= FULL_SCALE,
{
    if highest <= lowest || close <= lowest {
        0
    } else if close >= highest {
        FULL_SCALE
    } else {
        let above: u128 = (close - lowest) as u128;
        let range: u128 = (highest - lowest) as u128;
        let level: u128 = (above * (FULL_SCALE as u128)) / range;
        assert(level <= 10_000) by (nonlinear_arith)
            requires
                level == (above * 10_000) / (range as int),
                0 < above < range,
        ;
        level as u64
    }
}

/// Computes `gap`.
pub fn distance(a: u64, b: u64) -> (d: u64)
    ensures
        d == gap(a, b),
{
    if a >= b {
        a - b
    } else {
        b - a
    }
}

/// Computes `true_range`.
pub fn true_range_of(candle: &Candle, prev_close: Option<u64>) -> (range: u64)
    ensures
        range == true_range(*candle, prev_close),
{
    let own = distance(candle.high, candle.low);
    match prev_close {
        None => own,
        Some(before) => {
            let up = distance(candle.high, before);
            let down = distance(candle.low, before);
            let wider = if up >= down {
                up
            } else {
                down
            };
            if own >= wider {
                own
            } else {
                wider
            }
        },
    }
}

/// Computes `absolute_return`.
pub fn absolute_return_of(before: u64, now: u64) -> (level: u64)
    ensures
        level == absolute_return(before, now),
        level <= FULL_SCALE,
{
    if before == 0 {
        return 0;
    }
    let moved = distance(now, before);
    if moved >= before {
        FULL_SCALE
    } else {
        let level: u128 = ((moved as u128) * (FULL_SCALE as u128)) / (before as u128);
        assert(level <= 10_000) by (nonlinear_arith)
            requires
                level == (moved * 10_000) / (before as int),
                0 <= moved < before,
        ;
        level as u64
    }
}

/// Computes `crossed_above`.
pub fn has_crossed_above(previous: Option<u64>, current: Option<u64>, level: u64) -> (crossed:
    bool)
    ensures
        crossed == crossed_above(previous, current, level),
{
    match (previous, current) {
        (Some(p), Some(c)) => p <= level && c > level,
        _ => false,
    }
}

/// Computes `crossed_below`.
pub fn has_crossed_below(previous: Option<u64>, current: Option<u64>, level: u64) -> (crossed:
    bool)
    ensures
        crossed == crossed_below(previous, current, level),
{
    match (previous, current) {
        (Some(p), Some(c)) => p >= level && c < level,
        _ => false,
    }
}

/// A value between two values is no larger than the larger of them.
pub proof fn lemma_blend_bound(from: u64, to: u64, weight: u64)
    ensures
        0 <= blend(from, to, weight) <= max_u64(from, to),
{
    let part = min_u64(weight, FULL_SCALE) as int;
    let rest = FULL_SCALE - part;
    let top = max_u64(from, to) as int;
    let f = from as int;
    let t = to as int;
    assert(0 <= f * rest + t * part <= top * 10_000) by (nonlinear_arith)
        requires
            0 <= f <= top,
            0 <= t <= top,
            0 <= part,
            0 <= rest,
            rest + part == 10_000,
    ;
    assert(0 <= (f * rest + t * part) / 10_000 <= top) by (nonlinear_arith)
        requires
            0 <= f * rest + t * part <= top * 10_000,
    ;
}

/// Computes `blend`.
pub fn blend_of(from: u64, to: u64, weight: u64) -> (value: u64)
    ensures
        value == blend(from, to, weight),
{
    let part: u64 = if weight <= FULL_SCALE {
        weight
    } else {
        FULL_SCALE
    };
    let rest: u64 = FULL_SCALE - part;
    proof {
        lemma_blend_bound(from, to, weight);
        assert(from * rest <= 0xFFFF_FFFF_FFFF_FFFF * 10_000) by (nonlinear_arith)
            requires
                0 <= from <= 0xFFFF_FFFF_FFFF_FFFF,
                0 <= rest <= 10_000,
        ;
        assert(to * part <= 0xFFFF_FFFF_FFFF_FFFF * 10_000) by (nonlinear_arith)
            requires
                0 <= to <= 0xFFFF_FFFF_FFFF_FFFF,
                0 <= part <= 10_000,
        ;
    }
    let mixed: u128 = (from as u128) * (rest as u128) + (to as u128) * (part as u128);
    (mixed / (FULL_SCALE as u128)) as u64
}

} // verus!
