//! Folding ticks into candles, one per time bucket.
use vstd::prelude::*;
use vstd::arithmetic::div_mod::lemma_fundamental_div_mod;
use vstd::arithmetic::div_mod::lemma_mod_multiples_basic;
use crate::types::{bucket_start, Candle, ConfigurationError, Tick};

verus! {

/// Why the aggregator refused something.
#[derive(Clone, Copy, Debug, PartialEq, Eq, Structural)]
pub enum AggregatorError {
    /// The tick's bucket lies before the bucket of the candle in progress.
    OutOfOrderTick,
    /// The candle's volume would no longer fit in 64 bits.
    VolumeOverflow,
}

/// What an aggregator is, as a value: its bucket length and the candle in
/// progress, if any.
pub struct AggregatorState {
    pub bucket_len: u64,
    pub pending: Option<Candle>,
}

impl AggregatorState {
    /// The bucket length is positive and the candle in progress, if any, is
    /// well formed.
    pub open spec fn wf(self) -> bool {
        &&& self.bucket_len > 0
        &&& self.pending matches Some(c) ==> c.well_formed(self.bucket_len)
    }

    /// What `ingest` hands back for `tick`.
    pub open spec fn ingest_result(self, tick: Tick) -> Result<Option<Candle>, AggregatorError> {
        let start = bucket_start(tick.timestamp, self.bucket_len);
        match self.pending {
            None => Ok(None),
            Some(c) => if start < c.open_time {
                Err(AggregatorError::OutOfOrderTick)
            } else if start > c.open_time {
                Ok(Some(c))
            } else if c.volume + tick.volume > u64::MAX {
                Err(AggregatorError::VolumeOverflow)
            } else {
                Ok(None)
            },
        }
    }

    /// The aggregator after `ingest` of `tick`.
    pub open spec fn after_ingest(self, tick: Tick) -> AggregatorState {
        let start = bucket_start(tick.timestamp, self.bucket_len);
        match self.pending {
            None => AggregatorState {
                bucket_len: self.bucket_len,
                pending: Some(Candle::seeded_by(tick, self.bucket_len)),
            },
            Some(c) => if start > c.open_time {
                AggregatorState {
                    bucket_len: self.bucket_len,
                    pending: Some(Candle::seeded_by(tick, self.bucket_len)),
                }
            } else if start == c.open_time && c.volume + tick.volume <= u64::MAX {
                AggregatorState { bucket_len: self.bucket_len, pending: Some(c.absorbing(tick)) }
            } else {
                self
            },
        }
    }

    /// The aggregator after `force_close`.
    pub open spec fn after_force_close(self) -> AggregatorState {
        AggregatorState { bucket_len: self.bucket_len, pending: None }
    }

    /// The aggregator after every tick of `ticks` in turn, refused ticks
    /// leaving it as it was.
    pub open spec fn after_all(self, ticks: Seq<Tick>) -> AggregatorState
        decreases ticks.len(),
    {
        if ticks.len() == 0 {
            self
        } else {
            self.after_all(ticks.drop_last()).after_ingest(ticks.last())
        }
    }
}

/// Folds a stream of ticks into candles of a fixed length.
pub struct CandleAggregator {
    bucket_len: u64,
    pending: Option<Candle>,
}

impl View for CandleAggregator {
    type V = AggregatorState;

    closed spec fn view(&self) -> AggregatorState {
        AggregatorState { bucket_len: self.bucket_len, pending: self.pending }
    }
}

/// The start of the bucket of `timestamp`.
pub fn bucket_start_of(timestamp: u64, bucket_len: u64) -> (start: u64)
    requires
        bucket_len > 0,
    ensures
        start == bucket_start(timestamp, bucket_len),
        start <= timestamp,
        start as int % bucket_len as int == 0,
{
    proof {
        lemma_bucket_start(timestamp, bucket_len);
        lemma_fundamental_div_mod(timestamp as int, bucket_len as int);
        assert((timestamp as int / bucket_len as int) * bucket_len as int == bucket_len as int * (
        timestamp as int / bucket_len as int)) by (nonlinear_arith);
    }
    timestamp - timestamp % bucket_len
}

impl CandleAggregator {
    #[verifier::type_invariant]
    spec fn inv(self) -> bool {
        self@.wf()
    }

    /// An aggregator with no candle in progress. A bucket length of zero is
    /// refused.
    pub fn new(bucket_len: u64) -> (made: Result<CandleAggregator, ConfigurationError>)
        ensures
            bucket_len == 0 <==> made is Err,
            made matches Err(e) ==> e == ConfigurationError::ZeroBucketLength,
            made matches Ok(a) ==> a@ == (AggregatorState { bucket_len, pending: None }),
    {
        if bucket_len == 0 {
            Err(ConfigurationError::ZeroBucketLength)
        } else {
            Ok(CandleAggregator { bucket_len, pending: None })
        }
    }

    /// The length of a bucket.
    pub fn bucket_len(&self) -> (len: u64)
        ensures
            len == self@.bucket_len,
            len > 0,
    {
        proof {
            use_type_invariant(self);
        }
        self.bucket_len
    }

    /// The candle in progress.
    pub fn pending(&self) -> (candle: Option<Candle>)
        ensures
            candle == self@.pending,
            candle matches Some(c) ==> c.well_formed(self@.bucket_len),
    {
        proof {
            use_type_invariant(self);
        }
        self.pending
    }

    /// Takes one tick.
    ///
    /// A tick of the bucket in progress is merged into its candle. A tick of
    /// a later bucket seals the candle in progress, which is handed back, and
    /// starts a new candle at its own bucket: buckets that saw no tick are
    /// skipped, not filled. A tick of an earlier bucket is refused and leaves
    /// the aggregator as it was, and so does one whose volume the candle
    /// cannot hold.
    pub fn ingest(&mut self, tick: &Tick) -> (sealed: Result<Option<Candle>, AggregatorError>)
        ensures
            sealed == old(self)@.ingest_result(*tick),
            final(self)@ == old(self)@.after_ingest(*tick),
            final(self)@.wf(),
            sealed is Err ==> final(self)@ == old(self)@,
            sealed matches Ok(Some(c)) ==> c.well_formed(old(self)@.bucket_len),
    {
        proof {
            use_type_invariant(&*self);
        }
        let start = bucket_start_of(tick.timestamp, self.bucket_len);
        let seed = Candle {
            open_time: start,
            open: tick.price,
            high: tick.price,
            low: tick.price,
            close: tick.price,
            volume: tick.volume,
        };
        match self.pending {
            None => {
                self.pending = Some(seed);
                Ok(None)
            },
            Some(c) => {
                if start < c.open_time {
                    Err(AggregatorError::OutOfOrderTick)
                } else if start > c.open_time {
                    self.pending = Some(seed);
                    Ok(Some(c))
                } else {
                    match c.volume.checked_add(tick.volume) {
                        None => Err(AggregatorError::VolumeOverflow),
                        Some(volume) => {
                            self.pending = Some(
                                Candle {
                                    open_time: c.open_time,
                                    open: c.open,
                                    high: if tick.price > c.high {
                                        tick.price
                                    } else {
                                        c.high
                                    },
                                    low: if tick.price < c.low {
                                        tick.price
                                    } else {
                                        c.low
                                    },
                                    close: tick.price,
                                    volume,
                                },
                            );
                            Ok(None)
                        },
                    }
                }
            },
        }
    }

    /// Seals the candle in progress, however little of its bucket has passed,
    /// and hands it back. With no candle in progress nothing is handed back
    /// and nothing changes.
    ///
    /// `_at_timestamp` is the moment the caller ends the bucket. The candle
    /// is sealed whatever it is; callers use the same moment to date what
    /// follows from the sealed candle.
    pub fn force_close(&mut self, _at_timestamp: u64) -> (sealed: Option<Candle>)
        ensures
            sealed == old(self)@.pending,
            final(self)@ == old(self)@.after_force_close(),
            final(self)@.wf(),
            sealed matches Some(c) ==> c.well_formed(old(self)@.bucket_len),
    {
        proof {
            use_type_invariant(&*self);
        }
        let sealed = self.pending;
        self.pending = None;
        sealed
    }
}

/// The sum of the volumes of `ticks`.
pub open spec fn total_volume(ticks: Seq<Tick>) -> int
    decreases ticks.len(),
{
    if ticks.len() == 0 {
        0
    } else {
        total_volume(ticks.drop_last()) + ticks.last().volume
    }
}

/// Whether an aggregator in state `s` takes every tick of `ticks` without
/// refusing one and without sealing a candle.
pub open spec fn all_merged(s: AggregatorState, ticks: Seq<Tick>) -> bool
    decreases ticks.len(),
{
    ticks.len() > 0 ==> {
        &&& all_merged(s, ticks.drop_last())
        &&& s.after_all(ticks.drop_last()).ingest_result(ticks.last()) == Ok::<
            Option<Candle>,
            AggregatorError,
        >(None)
    }
}

/// A bucket start is a multiple of the bucket length and does not exceed the
/// timestamp it was taken from.
pub proof fn lemma_bucket_start(timestamp: u64, bucket_len: u64)
    requires
        bucket_len > 0,
    ensures
        0 <= bucket_start(timestamp, bucket_len) <= timestamp,
        bucket_start(timestamp, bucket_len) % bucket_len as int == 0,
        timestamp - bucket_start(timestamp, bucket_len) < bucket_len,
{
    lemma_fundamental_div_mod(timestamp as int, bucket_len as int);
    lemma_mod_multiples_basic(timestamp as int / bucket_len as int, bucket_len as int);
    assert((timestamp as int / bucket_len as int) * bucket_len as int == bucket_len as int * (
    timestamp as int / bucket_len as int)) by (nonlinear_arith);
}

/// Taking a tick keeps a well-formed aggregator well formed, and the candle
/// it seals on the way, if any, is well formed.
pub proof fn lemma_step_keeps_well_formed(s: AggregatorState, tick: Tick)
    requires
        s.wf(),
    ensures
        s.after_ingest(tick).wf(),
        s.after_ingest(tick).bucket_len == s.bucket_len,
        s.ingest_result(tick) matches Ok(Some(c)) ==> c.well_formed(s.bucket_len),
{
    lemma_bucket_start(tick.timestamp, s.bucket_len);
}

/// Whatever ticks a well-formed aggregator is fed, it stays well formed.
pub proof fn lemma_stream_keeps_well_formed(s: AggregatorState, ticks: Seq<Tick>)
    requires
        s.wf(),
    ensures
        s.after_all(ticks).wf(),
        s.after_all(ticks).bucket_len == s.bucket_len,
    decreases ticks.len(),
{
    if ticks.len() > 0 {
        lemma_stream_keeps_well_formed(s, ticks.drop_last());
        lemma_step_keeps_well_formed(s.after_all(ticks.drop_last()), ticks.last());
    }
}

/// Whatever the stream of ticks, every candle that is sealed is well formed:
/// its open time is a whole number of buckets, and its low is at most its
/// open and its close, which are at most its high. This holds of the candle
/// that tick `i` of the stream seals, and of the one that a forced close
/// after the first `i` ticks would seal.
pub proof fn law_sealed_candles_well_formed(s: AggregatorState, ticks: Seq<Tick>, i: int)
    requires
        s.wf(),
        0 <= i <= ticks.len(),
    ensures
        i < ticks.len() ==> (s.after_all(ticks.take(i)).ingest_result(ticks[i]) matches Ok(
            Some(c),
        ) ==> c.well_formed(s.bucket_len)),
        s.after_all(ticks.take(i)).pending matches Some(c) ==> c.well_formed(s.bucket_len),
{
    lemma_stream_keeps_well_formed(s, ticks.take(i));
    if i < ticks.len() {
        lemma_step_keeps_well_formed(s.after_all(ticks.take(i)), ticks[i]);
    }
}

/// Closing twice is closing once: after a forced close no candle is in
/// progress, so a second forced close hands nothing back and changes nothing.
pub proof fn law_force_close_idempotent(s: AggregatorState)
    ensures
        s.after_force_close().pending is None,
        s.after_force_close().after_force_close() == s.after_force_close(),
{
}

/// Ticks confined to one bucket, fed to an aggregator with no candle in
/// progress, are all merged into one candle: it opens at the first tick's
/// price, closes at the last tick's price, its high and low are the highest
/// and lowest tick price, and its volume is the sum of the tick volumes. The
/// sum must fit in 64 bits.
pub proof fn law_single_bucket_candle(s: AggregatorState, ticks: Seq<Tick>)
    requires
        s.wf(),
        s.pending is None,
        ticks.len() > 0,
        forall|i: int|
            0 <= i < ticks.len() ==> bucket_start(#[trigger] ticks[i].timestamp, s.bucket_len)
                == bucket_start(ticks[0].timestamp, s.bucket_len),
        total_volume(ticks) <= u64::MAX,
    ensures
        all_merged(s, ticks),
        s.after_all(ticks).pending is Some,
        ({
            let c = s.after_all(ticks).pending->0;
            &&& c.open_time == bucket_start(ticks[0].timestamp, s.bucket_len)
            &&& c.open == ticks[0].price
            &&& c.close == ticks.last().price
            &&& c.volume == total_volume(ticks)
            &&& forall|i: int|
                0 <= i < ticks.len() ==> c.low <= (#[trigger] ticks[i]).price <= c.high
            &&& exists|i: int| 0 <= i < ticks.len() && (#[trigger] ticks[i]).price == c.high
            &&& exists|i: int| 0 <= i < ticks.len() && (#[trigger] ticks[i]).price == c.low
        }),
    decreases ticks.len(),
{
    lemma_bucket_start(ticks[0].timestamp, s.bucket_len);
    let front = ticks.drop_last();
    lemma_stream_keeps_well_formed(s, front);
    assert(bucket_start(ticks[ticks.len() - 1].timestamp, s.bucket_len) == bucket_start(
        ticks[0].timestamp,
        s.bucket_len,
    ));
    if ticks.len() == 1 {
        assert(all_merged(s, front));
    } else {
        lemma_total_volume_nonnegative(front);
        assert forall|i: int| 0 <= i < front.len() implies bucket_start(
            #[trigger] front[i].timestamp,
            s.bucket_len,
        ) == bucket_start(front[0].timestamp, s.bucket_len) by {
            assert(front[i] == ticks[i]);
        }
        law_single_bucket_candle(s, front);
        let before = s.after_all(front).pending->0;
        let c = s.after_all(ticks).pending->0;
        let hi = choose|i: int| 0 <= i < front.len() && (#[trigger] front[i]).price == before.high;
        let lo = choose|i: int| 0 <= i < front.len() && (#[trigger] front[i]).price == before.low;
        assert(ticks[hi].price == before.high && ticks[lo].price == before.low);
        assert forall|i: int| 0 <= i < ticks.len() implies c.low <= (#[trigger] ticks[i]).price
            <= c.high by {
            if i < front.len() {
                assert(front[i] == ticks[i]);
            }
        }
    }
}

/// A sum of volumes is never negative.
pub proof fn lemma_total_volume_nonnegative(ticks: Seq<Tick>)
    ensures
        total_volume(ticks) >= 0,
    decreases ticks.len(),
{
    if ticks.len() > 0 {
        lemma_total_volume_nonnegative(ticks.drop_last());
    }
}

} // verus!
