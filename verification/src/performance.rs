//! Timing and throughput bookkeeping for a summarization run. The tracker
//! never reads a clock itself: callers hand in millisecond readings, and
//! everything derived from them is exact.
use vstd::prelude::*;
use vstd::string::StringExecFns;

verus! {

/// The mathematical sum of a sequence of millisecond durations.
pub open spec fn sum_ms(s: Seq<u64>) -> int
    decreases s.len(),
{
    if s.len() == 0 {
        0
    } else {
        sum_ms(s.drop_last()) + s.last()
    }
}

/// The sum, saturated at the largest representable duration.
pub open spec fn sum_ms_sat(s: Seq<u64>) -> int {
    if sum_ms(s) > u64::MAX {
        u64::MAX as int
    } else {
        sum_ms(s)
    }
}

/// `v` is the least element of `s`.
pub open spec fn is_min_of(v: u64, s: Seq<u64>) -> bool {
    (exists|j: int| 0 <= j < s.len() && s[j] == v) && (forall|j: int|
        0 <= j < s.len() ==> v <= #[trigger] s[j])
}

/// `v` is the greatest element of `s`.
pub open spec fn is_max_of(v: u64, s: Seq<u64>) -> bool {
    (exists|j: int| 0 <= j < s.len() && s[j] == v) && (forall|j: int|
        0 <= j < s.len() ==> v >= #[trigger] s[j])
}

proof fn lemma_sum_ms_take_step(s: Seq<u64>, i: int)
    requires
        0 <= i < s.len(),
    ensures
        sum_ms(s.take(i + 1)) == sum_ms(s.take(i)) + s[i],
{
    assert(s.take(i + 1).drop_last() =~= s.take(i));
    assert(s.take(i + 1).last() == s[i]);
}

/// Sums durations, saturating instead of overflowing.
pub fn sum_durations(times: &Vec<u64>) -> (r: u64)
    ensures
        r as int == sum_ms_sat(times@),
{
    let mut acc: u64 = 0;
    let mut i: usize = 0;
    proof {
        assert(times@.take(0) =~= Seq::<u64>::empty());
    }
    while i < times.len()
        invariant
            i <= times@.len(),
            acc as int == sum_ms_sat(times@.take(i as int)),
        decreases times@.len() - i,
    {
        let x = times[i];
        proof {
            lemma_sum_ms_take_step(times@, i as int);
        }
        if acc > u64::MAX - x {
            acc = u64::MAX;
        } else {
            acc = acc + x;
        }
        i = i + 1;
    }
    proof {
        assert(times@.take(times@.len() as int) =~= times@);
    }
    acc
}

/// The least element of a nonempty duration vector.
pub fn min_duration(times: &Vec<u64>) -> (r: u64)
    requires
        times@.len() > 0,
    ensures
        is_min_of(r, times@),
{
    let mut acc: u64 = times[0];
    let mut i: usize = 1;
    while i < times.len()
        invariant
            1 <= i <= times@.len(),
            exists|j: int| 0 <= j < i && times@[j] == acc,
            forall|j: int| 0 <= j < i ==> acc <= #[trigger] times@[j],
        decreases times@.len() - i,
    {
        if times[i] < acc {
            acc = times[i];
        }
        i = i + 1;
    }
    acc
}

/// The greatest element of a nonempty duration vector.
pub fn max_duration(times: &Vec<u64>) -> (r: u64)
    requires
        times@.len() > 0,
    ensures
        is_max_of(r, times@),
{
    let mut acc: u64 = times[0];
    let mut i: usize = 1;
    while i < times.len()
        invariant
            1 <= i <= times@.len(),
            exists|j: int| 0 <= j < i && times@[j] == acc,
            forall|j: int| 0 <= j < i ==> acc >= #[trigger] times@[j],
        decreases times@.len() - i,
    {
        if times[i] > acc {
            acc = times[i];
        }
        i = i + 1;
    }
    acc
}

/// A snapshot of the tracker's measurements, all durations in
/// milliseconds and throughput in whole characters per second.
pub struct PerformanceMetrics {
    pub total_duration_ms: u64,
    pub chunk_count: usize,
    pub average_chunk_time_ms: u64,
    pub fastest_chunk_ms: u64,
    pub slowest_chunk_ms: u64,
    pub api_calls: usize,
    pub failed_api_calls: usize,
    pub total_characters_processed: usize,
    pub characters_per_second: u64,
}

/// The value of the first metric recorded under `key`, if any.
pub open spec fn metric_lookup(s: Seq<(String, u64)>, key: Seq<char>) -> Option<u64>
    decreases s.len(),
{
    if s.len() == 0 {
        None
    } else if s[0].0@ == key {
        Some(s[0].1)
    } else {
        metric_lookup(s.drop_first(), key)
    }
}

/// Collects chunk timings, call timings, failure counts and custom
/// metrics over one run.
pub struct PerformanceTracker {
    pub start_ms: u64,
    pub chunk_times: Vec<u64>,
    pub api_call_times: Vec<u64>,
    pub failed_calls: usize,
    pub total_characters: usize,
    pub metrics: Vec<(String, u64)>,
}

/// The duration from `start` to `now`, zero when the clock ran backward.
pub open spec fn elapsed_spec(start: u64, now: u64) -> u64 {
    if now >= start {
        (now - start) as u64
    } else {
        0u64
    }
}

impl PerformanceTracker {
    /// A fresh tracker whose run starts at the given clock reading.
    pub fn new(now_ms: u64) -> (r: Self)
        ensures
            r.start_ms == now_ms,
            r.chunk_times@ == Seq::<u64>::empty(),
            r.api_call_times@ == Seq::<u64>::empty(),
            r.failed_calls == 0,
            r.total_characters == 0,
            r.metrics@ == Seq::<(String, u64)>::empty(),
    {
        PerformanceTracker {
            start_ms: now_ms,
            chunk_times: Vec::new(),
            api_call_times: Vec::new(),
            failed_calls: 0,
            total_characters: 0,
            metrics: Vec::new(),
        }
    }

    /// Marks the start of a chunk: the clock reading to hand back to
    /// `end_chunk`.
    pub fn start_chunk(&self, now_ms: u64) -> (r: u64)
        ensures
            r == now_ms,
    {
        now_ms
    }

    /// Records one finished chunk: its duration and how many characters it
    /// covered.
    pub fn end_chunk(&mut self, start_time: u64, now_ms: u64, characters: usize)
        requires
            old(self).total_characters + characters <= usize::MAX,
        ensures
            final(self).chunk_times@ == old(self).chunk_times@.push(
                elapsed_spec(start_time, now_ms),
            ),
            final(self).total_characters == old(self).total_characters + characters,
            final(self).api_call_times == old(self).api_call_times,
            final(self).failed_calls == old(self).failed_calls,
            final(self).metrics == old(self).metrics,
            final(self).start_ms == old(self).start_ms,
    {
        let duration = if now_ms >= start_time {
            now_ms - start_time
        } else {
            0
        };
        self.chunk_times.push(duration);
        self.total_characters = self.total_characters + characters;
    }

    /// Marks the start of an endpoint call.
    pub fn start_api_call(&self, now_ms: u64) -> (r: u64)
        ensures
            r == now_ms,
    {
        now_ms
    }

    /// Records one finished endpoint call and whether it succeeded.
    pub fn end_api_call(&mut self, start_time: u64, now_ms: u64, success: bool)
        requires
            old(self).failed_calls < usize::MAX,
        ensures
            final(self).api_call_times@ == old(self).api_call_times@.push(
                elapsed_spec(start_time, now_ms),
            ),
            final(self).failed_calls == old(self).failed_calls + (if success {
                0int
            } else {
                1int
            }),
            final(self).chunk_times == old(self).chunk_times,
            final(self).total_characters == old(self).total_characters,
            final(self).metrics == old(self).metrics,
            final(self).start_ms == old(self).start_ms,
    {
        let duration = if now_ms >= start_time {
            now_ms - start_time
        } else {
            0
        };
        self.api_call_times.push(duration);
        if !success {
            self.failed_calls = self.failed_calls + 1;
        }
    }

    /// Records a named duration; a later reading under the same name finds
    /// this one, and every other name is untouched.
    pub fn record_metric(&mut self, name: &str, duration_ms: u64)
        ensures
            metric_lookup(final(self).metrics@, name@) == Some(duration_ms),
            forall|k: Seq<char>|
                k != name@ ==> #[trigger] metric_lookup(final(self).metrics@, k) == metric_lookup(
                    old(self).metrics@,
                    k,
                ),
            final(self).chunk_times == old(self).chunk_times,
            final(self).api_call_times == old(self).api_call_times,
            final(self).failed_calls == old(self).failed_calls,
            final(self).total_characters == old(self).total_characters,
            final(self).start_ms == old(self).start_ms,
    {
        let key = String::from_str(name);
        self.metrics.insert(0, (key, duration_ms));
        proof {
            assert(self.metrics@[0].0@ == name@);
            assert(self.metrics@.drop_first() =~= old(self).metrics@);
        }
    }

    /// Reads one recorded metric back.
    pub fn get_metric(&self, name: &str) -> (r: Option<u64>)
        ensures
            r == metric_lookup(self.metrics@, name@),
    {
        let key = String::from_str(name);
        let mut i: usize = 0;
        proof {
            assert(self.metrics@.skip(0) =~= self.metrics@);
        }
        while i < self.metrics.len()
            invariant
                i <= self.metrics@.len(),
                key@ == name@,
                metric_lookup(self.metrics@, name@) == metric_lookup(
                    self.metrics@.skip(i as int),
                    name@,
                ),
            decreases self.metrics@.len() - i,
        {
            proof {
                assert(self.metrics@.skip(i as int)[0] == self.metrics@[i as int]);
                assert(self.metrics@.skip(i as int).drop_first() =~= self.metrics@.skip(
                    i as int + 1,
                ));
            }
            if self.metrics[i].0 == key {
                return Some(self.metrics[i].1);
            }
            i = i + 1;
        }
        None
    }

    /// A snapshot of every measurement at the given clock reading:
    /// averages over what was recorded, extremes of the chunk times, and
    /// whole-number characters per second over the elapsed time.
    pub fn get_metrics(&self, now_ms: u64) -> (r: PerformanceMetrics)
        ensures
            r.total_duration_ms == elapsed_spec(self.start_ms, now_ms),
            r.chunk_count == self.chunk_times@.len(),
            r.chunk_times_avg_ok(self),
            self.chunk_times@.len() > 0 ==> is_min_of(r.fastest_chunk_ms, self.chunk_times@),
            self.chunk_times@.len() > 0 ==> is_max_of(r.slowest_chunk_ms, self.chunk_times@),
            self.chunk_times@.len() == 0 ==> r.fastest_chunk_ms == 0 && r.slowest_chunk_ms == 0,
            r.api_calls == self.api_call_times@.len(),
            r.failed_api_calls == self.failed_calls,
            r.total_characters_processed == self.total_characters,
            r.throughput_ok(self, now_ms),
    {
        let total_duration_ms = if now_ms >= self.start_ms {
            now_ms - self.start_ms
        } else {
            0
        };
        let chunk_count = self.chunk_times.len();
        let average_chunk_time_ms = if chunk_count > 0 {
            sum_durations(&self.chunk_times) / (chunk_count as u64)
        } else {
            0
        };
        let fastest_chunk_ms = if chunk_count > 0 {
            min_duration(&self.chunk_times)
        } else {
            0
        };
        let slowest_chunk_ms = if chunk_count > 0 {
            max_duration(&self.chunk_times)
        } else {
            0
        };
        let characters_per_second = if total_duration_ms > 0 {
            let v: u128 = (self.total_characters as u128) * 1000 / (total_duration_ms as u128);
            if v > u64::MAX as u128 {
                u64::MAX
            } else {
                v as u64
            }
        } else {
            0
        };
        PerformanceMetrics {
            total_duration_ms,
            chunk_count,
            average_chunk_time_ms,
            fastest_chunk_ms,
            slowest_chunk_ms,
            api_calls: self.api_call_times.len(),
            failed_api_calls: self.failed_calls,
            total_characters_processed: self.total_characters,
            characters_per_second,
        }
    }
}

impl PerformanceMetrics {
    /// The average is the saturated sum of the chunk times divided by
    /// their count, and zero when nothing was recorded.
    pub open spec fn chunk_times_avg_ok(&self, t: &PerformanceTracker) -> bool {
        if t.chunk_times@.len() == 0 {
            self.average_chunk_time_ms == 0
        } else {
            self.average_chunk_time_ms == sum_ms_sat(t.chunk_times@) / t.chunk_times@.len() as int
        }
    }

    /// The throughput is total characters per elapsed second, rounded
    /// down, capped at the largest representable value, and zero over an
    /// empty interval.
    pub open spec fn throughput_ok(&self, t: &PerformanceTracker, now_ms: u64) -> bool {
        if elapsed_spec(t.start_ms, now_ms) == 0 {
            self.characters_per_second == 0
        } else {
            self.characters_per_second as int == (if t.total_characters * 1000 / elapsed_spec(
                t.start_ms,
                now_ms,
            ) as int > u64::MAX {
                u64::MAX as int
            } else {
                t.total_characters * 1000 / elapsed_spec(t.start_ms, now_ms) as int
            })
        }
    }
}

} // verus!
