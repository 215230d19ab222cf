use vstd::prelude::*;
use crate::tally::{count_sum, count_of, lemma_count_sum_bump, lemma_count_le_sum};
use crate::worker::WorkResult;
use std::collections::BTreeMap;

verus! {

/// The leading decimal digit of `n` (zero for zero).
pub open spec fn leading_digit(n: nat) -> nat
    decreases n,
{
    if n < 10 {
        n
    } else {
        leading_digit(n / 10)
    }
}

/// The latency bucket, in milliseconds, of a duration of `ms` milliseconds:
/// its whole seconds, plus a hundred milliseconds for each unit of the
/// leading digit of `ms`.
pub open spec fn bucket_of(ms: nat) -> nat {
    (ms / 1000) * 1000 + leading_digit(ms) * 100
}

/// A bucket key as whole seconds and the milliseconds past them.
pub open spec fn key_millis(k: (u64, u64)) -> nat {
    k.0 as nat * 1000 + k.1 as nat
}

/// The key under which a duration of `ms` milliseconds is counted.
pub open spec fn bucket_key(ms: nat) -> (u64, u64) {
    ((ms / 1000) as u64, (leading_digit(ms) * 100) as u64)
}

pub proof fn lemma_leading_digit_small(n: nat)
    ensures
        leading_digit(n) < 10,
    decreases n,
{
    if n >= 10 {
        lemma_leading_digit_small(n / 10);
    }
}

proof fn lemma_leading_digit_shift(s: nat, y: nat)
    requires
        s >= 1,
        y < 10,
    ensures
        leading_digit(s * 10 + y) == leading_digit(s),
{
    assert((s * 10 + y) / 10 == s) by (nonlinear_arith)
        requires
            y < 10,
    ;
}

proof fn lemma_leading_digit_thousands(s: nat, x: nat)
    requires
        s >= 1,
        x < 1000,
    ensures
        leading_digit(s * 1000 + x) == leading_digit(s),
{
    let a = s * 10 + x / 100;
    let b = s * 100 + x / 10;
    assert(s * 1000 + x == b * 10 + x % 10 && b == a * 10 + (x / 10) % 10) by (nonlinear_arith)
        requires
            a == s * 10 + x / 100,
            b == s * 100 + x / 10,
            x < 1000,
    ;
    lemma_leading_digit_shift(s, x / 100);
    lemma_leading_digit_shift(a, (x / 10) % 10);
    lemma_leading_digit_shift(b, x % 10);
}

/// Bucketing is a projection: a bucket value falls in its own bucket.
pub proof fn lemma_bucket_idempotent(ms: nat)
    ensures
        bucket_of(bucket_of(ms)) == bucket_of(ms),
{
    let s = ms / 1000;
    let r = ms % 1000;
    let l = leading_digit(ms);
    lemma_leading_digit_small(ms);
    assert(ms == s * 1000 + r);
    assert(bucket_of(ms) / 1000 == s) by (nonlinear_arith)
        requires
            bucket_of(ms) == s * 1000 + l * 100,
            l < 10,
    ;
    if s >= 1 {
        lemma_leading_digit_thousands(s, r);
        lemma_leading_digit_thousands(s, l * 100);
    } else {
        assert(bucket_of(ms) == l * 100);
        if l >= 1 {
            assert(l * 100 == (l * 10) * 10 + 0);
            lemma_leading_digit_shift(l * 10, 0);
            assert(l * 10 == l * 10 + 0);
            lemma_leading_digit_shift(l, 0);
        }
    }
}

/// Statistics of one run.
pub struct Result {
    /// The URL that last answered, if any request got a response.
    pub url: Option<String>,
    pub success: usize,
    pub failed: usize,
    pub timed_out: usize,
    /// Wall-clock length of the run, in milliseconds.
    pub duration: u64,
    /// Responses counted by status code.
    pub status_code_summary: BTreeMap<u16, usize>,
    /// Responses counted by latency bucket (whole seconds, milliseconds).
    pub duration_summary: BTreeMap<(u64, u64), usize>,
    /// Target queue depth at the end of the run.
    pub ratio: usize,
    pub concurrency_level: usize,
}

/// An empty accumulator.
pub fn new() -> (r: Result)
    ensures
        r.wf(),
        r.url.is_none(),
        r.success == 0 && r.failed == 0 && r.timed_out == 0,
        r.duration == 0,
        r.status_code_summary@ == Map::<u16, usize>::empty(),
        r.duration_summary@ == Map::<(u64, u64), usize>::empty(),
        r.ratio == 0 && r.concurrency_level == 0,
{
    let r = Result {
        url: None,
        success: 0,
        failed: 0,
        timed_out: 0,
        duration: 0,
        status_code_summary: BTreeMap::new(),
        duration_summary: BTreeMap::new(),
        ratio: 0,
        concurrency_level: 0,
    };
    assert(count_sum(r.status_code_summary@) == 0);
    assert(count_sum(r.duration_summary@) == 0);
    r
}

impl Result {
    pub open spec fn total_spec(&self) -> nat {
        self.success as nat + self.failed as nat + self.timed_out as nat
    }

    /// The three counters fit together in a `usize`, and each histogram
    /// holds exactly one count per successful response.
    pub open spec fn wf(&self) -> bool {
        &&& self.total_spec() <= usize::MAX
        &&& count_sum(self.status_code_summary@) == self.success as nat
        &&& count_sum(self.duration_summary@) == self.success as nat
    }

    /// The bucket of a duration of `d` milliseconds.
    pub fn truncate_duration(d: u64) -> (r: (u64, u64))
        ensures
            r == bucket_key(d as nat),
            key_millis(r) == bucket_of(d as nat),
            r.1 < 1000,
    {
        let secs: u64 = d / 1000;
        let mut millis: u64 = d;
        let precision: u64 = 10;
        while millis >= 10
            invariant
                precision == 10,
                leading_digit(millis as nat) == leading_digit(d as nat),
            decreases millis,
        {
            millis = millis / precision;
        }
        proof {
            lemma_leading_digit_small(d as nat);
        }
        (secs, millis * 100)
    }

    /// Folds one outcome into the statistics.
    pub fn work_result_handler(&mut self, wr: WorkResult)
        requires
            old(self).wf(),
            old(self).total_spec() < usize::MAX,
        ensures
            final(self).wf(),
            final(self).total_spec() == old(self).total_spec() + 1,
            final(self).duration == old(self).duration,
            final(self).ratio == old(self).ratio,
            final(self).concurrency_level == old(self).concurrency_level,
            match wr {
                WorkResult::Success { status_code, duration, url } => {
                    &&& final(self).success == old(self).success + 1
                    &&& final(self).failed == old(self).failed
                    &&& final(self).timed_out == old(self).timed_out
                    &&& final(self).status_code_summary@ == old(self).status_code_summary@.insert(
                        status_code,
                        (count_of(old(self).status_code_summary@, status_code) + 1) as usize,
                    )
                    &&& final(self).duration_summary@ == old(self).duration_summary@.insert(
                        bucket_key(duration as nat),
                        (count_of(old(self).duration_summary@, bucket_key(duration as nat))
                            + 1) as usize,
                    )
                    &&& final(self).url == Some(url)
                },
                WorkResult::Fail => {
                    &&& final(self).success == old(self).success
                    &&& final(self).failed == old(self).failed + 1
                    &&& final(self).timed_out == old(self).timed_out
                    &&& final(self).status_code_summary@ == old(self).status_code_summary@
                    &&& final(self).duration_summary@ == old(self).duration_summary@
                    &&& final(self).url == old(self).url
                },
                WorkResult::TimeOut => {
                    &&& final(self).success == old(self).success
                    &&& final(self).failed == old(self).failed
                    &&& final(self).timed_out == old(self).timed_out + 1
                    &&& final(self).status_code_summary@ == old(self).status_code_summary@
                    &&& final(self).duration_summary@ == old(self).duration_summary@
                    &&& final(self).url == old(self).url
                },
            },
    {
        match wr {
            WorkResult::Success { status_code, duration, url } => {
                proof {
                    lemma_count_le_sum(self.status_code_summary@, status_code);
                    lemma_count_le_sum(self.duration_summary@, bucket_key(duration as nat));
                    lemma_count_sum_bump(self.status_code_summary@, status_code);
                    lemma_count_sum_bump(self.duration_summary@, bucket_key(duration as nat));
                }
                self.success = self.success + 1;
                let code_count: usize = match self.status_code_summary.get(&status_code) {
                    Some(c) => *c,
                    None => 0,
                };
                self.status_code_summary.insert(status_code, code_count + 1);
                let bucket = Result::truncate_duration(duration);
                let bucket_count: usize = match self.duration_summary.get(&bucket) {
                    Some(c) => *c,
                    None => 0,
                };
                self.duration_summary.insert(bucket, bucket_count + 1);
                self.url = Some(url);
            },
            WorkResult::Fail => self.failed = self.failed + 1,
            WorkResult::TimeOut => self.timed_out = self.timed_out + 1,
        }
    }

    /// Number of outcomes folded so far.
    pub fn total(&self) -> (r: usize)
        requires
            self.wf(),
        ensures
            r == self.success + self.failed + self.timed_out,
    {
        self.success + self.failed + self.timed_out
    }

    /// The URL that last answered, or the empty string where none did.
    pub fn url_str(&self) -> (r: String)
        ensures
            r@ == match self.url {
                Some(u) => u@,
                None => Seq::<char>::empty(),
            },
    {
        match &self.url {
            Some(u) => u.clone(),
            None => String::new(),
        }
    }
}

} // verus!
