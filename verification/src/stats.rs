//! Source reliability and usage statistics over a trailing window of days.

use vstd::prelude::*;

verus! {

/// Largest number of run records a snapshot carries.
pub const MAX_RECENT_RUNS: usize = 10;

/// Window size used when a request names none.
pub const DEFAULT_PERIOD_DAYS: u32 = 30;

/// Share of successful fetches in percent, rounded to the nearest whole
/// number with halves rounded up; zero when nothing was fetched.
pub open spec fn rate_pct(total_fetches: int, successes: int) -> int {
    if total_fetches > 0 {
        (200 * successes + total_fetches) / (2 * total_fetches)
    } else {
        0
    }
}

/// Counts that can come from tallying fetch attempts: the successful ones are
/// a part of all of them.
pub open spec fn counts_consistent(total_fetches: int, successes: int) -> bool {
    0 <= successes <= total_fetches
}

/// `rate_pct` is the whole number nearest to `100 * successes / total_fetches`
/// (a half rounds up), and lies between 0 and 100 for consistent counts.
pub proof fn lemma_rate_pct_is_nearest(total_fetches: int, successes: int)
    requires
        total_fetches > 0,
        counts_consistent(total_fetches, successes),
    ensures
        0 <= rate_pct(total_fetches, successes) <= 100,
        2 * rate_pct(total_fetches, successes) * total_fetches <= 200 * successes + total_fetches,
        200 * successes + total_fetches < 2 * (rate_pct(total_fetches, successes) + 1)
            * total_fetches,
{
    let n = 200 * successes + total_fetches;
    let d = 2 * total_fetches;
    let q = n / d;
    vstd::arithmetic::div_mod::lemma_fundamental_div_mod(n, d);
    vstd::arithmetic::div_mod::lemma_mod_bound(n, d);
    assert(d * (q + 1) == d * q + d) by (nonlinear_arith);
    assert(d * q == 2 * q * total_fetches) by (nonlinear_arith)
        requires
            d == 2 * total_fetches,
    ;
    assert(d * (q + 1) == 2 * (q + 1) * total_fetches) by (nonlinear_arith)
        requires
            d == 2 * total_fetches,
    ;
    assert(q >= 0) by (nonlinear_arith)
        requires
            n < d * (q + 1),
            n >= 0,
            d > 0,
    ;
    assert(q <= 100) by (nonlinear_arith)
        requires
            d * q <= n,
            n <= 201 * total_fetches,
            d == 2 * total_fetches,
            total_fetches > 0,
    ;
}

/// A source without any fetch has a success rate of exactly zero.
pub proof fn lemma_rate_pct_of_nothing(successes: int)
    ensures
        rate_pct(0, successes) == 0,
{
}

/// The success rate of a source in percent.
pub fn success_rate_pct(total_fetches: i64, successes: i64) -> (pct: i64)
    requires
        counts_consistent(total_fetches as int, successes as int),
    ensures
        pct == rate_pct(total_fetches as int, successes as int),
        0 <= pct <= 100,
        total_fetches == 0 ==> pct == 0,
{
    if total_fetches > 0 {
        proof {
            lemma_rate_pct_is_nearest(total_fetches as int, successes as int);
        }
        let n: u128 = 200 * (successes as u128) + (total_fetches as u128);
        let d: u128 = 2 * (total_fetches as u128);
        let q: u128 = n / d;
        q as i64
    } else {
        0
    }
}

/// Reliability of one source over the window.
#[derive(Clone, Debug)]
pub struct SourceHealth {
    pub source_id: String,
    pub total_fetches: i64,
    pub successes: i64,
    pub success_rate_pct: i64,
}

/// What a `SourceHealth` stands for.
pub struct SourceHealthModel {
    pub source_id: Seq<char>,
    pub total_fetches: int,
    pub successes: int,
    pub success_rate_pct: int,
}

impl View for SourceHealth {
    type V = SourceHealthModel;

    open spec fn view(&self) -> SourceHealthModel {
        SourceHealthModel {
            source_id: self.source_id@,
            total_fetches: self.total_fetches as int,
            successes: self.successes as int,
            success_rate_pct: self.success_rate_pct as int,
        }
    }
}

impl SourceHealthModel {
    /// The counts are consistent and the rate is the one they give.
    pub open spec fn wf(self) -> bool {
        &&& counts_consistent(self.total_fetches, self.successes)
        &&& self.success_rate_pct == rate_pct(self.total_fetches, self.successes)
    }
}

/// A well-formed health record has a rate between 0 and 100, and a rate of
/// zero when nothing was fetched.
pub proof fn lemma_health_rate_in_range(h: SourceHealthModel)
    requires
        h.wf(),
    ensures
        0 <= h.success_rate_pct <= 100,
        h.total_fetches == 0 ==> h.success_rate_pct == 0,
{
    if h.total_fetches > 0 {
        lemma_rate_pct_is_nearest(h.total_fetches, h.successes);
    }
}

impl SourceHealth {
    /// The health record of a source from its two tallies. Tallies that
    /// contradict each other give no record.
    pub fn from_counts(source_id: String, total_fetches: i64, successes: i64) -> (r: Option<
        SourceHealth,
    >)
        ensures
            r is Some <==> counts_consistent(total_fetches as int, successes as int),
            r matches Some(h) ==> {
                &&& h@.wf()
                &&& h.source_id == source_id
                &&& h.total_fetches == total_fetches
                &&& h.successes == successes
            },
    {
        if 0 <= successes && successes <= total_fetches {
            let success_rate_pct = success_rate_pct(total_fetches, successes);
            Some(SourceHealth { source_id, total_fetches, successes, success_rate_pct })
        } else {
            None
        }
    }
}

/// How often one source was shown in one tier.
#[derive(Clone, Debug)]
pub struct SourceUsage {
    pub source_id: String,
    pub tier: String,
    pub count: i64,
}

/// What a `SourceUsage` stands for.
pub struct SourceUsageModel {
    pub source_id: Seq<char>,
    pub tier: Seq<char>,
    pub count: int,
}

impl View for SourceUsage {
    type V = SourceUsageModel;

    open spec fn view(&self) -> SourceUsageModel {
        SourceUsageModel { source_id: self.source_id@, tier: self.tier@, count: self.count as int }
    }
}

/// One run of the digest pipeline.
#[derive(Clone, Debug)]
pub struct DigestRun {
    pub run_at: String,
    pub articles_fetched: i64,
    pub articles_emailed: i64,
}

/// What a `DigestRun` stands for.
pub struct DigestRunModel {
    pub run_at: Seq<char>,
    pub articles_fetched: int,
    pub articles_emailed: int,
}

impl View for DigestRun {
    type V = DigestRunModel;

    open spec fn view(&self) -> DigestRunModel {
        DigestRunModel {
            run_at: self.run_at@,
            articles_fetched: self.articles_fetched as int,
            articles_emailed: self.articles_emailed as int,
        }
    }
}

/// Everything the statistics views show for one window.
#[derive(Clone, Debug)]
pub struct StatsData {
    pub period_days: u32,
    pub source_health: Vec<SourceHealth>,
    pub source_usage: Vec<SourceUsage>,
    pub recent_runs: Vec<DigestRun>,
}

impl StatsData {
    /// The snapshot carries no more run records than `MAX_RECENT_RUNS`.
    pub open spec fn wf(&self) -> bool {
        self.recent_runs@.len() <= MAX_RECENT_RUNS
    }

    /// Puts the three query results of one window together. Of the runs, given
    /// most recent first, the snapshot keeps the first `MAX_RECENT_RUNS`.
    pub fn assemble(
        period_days: u32,
        source_health: Vec<SourceHealth>,
        source_usage: Vec<SourceUsage>,
        recent_runs: Vec<DigestRun>,
    ) -> (data: StatsData)
        ensures
            data.wf(),
            data.period_days == period_days,
            data.source_health == source_health,
            data.source_usage == source_usage,
            data.recent_runs@ == if recent_runs@.len() <= MAX_RECENT_RUNS {
                recent_runs@
            } else {
                recent_runs@.take(MAX_RECENT_RUNS as int)
            },
    {
        let mut recent_runs = recent_runs;
        recent_runs.truncate(MAX_RECENT_RUNS);
        StatsData { period_days, source_health, source_usage, recent_runs }
    }
}

/// The window a request asks for: its own, or `DEFAULT_PERIOD_DAYS`.
pub fn period_or_default(days: Option<u32>) -> (period: u32)
    ensures
        period == match days {
            Some(d) => d,
            None => DEFAULT_PERIOD_DAYS,
        },
{
    match days {
        Some(d) => d,
        None => DEFAULT_PERIOD_DAYS,
    }
}

} // verus!
