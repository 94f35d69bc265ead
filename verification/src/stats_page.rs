//! The statistics dashboard: health, usage and runs of one window, each in a
//! table, under a selector of the window.

use crate::config::{SiteConfig, SiteModel};
use crate::index_page::{render_stylesheet_link, stylesheet_link};
use crate::markup::{
    CELL_BREAK, HEALTH_EMPTY, HEALTH_TABLE_OPEN, PAGE_OPEN, PERIODS_OPEN, PERIOD_ACTIVE,
    PERIOD_BREAK, PERIOD_CLOSE, PERIOD_LABEL_OPEN, PERIOD_OPEN, PERIOD_TARGET_CLOSE, RATE_BAD,
    RATE_CELL_OPEN, RATE_CLASS_CLOSE, RATE_CLOSE, RATE_GOOD, RATE_WARN, ROW_CLOSE, ROW_OPEN,
    RUNS_EMPTY, RUNS_TABLE_OPEN, STATS_CLOSE, STATS_STYLE, STATS_TITLE_PREFIX, TITLE_CLOSE,
    TOTAL_CELL_OPEN, TOTAL_CLOSE, USAGE_EMPTY, USAGE_TABLE_OPEN,
};
use crate::stats::{DigestRun, DigestRunModel, SourceHealth, SourceHealthModel, StatsData};
use crate::numeral::{decimal, push_decimal};
use crate::text::{join, joined, texts};
use crate::usage::{
    aggregate_usage, all_wf, descending, is_tally, totals_models, usage_models, UsageTotals,
    UsageTotalsModel,
};
use vstd::prelude::*;
use vstd::string::*;

verus! {

/// The windows that the selector offers, in days.
pub const PERIODS: [u32; 3] = [7, 30, 90];

/// A rate from which a source counts as good.
pub const GOOD_FROM: i64 = 95;

/// A rate from which a source counts as fair.
pub const WARN_FROM: i64 = 80;

/// The link of the selector to the window of `period` days, marked if that
/// is the window shown.
pub open spec fn period_link(period: int, shown: int) -> Seq<char> {
    PERIOD_OPEN@ + decimal(period) + PERIOD_TARGET_CLOSE@ + (if period == shown {
        PERIOD_ACTIVE@
    } else {
        Seq::empty()
    }) + PERIOD_LABEL_OPEN@ + decimal(period) + PERIOD_CLOSE@
}

/// The links of the selector.
pub open spec fn period_links(shown: int) -> Seq<char> {
    joined(PERIODS@.map_values(|p: u32| period_link(p as int, shown)), PERIOD_BREAK@)
}

/// The class that colours a rate.
pub open spec fn rate_class(pct: int) -> Seq<char> {
    if pct >= GOOD_FROM {
        RATE_GOOD@
    } else if pct >= WARN_FROM {
        RATE_WARN@
    } else {
        RATE_BAD@
    }
}

/// The row of a source in the health table.
pub open spec fn health_row(h: SourceHealthModel) -> Seq<char> {
    ROW_OPEN@ + h.source_id + CELL_BREAK@ + decimal(h.total_fetches) + CELL_BREAK@ + decimal(
        h.successes,
    ) + RATE_CELL_OPEN@ + rate_class(h.success_rate_pct) + RATE_CLASS_CLOSE@ + decimal(
        h.success_rate_pct,
    ) + RATE_CLOSE@ + ROW_CLOSE@
}

/// The row of a source in the usage table.
pub open spec fn usage_row(e: UsageTotalsModel) -> Seq<char> {
    ROW_OPEN@ + e.source_id + CELL_BREAK@ + decimal(e.must_know) + CELL_BREAK@ + decimal(
        e.should_know,
    ) + CELL_BREAK@ + decimal(e.other) + TOTAL_CELL_OPEN@ + decimal(e.total()) + TOTAL_CLOSE@
        + ROW_CLOSE@
}

/// The row of a run in the runs table.
pub open spec fn run_row(r: DigestRunModel) -> Seq<char> {
    ROW_OPEN@ + r.run_at + CELL_BREAK@ + decimal(r.articles_fetched) + CELL_BREAK@ + decimal(
        r.articles_emailed,
    ) + ROW_CLOSE@
}

/// The body of a table: its rows one after the other, or the placeholder
/// where there is no row.
pub open spec fn table_body(rows: Seq<Seq<char>>, placeholder: Seq<char>) -> Seq<char> {
    if rows.len() == 0 {
        placeholder
    } else {
        joined(rows, Seq::empty())
    }
}

/// The models of a sequence of health records.
pub open spec fn health_models(rows: Seq<SourceHealth>) -> Seq<SourceHealthModel> {
    rows.map_values(|h: SourceHealth| h@)
}

/// The models of a sequence of runs.
pub open spec fn run_models(rows: Seq<DigestRun>) -> Seq<DigestRunModel> {
    rows.map_values(|r: DigestRun| r@)
}

/// The statistics page.
pub open spec fn stats_page(
    site: SiteModel,
    period_days: int,
    health: Seq<SourceHealthModel>,
    usage: Seq<UsageTotalsModel>,
    runs: Seq<DigestRunModel>,
) -> Seq<char> {
    PAGE_OPEN@ + STATS_TITLE_PREFIX@ + site.digest_name + TITLE_CLOSE@ + stylesheet_link(
        site.css_url,
    ) + STATS_STYLE@ + decimal(period_days) + PERIODS_OPEN@ + period_links(period_days)
        + HEALTH_TABLE_OPEN@ + table_body(
        health.map_values(|h: SourceHealthModel| health_row(h)),
        HEALTH_EMPTY@,
    ) + USAGE_TABLE_OPEN@ + table_body(
        usage.map_values(|e: UsageTotalsModel| usage_row(e)),
        USAGE_EMPTY@,
    ) + RUNS_TABLE_OPEN@ + table_body(
        runs.map_values(|r: DigestRunModel| run_row(r)),
        RUNS_EMPTY@,
    ) + STATS_CLOSE@
}

/// The link of the selector to the window of `period` days.
fn render_period_link(period: u32, shown: u32) -> (r: String)
    ensures
        r@ == period_link(period as int, shown as int),
{
    let mut r = PERIOD_OPEN.to_owned();
    push_decimal(&mut r, period as i128);
    r.append(PERIOD_TARGET_CLOSE);
    let ghost before = r@;
    if period == shown {
        r.append(PERIOD_ACTIVE);
    }
    assert(r@ =~= before + (if period == shown {
        PERIOD_ACTIVE@
    } else {
        Seq::empty()
    }));
    r.append(PERIOD_LABEL_OPEN);
    push_decimal(&mut r, period as i128);
    r.append(PERIOD_CLOSE);
    r
}

/// The links of the selector.
fn render_period_links(shown: u32) -> (r: String)
    ensures
        r@ == period_links(shown as int),
{
    let ghost want = PERIODS@.map_values(|p: u32| period_link(p as int, shown as int));
    let mut links: Vec<String> = Vec::new();
    let mut i: usize = 0;
    while i < 3
        invariant
            i <= 3,
            links.len() == i,
            want == PERIODS@.map_values(|p: u32| period_link(p as int, shown as int)),
            want.len() == 3,
            forall|k: int| 0 <= k < i ==> #[trigger] texts(links@)[k] == want[k],
        decreases 3 - i,
    {
        let ghost before = texts(links@);
        links.push(render_period_link(PERIODS[i], shown));
        assert forall|k: int| 0 <= k < i + 1 implies #[trigger] texts(links@)[k] == want[k] by {
            if k < i {
                assert(texts(links@)[k] == before[k]);
            }
        }
        i += 1;
    }
    assert(texts(links@) =~= want);
    join(&links, PERIOD_BREAK)
}

/// The class that colours a rate.
fn rate_class_of(pct: i64) -> (class: &'static str)
    ensures
        class@ == rate_class(pct as int),
{
    if pct >= GOOD_FROM {
        RATE_GOOD
    } else if pct >= WARN_FROM {
        RATE_WARN
    } else {
        RATE_BAD
    }
}

/// The row of a source in the health table.
fn render_health_row(h: &SourceHealth) -> (r: String)
    ensures
        r@ == health_row(h@),
{
    let mut r = ROW_OPEN.to_owned();
    r.append(h.source_id.as_str());
    r.append(CELL_BREAK);
    push_decimal(&mut r, h.total_fetches as i128);
    r.append(CELL_BREAK);
    push_decimal(&mut r, h.successes as i128);
    r.append(RATE_CELL_OPEN);
    r.append(rate_class_of(h.success_rate_pct));
    r.append(RATE_CLASS_CLOSE);
    push_decimal(&mut r, h.success_rate_pct as i128);
    r.append(RATE_CLOSE);
    r.append(ROW_CLOSE);
    r
}

/// The row of a source in the usage table.
fn render_usage_row(e: &UsageTotals) -> (r: String)
    requires
        e@.wf(),
    ensures
        r@ == usage_row(e@),
{
    let mut r = ROW_OPEN.to_owned();
    r.append(e.source_id.as_str());
    r.append(CELL_BREAK);
    push_decimal(&mut r, e.must_know);
    r.append(CELL_BREAK);
    push_decimal(&mut r, e.should_know);
    r.append(CELL_BREAK);
    push_decimal(&mut r, e.other);
    r.append(TOTAL_CELL_OPEN);
    push_decimal(&mut r, e.total());
    r.append(TOTAL_CLOSE);
    r.append(ROW_CLOSE);
    r
}

/// The row of a run in the runs table.
fn render_run_row(run: &DigestRun) -> (r: String)
    ensures
        r@ == run_row(run@),
{
    let mut r = ROW_OPEN.to_owned();
    r.append(run.run_at.as_str());
    r.append(CELL_BREAK);
    push_decimal(&mut r, run.articles_fetched as i128);
    r.append(CELL_BREAK);
    push_decimal(&mut r, run.articles_emailed as i128);
    r.append(ROW_CLOSE);
    r
}

/// The body of a table from its rows.
fn render_table_body(rows: &Vec<String>, placeholder: &str) -> (r: String)
    ensures
        r@ == table_body(texts(rows@), placeholder@),
{
    if rows.len() == 0 {
        placeholder.to_owned()
    } else {
        proof {
            reveal_strlit("");
            assert(""@ =~= Seq::<char>::empty());
        }
        join(rows, "")
    }
}

/// The body of the health table.
fn render_health_body(health: &Vec<SourceHealth>) -> (r: String)
    ensures
        r@ == table_body(
            health_models(health@).map_values(|h: SourceHealthModel| health_row(h)),
            HEALTH_EMPTY@,
        ),
{
    let ghost want = health_models(health@).map_values(|h: SourceHealthModel| health_row(h));
    let mut rows: Vec<String> = Vec::new();
    let mut i: usize = 0;
    while i < health.len()
        invariant
            i <= health.len(),
            rows.len() == i,
            want == health_models(health@).map_values(|h: SourceHealthModel| health_row(h)),
            forall|k: int| 0 <= k < i ==> #[trigger] texts(rows@)[k] == want[k],
        decreases health.len() - i,
    {
        let ghost before = texts(rows@);
        rows.push(render_health_row(&health[i]));
        assert forall|k: int| 0 <= k < i + 1 implies #[trigger] texts(rows@)[k] == want[k] by {
            if k < i {
                assert(texts(rows@)[k] == before[k]);
            }
        }
        i += 1;
    }
    assert(texts(rows@) =~= want);
    render_table_body(&rows, HEALTH_EMPTY)
}

/// The body of the usage table.
fn render_usage_body(usage: &Vec<UsageTotals>) -> (r: String)
    requires
        all_wf(totals_models(usage@)),
    ensures
        r@ == table_body(
            totals_models(usage@).map_values(|e: UsageTotalsModel| usage_row(e)),
            USAGE_EMPTY@,
        ),
{
    let ghost want = totals_models(usage@).map_values(|e: UsageTotalsModel| usage_row(e));
    let mut rows: Vec<String> = Vec::new();
    let mut i: usize = 0;
    while i < usage.len()
        invariant
            i <= usage.len(),
            rows.len() == i,
            all_wf(totals_models(usage@)),
            want == totals_models(usage@).map_values(|e: UsageTotalsModel| usage_row(e)),
            forall|k: int| 0 <= k < i ==> #[trigger] texts(rows@)[k] == want[k],
        decreases usage.len() - i,
    {
        let ghost before = texts(rows@);
        assert(totals_models(usage@)[i as int].wf());
        rows.push(render_usage_row(&usage[i]));
        assert forall|k: int| 0 <= k < i + 1 implies #[trigger] texts(rows@)[k] == want[k] by {
            if k < i {
                assert(texts(rows@)[k] == before[k]);
            }
        }
        i += 1;
    }
    assert(texts(rows@) =~= want);
    render_table_body(&rows, USAGE_EMPTY)
}

/// The body of the runs table.
fn render_runs_body(runs: &Vec<DigestRun>) -> (r: String)
    ensures
        r@ == table_body(run_models(runs@).map_values(|r: DigestRunModel| run_row(r)), RUNS_EMPTY@),
{
    let ghost want = run_models(runs@).map_values(|r: DigestRunModel| run_row(r));
    let mut rows: Vec<String> = Vec::new();
    let mut i: usize = 0;
    while i < runs.len()
        invariant
            i <= runs.len(),
            rows.len() == i,
            want == run_models(runs@).map_values(|r: DigestRunModel| run_row(r)),
            forall|k: int| 0 <= k < i ==> #[trigger] texts(rows@)[k] == want[k],
        decreases runs.len() - i,
    {
        let ghost before = texts(rows@);
        rows.push(render_run_row(&runs[i]));
        assert forall|k: int| 0 <= k < i + 1 implies #[trigger] texts(rows@)[k] == want[k] by {
            if k < i {
                assert(texts(rows@)[k] == before[k]);
            }
        }
        i += 1;
    }
    assert(texts(rows@) =~= want);
    render_table_body(&rows, RUNS_EMPTY)
}

/// The statistics page of `data`, with `usage` as the rows of its usage
/// table.
pub fn render_stats(config: &SiteConfig, data: &StatsData, usage: &Vec<UsageTotals>) -> (page:
    String)
    requires
        all_wf(totals_models(usage@)),
    ensures
        page@ == stats_page(
            config@,
            data.period_days as int,
            health_models(data.source_health@),
            totals_models(usage@),
            run_models(data.recent_runs@),
        ),
{
    let mut page = PAGE_OPEN.to_owned();
    page.append(STATS_TITLE_PREFIX);
    page.append(config.digest_name.as_str());
    page.append(TITLE_CLOSE);
    page.append(render_stylesheet_link(&config.css_url).as_str());
    page.append(STATS_STYLE);
    push_decimal(&mut page, data.period_days as i128);
    page.append(PERIODS_OPEN);
    page.append(render_period_links(data.period_days).as_str());
    page.append(HEALTH_TABLE_OPEN);
    page.append(render_health_body(&data.source_health).as_str());
    page.append(USAGE_TABLE_OPEN);
    page.append(render_usage_body(usage).as_str());
    page.append(RUNS_TABLE_OPEN);
    page.append(render_runs_body(&data.recent_runs).as_str());
    page.append(STATS_CLOSE);
    page
}

/// The statistics page of `data`. The rows of its usage table are the
/// per-source totals of the snapshot's usage rows, the most shown source
/// first.
pub fn render_stats_page(config: &SiteConfig, data: &StatsData) -> (page: String)
    ensures
        exists|usage: Seq<UsageTotalsModel>|
            {
                &&& is_tally(usage_models(data.source_usage@), usage)
                &&& descending(usage)
                &&& #[trigger] stats_page(
                    config@,
                    data.period_days as int,
                    health_models(data.source_health@),
                    usage,
                    run_models(data.recent_runs@),
                ) == page@
            },
{
    let usage = aggregate_usage(&data.source_usage);
    let page = render_stats(config, data, &usage);
    assert(stats_page(
        config@,
        data.period_days as int,
        health_models(data.source_health@),
        totals_models(usage@),
        run_models(data.recent_runs@),
    ) == page@);
    page
}

} // verus!
