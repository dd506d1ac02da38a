//! Deployment frequency: deployments by day, week and month of the
//! timeframe, their medians, and the frequency label and level.

use vstd::prelude::*;
use crate::calendar::{chrono_year_month, in_month, lemma_month_follows_day, year_month_of_epoch_day};
use crate::datetime::{
    lemma_day_monotonic, lemma_week_start_monotonic, week_start, week_start_of, DateTimeRange,
    DateTimeUtc, SECONDS_PER_DAY, TIMESTAMP_LIMIT,
};
use crate::stats::{doubled_median, median_doubled};
use super::{
    Context, DailyDeploymentsSummary, Deployment, DeploymentFrequency, DeploymentFrequencyLabel,
    DeploymentFrequencyPerformanceSurvey2022,
};

verus! {

broadcast use {vstd::seq_lib::group_seq_properties, vstd::seq_lib::group_filter_ensures};

/// First calendar day of a timeframe.
pub open spec fn first_day(tf: DateTimeRange) -> int {
    tf.since_spec().day()
}

/// Last calendar day of a timeframe.
pub open spec fn last_day(tf: DateTimeRange) -> int {
    tf.until_spec().day()
}

/// The predicate "deployed on calendar day `d`".
pub open spec fn on_day(d: int) -> spec_fn(Deployment) -> bool {
    |x: Deployment| x.deployed_at.day() == d
}

/// The deployments of day `d`, in order.
pub open spec fn deployments_on(items: Seq<Deployment>, d: int) -> Seq<Deployment> {
    items.filter(on_day(d))
}

/// `r` holds one summary per calendar day of `tf`, in order, each with the
/// deployments of that day, in order, and their number.
pub open spec fn is_daily_summary(
    r: Seq<DailyDeploymentsSummary>,
    items: Seq<Deployment>,
    tf: DateTimeRange,
) -> bool {
    &&& r.len() == last_day(tf) - first_day(tf) + 1
    &&& forall|i: int|
        0 <= i < r.len() ==> {
            &&& (#[trigger] r[i]).date == first_day(tf) + i
            &&& r[i].items@ == deployments_on(items, first_day(tf) + i)
            &&& r[i].deploys == r[i].items@.len() as u32
        }
}

/// The deployments of calendar day `day`, in order.
pub fn deployments_of_day(items: &Vec<Deployment>, day: i64) -> (r: Vec<Deployment>)
    ensures
        r@ == deployments_on(items@, day as int),
{
    let mut out: Vec<Deployment> = Vec::new();
    let mut i: usize = 0;
    proof {
        reveal(Seq::filter);
        assert(items@.take(0) =~= Seq::<Deployment>::empty());
    }
    while i < items.len()
        invariant
            i <= items@.len(),
            out@ == items@.take(i as int).filter(on_day(day as int)),
        decreases items@.len() - i,
    {
        proof {
            assert(items@.take(i + 1) =~= items@.take(i as int).push(items@[i as int]));
            assert(items@.take(i + 1).drop_last() =~= items@.take(i as int));
            reveal(Seq::filter);
        }
        if items[i].deployed_at.date() == day {
            out.push(items[i].clone());
        }
        i = i + 1;
    }
    proof {
        assert(items@.take(items@.len() as int) =~= items@);
    }
    out
}

/// The calendar days of a timeframe, with what their ends are known to satisfy.
fn timeframe_days_bounds(tf: &DateTimeRange) -> (r: (i64, i64))
    ensures
        r.0 == first_day(*tf),
        r.1 == last_day(*tf),
        r.0 <= r.1,
        -TIMESTAMP_LIMIT <= r.0,
        r.1 <= TIMESTAMP_LIMIT,
{
    let since = tf.get_since();
    let until = tf.get_until();
    let d0 = since.date();
    let d1 = until.date();
    proof {
        lemma_day_monotonic(since.secs(), until.secs());
    }
    (d0, d1)
}

/// One summary per calendar day of the timeframe, in order, with that day's
/// deployments, in order (days without deployments included).
pub fn daily_summaries(items: &Vec<Deployment>, timeframe: &DateTimeRange) -> (r: Vec<
    DailyDeploymentsSummary,
>)
    ensures
        is_daily_summary(r@, items@, *timeframe),
{
    let (d0, d1) = timeframe_days_bounds(timeframe);
    let mut out: Vec<DailyDeploymentsSummary> = Vec::new();
    let mut d = d0;
    while d <= d1
        invariant
            d0 == first_day(*timeframe),
            d1 == last_day(*timeframe),
            d0 <= d <= d1 + 1,
            d1 <= TIMESTAMP_LIMIT,
            out@.len() == d - d0,
            forall|i: int|
                0 <= i < out@.len() ==> {
                    &&& (#[trigger] out@[i]).date == d0 + i
                    &&& out@[i].items@ == deployments_on(items@, d0 + i)
                    &&& out@[i].deploys == out@[i].items@.len() as u32
                },
        decreases d1 + 1 - d,
    {
        let day_items = deployments_of_day(items, d);
        let n = day_items.len();
        out.push(DailyDeploymentsSummary { date: d, deploys: n as u32, items: day_items });
        d = d + 1;
    }
    out
}

/// The number of days from `lo` to `hi` (both included) with at least one deployment.
pub open spec fn count_deployment_days(items: Seq<Deployment>, lo: int, hi: int) -> nat
    decreases hi - lo + 1,
{
    if hi < lo {
        0
    } else {
        count_deployment_days(items, lo, hi - 1) + (if deployments_on(items, hi).len() > 0 {
            1nat
        } else {
            0nat
        })
    }
}

/// The number of days of the timeframe with at least one deployment, counted
/// from the daily summaries.
pub fn count_days_with_deployments(
    summaries: &Vec<DailyDeploymentsSummary>,
    items: Ghost<Seq<Deployment>>,
    timeframe: Ghost<DateTimeRange>,
) -> (r: u64)
    requires
        is_daily_summary(summaries@, items@, timeframe@),
    ensures
        r == count_deployment_days(items@, first_day(timeframe@), last_day(timeframe@)),
{
    let ghost d0 = first_day(timeframe@);
    let mut count: u64 = 0;
    let mut i: usize = 0;
    while i < summaries.len()
        invariant
            is_daily_summary(summaries@, items@, timeframe@),
            d0 == first_day(timeframe@),
            i <= summaries@.len(),
            count == count_deployment_days(items@, d0, d0 + i - 1),
            count <= i,
        decreases summaries@.len() - i,
    {
        let s = &summaries[i];
        proof {
            assert(summaries@[i as int].date == d0 + i);
        }
        if s.items.len() > 0 {
            count = count + 1;
        }
        i = i + 1;
    }
    count
}

/// The predicate "deployed in the week that starts on day `w`".
pub open spec fn in_week(w: int) -> spec_fn(Deployment) -> bool {
    |x: Deployment| week_start(x.deployed_at.day()) == w
}

/// The Monday of the first week of a timeframe.
pub open spec fn first_week(tf: DateTimeRange) -> int {
    week_start(first_day(tf))
}

/// The number of weeks (Monday to Sunday) that a timeframe touches.
pub open spec fn week_count(tf: DateTimeRange) -> int {
    (week_start(last_day(tf)) - first_week(tf)) / 7 + 1
}

/// The number of deployments in each week that the timeframe touches, in order.
pub open spec fn weekly_counts(items: Seq<Deployment>, tf: DateTimeRange) -> Seq<i64> {
    Seq::new(
        week_count(tf) as nat,
        |k: int| items.filter(in_week(first_week(tf) + 7 * k)).len() as i64,
    )
}

/// 1 for a positive count, else 0.
pub open spec fn flag(count: i64) -> i64 {
    if count > 0 {
        1
    } else {
        0
    }
}

/// For each week that the timeframe touches: 1 when it has a deployment, else 0.
pub open spec fn weekly_flags(items: Seq<Deployment>, tf: DateTimeRange) -> Seq<i64> {
    weekly_counts(items, tf).map_values(|c: i64| flag(c))
}

/// The number of deployments in the week that starts on day `w`.
fn count_in_week(items: &Vec<Deployment>, w: i64) -> (r: i64)
    ensures
        r == items@.filter(in_week(w as int)).len() as i64,
{
    let mut n: usize = 0;
    let mut i: usize = 0;
    proof {
        reveal(Seq::filter);
        assert(items@.take(0) =~= Seq::<Deployment>::empty());
    }
    while i < items.len()
        invariant
            i <= items@.len(),
            n == items@.take(i as int).filter(in_week(w as int)).len(),
            n <= i,
        decreases items@.len() - i,
    {
        proof {
            assert(items@.take(i + 1) =~= items@.take(i as int).push(items@[i as int]));
            assert(items@.take(i + 1).drop_last() =~= items@.take(i as int));
            reveal(Seq::filter);
        }
        let day = items[i].deployed_at.date();
        if week_start_of(day) == w {
            n = n + 1;
        }
        i = i + 1;
    }
    proof {
        assert(items@.take(items@.len() as int) =~= items@);
    }
    n as i64
}

/// The number of deployments in each week (Monday to Sunday) that the
/// timeframe touches, in order.
pub fn weekly_deployment_counts(items: &Vec<Deployment>, timeframe: &DateTimeRange) -> (r: Vec<i64>)
    ensures
        r@ == weekly_counts(items@, *timeframe),
{
    let (d0, d1) = timeframe_days_bounds(timeframe);
    let w0 = week_start_of(d0);
    let w1 = week_start_of(d1);
    proof {
        lemma_week_start_monotonic(d0 as int, d1 as int);
        lemma_week_start_monotonic(d1 as int, d1 as int);
        assert((w1 - w0) % 7 == 0) by {
            vstd::arithmetic::div_mod::lemma_mod_sub_multiples_vanish(w1 - w0, 7);
            vstd::arithmetic::div_mod::lemma_fundamental_div_mod(w1 as int, 7);
            vstd::arithmetic::div_mod::lemma_fundamental_div_mod(w0 as int, 7);
            assert(w1 - w0 == 7 * (w1 / 7 - w0 / 7));
            vstd::arithmetic::div_mod::lemma_mod_multiples_basic(w1 / 7 - w0 / 7, 7);
        }
    }
    let ghost n = week_count(*timeframe);
    let mut out: Vec<i64> = Vec::new();
    let mut w = w0;
    while w <= w1
        invariant
            w0 == first_week(*timeframe),
            w1 == week_start(last_day(*timeframe)),
            w0 <= w1,
            (w1 - w0) % 7 == 0,
            w == w0 + 7 * out@.len(),
            w <= w1 + 7,
            w1 <= TIMESTAMP_LIMIT,
            forall|k: int|
                0 <= k < out@.len() ==> #[trigger] out@[k] == items@.filter(
                    in_week(w0 + 7 * k),
                ).len() as i64,
        decreases w1 + 7 - w,
    {
        let c = count_in_week(items, w);
        out.push(c);
        w = w + 7;
    }
    proof {
        assert(out@.len() == (w1 - w0) / 7 + 1) by {
            vstd::arithmetic::div_mod::lemma_fundamental_div_mod(w1 - w0, 7);
        }
        assert(out@ =~= weekly_counts(items@, *timeframe));
    }
    out
}

/// 1 for each positive count, 0 for the others.
pub fn flags_of_counts(counts: &Vec<i64>) -> (r: Vec<i64>)
    ensures
        r@ == counts@.map_values(|c: i64| flag(c)),
{
    let mut out: Vec<i64> = Vec::new();
    let mut i: usize = 0;
    while i < counts.len()
        invariant
            i <= counts@.len(),
            out@ =~= counts@.take(i as int).map_values(|c: i64| flag(c)),
        decreases counts@.len() - i,
    {
        out.push(if counts[i] > 0 {
            1
        } else {
            0
        });
        i = i + 1;
    }
    proof {
        assert(counts@.take(counts@.len() as int) =~= counts@);
    }
    out
}

/// The month of calendar day `d`, counted as `year * 12 + month - 1`, as chrono
/// tells it; `None` outside chrono's range.
pub open spec fn month_index_of_day(d: int) -> Option<int> {
    if i32::MIN <= d <= i32::MAX {
        match chrono_year_month(d as i32) {
            Some((y, m)) => Some(y * 12 + m - 1),
            None => None,
        }
    } else {
        None
    }
}

/// The month of calendar day `d`, counted as `year * 12 + month - 1`.
pub fn month_index_of(d: i64) -> (r: Option<i64>)
    ensures
        r matches Some(m) ==> month_index_of_day(d as int) == Some(m as int),
        r matches Some(m) ==> -0x1_0000_0000_0000 <= m <= 0x1_0000_0000_0000,
        r matches Some(m) ==> in_month(d as int, m as int),
        r is None ==> month_index_of_day(d as int) is None,
{
    if d < i32::MIN as i64 || d > i32::MAX as i64 {
        return None;
    }
    match year_month_of_epoch_day(d as i32) {
        Some((y, m)) => Some((y as i64) * 12 + (m as i64) - 1),
        None => None,
    }
}

/// Whether some deployment falls in month `m`.
pub open spec fn has_deployment_in_month(items: Seq<Deployment>, m: int) -> bool {
    exists|i: int| 0 <= i < items.len() && month_index_of_day(items[i].deployed_at.day()) == Some(m)
}

/// For each month (calendar month, as chrono tells it) that the timeframe
/// touches: 1 when it has a deployment, else 0. Empty when the months of the
/// timeframe's ends are unknown.
pub open spec fn monthly_flags(items: Seq<Deployment>, tf: DateTimeRange) -> Seq<i64> {
    match (month_index_of_day(first_day(tf)), month_index_of_day(last_day(tf))) {
        (Some(a), Some(b)) => if a <= b {
            Seq::new(
                (b - a + 1) as nat,
                |k: int|
                    if has_deployment_in_month(items, a + k) {
                        1i64
                    } else {
                        0i64
                    },
            )
        } else {
            Seq::<i64>::empty()
        },
        _ => Seq::<i64>::empty(),
    }
}

/// For each month that the timeframe touches: 1 when it has a deployment, else 0.
pub fn monthly_deployment_flags(items: &Vec<Deployment>, timeframe: &DateTimeRange) -> (r: Vec<i64>)
    ensures
        r@ == monthly_flags(items@, *timeframe),
        month_index_of_day(first_day(*timeframe)) matches Some(a) ==> in_month(first_day(*timeframe), a),
        month_index_of_day(last_day(*timeframe)) matches Some(b) ==> in_month(last_day(*timeframe), b),
        match (month_index_of_day(first_day(*timeframe)), month_index_of_day(last_day(*timeframe))) {
            (Some(a), Some(b)) => a <= b && r@.len() == b - a + 1,
            _ => true,
        },
{
    let (d0, d1) = timeframe_days_bounds(timeframe);
    let m0 = month_index_of(d0);
    let m1 = month_index_of(d1);
    proof {
        if m0 is Some && m1 is Some {
            lemma_month_follows_day(d0 as int, d1 as int, m0->0 as int, m1->0 as int);
        }
    }
    let mut item_months: Vec<Option<i64>> = Vec::new();
    let mut i: usize = 0;
    while i < items.len()
        invariant
            i <= items@.len(),
            item_months@.len() == i,
            forall|j: int|
                0 <= j < i ==> (#[trigger] item_months@[j] matches Some(m)
                    ==> month_index_of_day(items@[j].deployed_at.day()) == Some(m as int)) && (
                item_months@[j] is None ==> month_index_of_day(items@[j].deployed_at.day()) is None),
        decreases items@.len() - i,
    {
        let d = items[i].deployed_at.date();
        item_months.push(month_index_of(d));
        i = i + 1;
    }
    let mut out: Vec<i64> = Vec::new();
    match (m0, m1) {
        (Some(a), Some(b)) => {
            if a <= b {
                let mut m = a;
                while m <= b
                    invariant
                        a <= m <= b + 1,
                        b <= 0x1_0000_0000_0000,
                        m == a + out@.len(),
                        item_months@.len() == items@.len(),
                        forall|j: int|
                            0 <= j < items@.len() ==> (#[trigger] item_months@[j] matches Some(mm)
                                ==> month_index_of_day(items@[j].deployed_at.day()) == Some(
                                mm as int,
                            )) && (item_months@[j] is None ==> month_index_of_day(
                                items@[j].deployed_at.day(),
                            ) is None),
                        forall|k: int|
                            0 <= k < out@.len() ==> #[trigger] out@[k] == (if has_deployment_in_month(
                                items@,
                                a + k,
                            ) {
                                1i64
                            } else {
                                0i64
                            }),
                    decreases b + 1 - m,
                {
                    let mut found = false;
                    let mut j: usize = 0;
                    while j < item_months.len()
                        invariant
                            j <= item_months@.len(),
                            item_months@.len() == items@.len(),
                            forall|jj: int|
                                0 <= jj < items@.len() ==> (#[trigger] item_months@[jj] matches Some(
                                    mm,
                                ) ==> month_index_of_day(items@[jj].deployed_at.day()) == Some(
                                    mm as int,
                                )) && (item_months@[jj] is None ==> month_index_of_day(
                                    items@[jj].deployed_at.day(),
                                ) is None),
                            found == exists|jj: int|
                                0 <= jj < j && month_index_of_day(items@[jj].deployed_at.day())
                                    == Some(m as int),
                        decreases item_months@.len() - j,
                    {
                        if item_months[j] == Some(m) {
                            found = true;
                        }
                        proof {
                            if month_index_of_day(items@[j as int].deployed_at.day()) == Some(
                                m as int,
                            ) {
                                assert(item_months@[j as int] == Some(m));
                            }
                        }
                        j = j + 1;
                    }
                    out.push(if found {
                        1
                    } else {
                        0
                    });
                    m = m + 1;
                }
                proof {
                    assert(out@ =~= monthly_flags(items@, *timeframe));
                }
            }
        },
        _ => {},
    }
    proof {
        assert(out@ =~= monthly_flags(items@, *timeframe));
    }
    out
}

/// One monthly flag per calendar month that a timeframe touches: where chrono
/// puts the timeframe's first day in year `y0`, month `m0`, and its last day in
/// year `y1`, month `m1` (days that lie in those months of the calendar), the
/// flags hold `12 * (y1 - y0) + m1 - m0 + 1` entries, at least one, across a
/// change of year as within one; entry `k` is 1 exactly when a deployment falls
/// in the `k`-th month counted from `(y0, m0)`.
pub proof fn lemma_monthly_flags_one_per_month(
    items: Seq<Deployment>,
    tf: DateTimeRange,
    y0: i32,
    m0: u32,
    y1: i32,
    m1: u32,
)
    requires
        tf.is_ordered(),
        i32::MIN <= first_day(tf),
        last_day(tf) <= i32::MAX,
        chrono_year_month(first_day(tf) as i32) == Some((y0, m0)),
        chrono_year_month(last_day(tf) as i32) == Some((y1, m1)),
        in_month(first_day(tf), 12 * y0 + m0 - 1),
        in_month(last_day(tf), 12 * y1 + m1 - 1),
    ensures
        monthly_flags(items, tf).len() == 12 * (y1 - y0) + m1 - m0 + 1,
        monthly_flags(items, tf).len() >= 1,
        forall|k: int|
            0 <= k < monthly_flags(items, tf).len() ==> (#[trigger] monthly_flags(items, tf)[k] == 1
                <==> has_deployment_in_month(items, 12 * y0 + m0 - 1 + k)),
{
    lemma_day_monotonic(tf.since_spec().secs(), tf.until_spec().secs());
    lemma_month_follows_day(first_day(tf), last_day(tf), 12 * y0 + m0 - 1, 12 * y1 + m1 - 1);
}

/// Deployment frequency of deployments (sorted by time, within the
/// timeframe): their number, the days with a deployment, the timeframe's whole
/// days, and the doubled medians of weekly counts, of weeks with a deployment
/// and of months with a deployment.
pub open spec fn is_frequency_of(f: DeploymentFrequency, items: Seq<Deployment>, tf: DateTimeRange) -> bool {
    &&& f.total_deployments == items.len() as u32
    &&& f.deployment_days == count_deployment_days(items, first_day(tf), last_day(tf))
    &&& f.timeframe_days == (tf.until_spec().secs() - tf.since_spec().secs()) / (SECONDS_PER_DAY as int)
    &&& f.weekly_deployment_count_median_doubled == median_doubled(weekly_counts(items, tf))
    &&& f.week_deployed_median_doubled == median_doubled(weekly_flags(items, tf))
    &&& f.month_deployed_median_doubled == median_doubled(monthly_flags(items, tf))
}

/// Deployment frequency of `items` over the context's timeframe.
pub fn calculate_deployment_frequency(items: &Vec<Deployment>, context: &Context) -> (r: DeploymentFrequency)
    ensures
        is_frequency_of(r, items@, context.timeframe),
{
    let total_deployments = items.len() as u32;
    let summaries = daily_summaries(items, &context.timeframe);
    let deployment_days = count_days_with_deployments(&summaries, Ghost(items@), Ghost(context.timeframe));
    let timeframe_days = context.timeframe.num_days();
    let weekly_counts_v = weekly_deployment_counts(items, &context.timeframe);
    let weekly_flags_v = flags_of_counts(&weekly_counts_v);
    let monthly_flags_v = monthly_deployment_flags(items, &context.timeframe);
    let weekly_deployment_count_median_doubled = doubled_median(weekly_counts_v);
    let week_deployed_median_doubled = doubled_median(weekly_flags_v);
    let month_deployed_median_doubled = doubled_median(monthly_flags_v);
    DeploymentFrequency {
        total_deployments,
        deployment_days,
        timeframe_days,
        weekly_deployment_count_median_doubled,
        week_deployed_median_doubled,
        month_deployed_median_doubled,
    }
}

/// How often deployments happen: daily when the median weekly count exceeds
/// 3/5 of the working days per week, else weekly when most weeks have a
/// deployment, else monthly when most months do, else yearly.
pub open spec fn frequency_label(f: DeploymentFrequency, working_days_per_week_milli: int) -> DeploymentFrequencyLabel {
    if 5000 * f.weekly_deployment_count_median_doubled > 6 * working_days_per_week_milli {
        DeploymentFrequencyLabel::Daily
    } else if f.week_deployed_median_doubled >= 2 {
        DeploymentFrequencyLabel::Weekly
    } else if f.month_deployed_median_doubled >= 2 {
        DeploymentFrequencyLabel::Monthly
    } else {
        DeploymentFrequencyLabel::Yearly
    }
}

/// The frequency label: Daily, Weekly, Monthly or Yearly; see `frequency_label`.
pub fn get_deployment_performance_label(
    deployment_frequency: &DeploymentFrequency,
    context: &Context,
) -> (r: DeploymentFrequencyLabel)
    requires
        -0x1_0000_0000_0000_0000 <= deployment_frequency.weekly_deployment_count_median_doubled
            <= 0x1_0000_0000_0000_0000,
    ensures
        r == frequency_label(*deployment_frequency, context.working_days_per_week_milli as int),
{
    if 5000 * deployment_frequency.weekly_deployment_count_median_doubled > 6
        * (context.working_days_per_week_milli as i128) {
        DeploymentFrequencyLabel::Daily
    } else if deployment_frequency.week_deployed_median_doubled >= 2 {
        DeploymentFrequencyLabel::Weekly
    } else if deployment_frequency.month_deployed_median_doubled >= 2 {
        DeploymentFrequencyLabel::Monthly
    } else {
        DeploymentFrequencyLabel::Yearly
    }
}

/// The 2022 survey level of a frequency label: daily is High, weekly is
/// Medium, monthly and yearly are Low.
pub open spec fn survey_level(label: DeploymentFrequencyLabel) -> DeploymentFrequencyPerformanceSurvey2022 {
    match label {
        DeploymentFrequencyLabel::Daily => DeploymentFrequencyPerformanceSurvey2022::High,
        DeploymentFrequencyLabel::Weekly => DeploymentFrequencyPerformanceSurvey2022::Medium,
        _ => DeploymentFrequencyPerformanceSurvey2022::Low,
    }
}

/// Only a daily label is High and only a weekly label is Medium in the 2022
/// survey; the level of a monthly or a yearly label is Low.
pub proof fn lemma_survey_level_by_label(label: DeploymentFrequencyLabel)
    ensures
        survey_level(label) == DeploymentFrequencyPerformanceSurvey2022::High <==> label
            == DeploymentFrequencyLabel::Daily,
        survey_level(label) == DeploymentFrequencyPerformanceSurvey2022::Medium <==> label
            == DeploymentFrequencyLabel::Weekly,
        label == DeploymentFrequencyLabel::Monthly ==> survey_level(label)
            == DeploymentFrequencyPerformanceSurvey2022::Low,
        label == DeploymentFrequencyLabel::Yearly ==> survey_level(label)
            == DeploymentFrequencyPerformanceSurvey2022::Low,
{
}

/// The 2022 survey level of a frequency label; see `survey_level`.
pub fn get_deployment_performance2022(
    _deployment_frequency: &DeploymentFrequency,
    label: &DeploymentFrequencyLabel,
    _context: &Context,
) -> (r: DeploymentFrequencyPerformanceSurvey2022)
    ensures
        r == survey_level(*label),
        r == DeploymentFrequencyPerformanceSurvey2022::High <==> *label == DeploymentFrequencyLabel::Daily,
        r == DeploymentFrequencyPerformanceSurvey2022::Medium <==> *label
            == DeploymentFrequencyLabel::Weekly,
        *label == DeploymentFrequencyLabel::Monthly ==> r == DeploymentFrequencyPerformanceSurvey2022::Low,
        *label == DeploymentFrequencyLabel::Yearly ==> r == DeploymentFrequencyPerformanceSurvey2022::Low,
{
    match label {
        DeploymentFrequencyLabel::Daily => DeploymentFrequencyPerformanceSurvey2022::High,
        DeploymentFrequencyLabel::Weekly => DeploymentFrequencyPerformanceSurvey2022::Medium,
        _ => DeploymentFrequencyPerformanceSurvey2022::Low,
    }
}

/// The number of deployments on the days from `lo` to `hi` (both included).
pub open spec fn deployments_in_days(items: Seq<Deployment>, lo: int, hi: int) -> nat
    decreases hi - lo + 1,
{
    if hi < lo {
        0
    } else {
        deployments_in_days(items, lo, hi - 1) + deployments_on(items, hi).len()
    }
}

/// The deploys of daily summaries, added up.
pub open spec fn total_deploys(r: Seq<DailyDeploymentsSummary>) -> int
    decreases r.len(),
{
    if r.len() == 0 {
        0
    } else {
        total_deploys(r.drop_last()) + r.last().deploys
    }
}

proof fn lemma_days_empty(lo: int, hi: int)
    ensures
        deployments_in_days(Seq::<Deployment>::empty(), lo, hi) == 0,
    decreases hi - lo + 1,
{
    reveal(Seq::filter);
    if hi >= lo {
        lemma_days_empty(lo, hi - 1);
    }
}

proof fn lemma_days_push(items: Seq<Deployment>, x: Deployment, lo: int, hi: int)
    ensures
        deployments_in_days(items.push(x), lo, hi) == deployments_in_days(items, lo, hi) + if lo
            <= x.deployed_at.day() <= hi {
            1int
        } else {
            0int
        },
    decreases hi - lo + 1,
{
    if hi >= lo {
        lemma_days_push(items, x, lo, hi - 1);
        reveal(Seq::filter);
        assert(items.push(x).drop_last() =~= items);
    }
}

proof fn lemma_days_cover(items: Seq<Deployment>, lo: int, hi: int)
    requires
        forall|i: int| 0 <= i < items.len() ==> lo <= #[trigger] items[i].deployed_at.day() <= hi,
    ensures
        deployments_in_days(items, lo, hi) == items.len(),
    decreases items.len(),
{
    if items.len() == 0 {
        assert(items =~= Seq::<Deployment>::empty());
        lemma_days_empty(lo, hi);
    } else {
        let init = items.drop_last();
        let x = items.last();
        assert(x == items[items.len() - 1]);
        lemma_days_cover(init, lo, hi);
        lemma_days_push(init, x, lo, hi);
        assert(init.push(x) =~= items);
    }
}

proof fn lemma_count_days_bounded(items: Seq<Deployment>, lo: int, hi: int)
    ensures
        count_deployment_days(items, lo, hi) <= deployments_in_days(items, lo, hi),
        lo <= hi + 1 ==> count_deployment_days(items, lo, hi) <= hi - lo + 1,
    decreases hi - lo + 1,
{
    if hi >= lo {
        lemma_count_days_bounded(items, lo, hi - 1);
    }
}

proof fn lemma_summaries_prefix(r: Seq<DailyDeploymentsSummary>, items: Seq<Deployment>, tf: DateTimeRange, k: int)
    requires
        is_daily_summary(r, items, tf),
        0 <= k <= r.len(),
        items.len() <= u32::MAX,
    ensures
        total_deploys(r.take(k)) == deployments_in_days(items, first_day(tf), first_day(tf) + k - 1),
    decreases k,
{
    if k > 0 {
        lemma_summaries_prefix(r, items, tf, k - 1);
        assert(r.take(k).drop_last() =~= r.take(k - 1));
        let d = first_day(tf) + k - 1;
        assert(r[k - 1].date == d);
        items.lemma_filter_len(on_day(d));
        assert(r.take(k).last() == r[k - 1]);
    }
}

/// Within a timeframe, the calendar days of the instants it includes are
/// its days.
proof fn lemma_included_day(tf: DateTimeRange, t: DateTimeUtc)
    requires
        tf.includes(t),
    ensures
        first_day(tf) <= t.day() <= last_day(tf),
{
    lemma_day_monotonic(tf.since_spec().secs(), t.secs());
    lemma_day_monotonic(t.secs(), tf.until_spec().secs());
}

/// The daily summaries of deployments of the timeframe account for each of
/// them once: their deploys add up to the number of deployments.
pub proof fn lemma_daily_summaries_cover_all(
    r: Seq<DailyDeploymentsSummary>,
    items: Seq<Deployment>,
    tf: DateTimeRange,
)
    requires
        is_daily_summary(r, items, tf),
        forall|i: int| 0 <= i < items.len() ==> tf.includes(#[trigger] items[i].deployed_at),
        items.len() <= u32::MAX,
    ensures
        total_deploys(r) == items.len(),
{
    assert forall|i: int| 0 <= i < items.len() implies first_day(tf) <= #[trigger] items[i].deployed_at.day()
        <= last_day(tf) by {
        lemma_included_day(tf, items[i].deployed_at);
    }
    lemma_days_cover(items, first_day(tf), last_day(tf));
    lemma_summaries_prefix(r, items, tf, r.len() as int);
    assert(r.take(r.len() as int) =~= r);
}

/// Days with a deployment are no more than the deployments, nor than the
/// days of the timeframe.
pub proof fn lemma_deployment_days_bounded(items: Seq<Deployment>, tf: DateTimeRange)
    requires
        tf.is_ordered(),
        forall|i: int| 0 <= i < items.len() ==> tf.includes(#[trigger] items[i].deployed_at),
    ensures
        count_deployment_days(items, first_day(tf), last_day(tf)) <= items.len(),
        count_deployment_days(items, first_day(tf), last_day(tf)) <= last_day(tf) - first_day(tf) + 1,
{
    assert forall|i: int| 0 <= i < items.len() implies first_day(tf) <= #[trigger] items[i].deployed_at.day()
        <= last_day(tf) by {
        lemma_included_day(tf, items[i].deployed_at);
    }
    lemma_days_cover(items, first_day(tf), last_day(tf));
    lemma_count_days_bounded(items, first_day(tf), last_day(tf));
    lemma_day_monotonic(tf.since_spec().secs(), tf.until_spec().secs());
}

} // verus!
