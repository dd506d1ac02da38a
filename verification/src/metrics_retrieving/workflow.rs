//! The metrics workflow, step by step: keep the deployments of the
//! timeframe, find where each one's changes start (asking for a commit
//! comparison where needed), and compute the metrics.
//!
//! Fetching deployments and comparing commits are done by the caller between
//! the steps; each step here is a function of what it is handed.

use vstd::prelude::*;
use crate::commit::Commit;
use crate::datetime::DateTimeRange;
use crate::deployments_fetcher::{
    BaseCommitShaOrRepositoryInfo, DeploymentLog, DeploymentsFetcher, DeploymentsFetcherError,
    DeploymentsFetcherParams,
};
use crate::sorting::{is_stable_sort_of, stable_sort_by_key};
use crate::two_commits_comparer::{
    debug_pair_text, pair_error_text, valid_sha_pair, TwoCommitsComparer, TwoCommitsComparerError,
    ValidatedCommitShaPair,
};
use super::frequency::{
    lemma_daily_summaries_cover_all, lemma_deployment_days_bounded, total_deploys, calculate_deployment_frequency, daily_summaries, frequency_label, get_deployment_performance2022,
    get_deployment_performance_label, is_daily_summary, is_frequency_of, survey_level,
    weekly_counts,
};
use super::lead_time::{
    calculate_lead_time, calculate_lead_time_median, deployment_of, known_lead_times,
    lead_time_parts, pick_first_commit, is_first_earliest,
};
use super::{
    Context, Deployment, DeploymentFrequencyPerformance, DeploymentLogWithFirstOperation,
    DeploymentPerformance, FirstCommitOrRepositoryInfo, FourKeysResult, RepositoryInfo,
    RetrieveFourKeysEvent, RetrieveFourKeysEventError, RetrieveFourKeysExecutionContext,
};
use crate::stats::median_doubled;

verus! {

broadcast use {vstd::seq_lib::group_seq_properties, vstd::seq_lib::group_filter_ensures};

/// The context of the metrics: the timeframe, the developer count and the
/// working days per week of the project.
pub fn context_of(execution_context: RetrieveFourKeysExecutionContext) -> (r: Context)
    ensures
        r.timeframe == execution_context.timeframe,
        r.developers == execution_context.project.developer_count,
        r.working_days_per_week_milli == execution_context.project.working_days_per_week_milli,
{
    Context {
        timeframe: execution_context.timeframe,
        developers: execution_context.project.developer_count,
        working_days_per_week_milli: execution_context.project.working_days_per_week_milli,
    }
}

/// The predicate "deployed within `timeframe`".
pub open spec fn log_within(timeframe: DateTimeRange) -> spec_fn(DeploymentLog) -> bool {
    |log: DeploymentLog| timeframe.includes(log.deployed_at)
}

/// The deployment records deployed within the timeframe, in order.
pub fn filter_logs_in_timeframe(logs: Vec<DeploymentLog>, timeframe: &DateTimeRange) -> (r: Vec<
    DeploymentLog,
>)
    ensures
        r@ == logs@.filter(log_within(*timeframe)),
{
    let ghost orig = logs@;
    let mut rest = logs;
    let mut out: Vec<DeploymentLog> = Vec::new();
    proof {
        reveal(Seq::filter);
        assert(orig.take(0) =~= Seq::<DeploymentLog>::empty());
    }
    while rest.len() > 0
        invariant
            0 <= orig.len() - rest@.len() <= orig.len(),
            rest@ == orig.skip(orig.len() - rest@.len()),
            out@ == orig.take(orig.len() - rest@.len()).filter(log_within(*timeframe)),
        decreases rest@.len(),
    {
        let ghost done = orig.len() - rest@.len();
        let log = rest.remove(0);
        proof {
            assert(log == orig[done]);
            assert(rest@ =~= orig.skip(done + 1));
            assert(orig.take(done + 1) =~= orig.take(done).push(log));
            assert(orig.take(done + 1).drop_last() =~= orig.take(done));
            reveal(Seq::filter);
        }
        if timeframe.is_include(&log.deployed_at) {
            out.push(log);
        }
    }
    proof {
        assert(orig.take(orig.len() as int) =~= orig);
    }
    out
}

/// How the start of a deployment's changes is found: by comparing the base
/// commit with the head commit, or known already.
#[derive(Debug, PartialEq, Eq)]
pub enum FirstOperationPlan {
    Compare(ValidatedCommitShaPair),
    Known(FirstCommitOrRepositoryInfo),
}

/// `plan` finds the start of `log`'s changes: a comparison of its base commit
/// with its head commit, or the repository's creation for the first deployment.
pub open spec fn is_plan_for(plan: FirstOperationPlan, log: DeploymentLog) -> bool {
    match log.base {
        BaseCommitShaOrRepositoryInfo::BaseCommitSha(sha) => plan matches FirstOperationPlan::Compare(
            p,
        ) && p.base_spec() == sha@ && p.head_spec() == log.head_commit.sha@,
        BaseCommitShaOrRepositoryInfo::RepositoryCreatedAt(t) => plan == FirstOperationPlan::Known(
            FirstCommitOrRepositoryInfo::RepositoryInfo(RepositoryInfo { created_at: t }),
        ),
    }
}

/// A deployment record can be planned unless its base hash and head hash are
/// not a valid pair (empty or equal).
pub open spec fn is_plannable(log: DeploymentLog) -> bool {
    log.base matches BaseCommitShaOrRepositoryInfo::BaseCommitSha(sha) ==> valid_sha_pair(
        sha@,
        log.head_commit.sha@,
    )
}

/// `e` refuses `log`, whose base hash and head hash make no valid pair: an
/// empty hash or else equal hashes, with the message that shows both.
pub open spec fn is_refusal_of(e: RetrieveFourKeysEventError, log: DeploymentLog) -> bool {
    &&& e matches RetrieveFourKeysEventError::InvalidCommitShaPair(pe)
    &&& log.base matches BaseCommitShaOrRepositoryInfo::BaseCommitSha(sha)
    &&& (pe is EmptyBaseOrHead <==> (sha@.len() == 0 || log.head_commit.sha@.len() == 0))
    &&& pair_error_text(pe) == debug_pair_text(sha@, log.head_commit.sha@)
}

/// How to find the start of a deployment's changes; refused when its base
/// hash and head hash do not make a valid pair.
pub fn plan_first_operation(log: &DeploymentLog) -> (r: Result<
    FirstOperationPlan,
    RetrieveFourKeysEventError,
>)
    ensures
        r is Ok <==> is_plannable(*log),
        r matches Ok(plan) ==> is_plan_for(plan, *log),
        r matches Err(e) ==> is_refusal_of(e, *log),
{
    match &log.base {
        BaseCommitShaOrRepositoryInfo::BaseCommitSha(sha) => {
            match ValidatedCommitShaPair::new(sha.clone(), log.head_commit.sha.clone()) {
                Ok(pair) => Ok(FirstOperationPlan::Compare(pair)),
                Err(e) => Err(RetrieveFourKeysEventError::InvalidCommitShaPair(e)),
            }
        },
        BaseCommitShaOrRepositoryInfo::RepositoryCreatedAt(created_at) => Ok(
            FirstOperationPlan::Known(
                FirstCommitOrRepositoryInfo::RepositoryInfo(RepositoryInfo { created_at: *created_at }),
            ),
        ),
    }
}

/// The start of a deployment's changes learnt from comparing its base with its
/// head: the earliest of the compared commits, or unknown when there are none.
pub open spec fn first_operation_of_compared(commits: Seq<Commit>, op: Option<FirstCommitOrRepositoryInfo>) -> bool {
    match op {
        None => commits.len() == 0,
        Some(FirstCommitOrRepositoryInfo::FirstCommit(c)) => exists|i: int|
            is_first_earliest(commits, i) && c == commits[i],
        Some(_) => false,
    }
}

/// The start of a deployment's changes from the commits that lie between its
/// base and its head: the earliest one (the first of those made at that time).
pub fn first_operation_from_compared(commits: &Vec<Commit>) -> (r: Option<FirstCommitOrRepositoryInfo>)
    ensures
        first_operation_of_compared(commits@, r),
{
    match pick_first_commit(commits) {
        Some(c) => Some(FirstCommitOrRepositoryInfo::FirstCommit(c)),
        None => None,
    }
}

/// The deployments of records with their start of changes, in order.
pub fn calculate_lead_times(items: Vec<DeploymentLogWithFirstOperation>) -> (r: Vec<Deployment>)
    ensures
        r@ == items@.map_values(|x: DeploymentLogWithFirstOperation| deployment_of(x)),
{
    let ghost orig = items@;
    let mut rest = items;
    let mut out: Vec<Deployment> = Vec::new();
    while rest.len() > 0
        invariant
            0 <= orig.len() - rest@.len() <= orig.len(),
            rest@ == orig.skip(orig.len() - rest@.len()),
            out@ =~= orig.take(orig.len() - rest@.len()).map_values(
                |x: DeploymentLogWithFirstOperation| deployment_of(x),
            ),
        decreases rest@.len(),
    {
        let ghost done = orig.len() - rest@.len();
        let item = rest.remove(0);
        proof {
            assert(item == orig[done]);
            assert(rest@ =~= orig.skip(done + 1));
        }
        out.push(calculate_lead_time(item));
    }
    proof {
        assert(orig.take(orig.len() as int) =~= orig);
    }
    out
}

/// The metrics of deployments sorted by time (`sorted`): the daily summaries,
/// the deployment frequency with its label and level, and the median lead time.
pub open spec fn is_four_keys_of(r: FourKeysResult, sorted: Seq<Deployment>, context: Context) -> bool {
    let f = r.performance.deployment_frequency;
    let lt = r.performance.lead_time_for_changes;
    &&& is_daily_summary(r.deployments@, sorted, context.timeframe)
    &&& is_frequency_of(f.value, sorted, context.timeframe)
    &&& f.label == frequency_label(f.value, context.working_days_per_week_milli as int)
    &&& f.performance == survey_level(f.label)
    &&& lt.total_seconds_doubled == median_doubled(known_lead_times(sorted))
    &&& (lt.days as int, lt.hours as int, lt.minutes as int, lt.seconds as int) == lead_time_parts(
        median_doubled(known_lead_times(sorted)),
    )
    &&& r.context == context
}

/// Computes the metrics of deployment records with their start of changes:
/// makes the deployments, sorts them by time (deployments at the same time
/// keep their order), and computes daily summaries, frequency and lead time.
pub fn summarize_four_keys(items: Vec<DeploymentLogWithFirstOperation>, context: Context) -> (r:
    FourKeysResult)
    ensures
        exists|sorted: Seq<Deployment>|
            is_stable_sort_of(
                sorted,
                items@.map_values(|x: DeploymentLogWithFirstOperation| deployment_of(x)),
            ) && is_four_keys_of(r, sorted, context),
{
    let deployments = calculate_lead_times(items);
    let sorted = stable_sort_by_key(deployments);
    let value = calculate_deployment_frequency(&sorted, &context);
    proof {
        let wc = weekly_counts(sorted@, context.timeframe);
        if wc.len() > 0 {
            crate::stats::lemma_median_within_bounds(wc, i64::MIN as int, i64::MAX as int);
        }
    }
    let label = get_deployment_performance_label(&value, &context);
    let performance = get_deployment_performance2022(&value, &label, &context);
    let deployment_frequency = DeploymentFrequencyPerformance { label, value, performance };
    let lead_time_for_changes = calculate_lead_time_median(&sorted);
    let deployments_by_day = daily_summaries(&sorted, &context.timeframe);
    let ghost sorted_view = sorted@;
    let r = FourKeysResult {
        deployments: deployments_by_day,
        context,
        performance: DeploymentPerformance { deployment_frequency, lead_time_for_changes },
    };
    proof {
        assert(is_four_keys_of(r, sorted_view, context));
    }
    r
}

/// Wraps the metrics in the event that reports them.
pub fn create_events(result: FourKeysResult) -> (r: Vec<RetrieveFourKeysEvent>)
    ensures
        r@.len() == 1,
        r@[0] == RetrieveFourKeysEvent::RetrieveFourKeys(result),
{
    let mut events: Vec<RetrieveFourKeysEvent> = Vec::new();
    events.push(RetrieveFourKeysEvent::RetrieveFourKeys(result));
    events
}

/// Whether the start of a record's changes is found by comparing its base
/// commit with its head commit.
pub open spec fn needs_compare(log: DeploymentLog) -> bool {
    log.base is BaseCommitSha
}

/// Where, among the answers of the comparisons, the answer for the `i`-th
/// record stands: the number of records before it that ask for a comparison.
pub open spec fn answer_index(kept: Seq<DeploymentLog>, i: int) -> int
    decreases i,
{
    if i <= 0 {
        0
    } else {
        answer_index(kept, i - 1) + if needs_compare(kept[i - 1]) {
            1int
        } else {
            0int
        }
    }
}

/// Whether the `i`-th record stops the computation: its hashes make no valid
/// pair, or the answer of its comparison is an error.
pub open spec fn fails_at(
    kept: Seq<DeploymentLog>,
    answers: Seq<Result<Vec<Commit>, TwoCommitsComparerError>>,
    i: int,
) -> bool {
    ||| !is_plannable(kept[i])
    ||| needs_compare(kept[i]) && answers[answer_index(kept, i)] is Err
}

/// No record before the `n`-th stops the computation.
pub open spec fn none_fails_before(
    kept: Seq<DeploymentLog>,
    answers: Seq<Result<Vec<Commit>, TwoCommitsComparerError>>,
    n: int,
) -> bool {
    forall|j: int| 0 <= j < n ==> !#[trigger] fails_at(kept, answers, j)
}

/// Every record that the computation reaches and that asks for a comparison
/// finds its answer.
pub open spec fn answers_suffice(
    kept: Seq<DeploymentLog>,
    answers: Seq<Result<Vec<Commit>, TwoCommitsComparerError>>,
) -> bool {
    forall|i: int|
        0 <= i < kept.len() && none_fails_before(kept, answers, i) && is_plannable(kept[i])
            && needs_compare(#[trigger] kept[i]) ==> answer_index(kept, i) < answers.len()
}

/// `op` is the start of the `i`-th record's changes: the repository's
/// creation for the first deployment, else what the answer of its comparison
/// gives (its earliest commit, or none for no commits).
pub open spec fn is_answered_operation(
    op: Option<FirstCommitOrRepositoryInfo>,
    kept: Seq<DeploymentLog>,
    answers: Seq<Result<Vec<Commit>, TwoCommitsComparerError>>,
    i: int,
) -> bool {
    match kept[i].base {
        BaseCommitShaOrRepositoryInfo::BaseCommitSha(_) => answers[answer_index(
            kept,
            i,
        )] matches Ok(commits) && first_operation_of_compared(commits@, op),
        BaseCommitShaOrRepositoryInfo::RepositoryCreatedAt(t) => op == Some(
            FirstCommitOrRepositoryInfo::RepositoryInfo(RepositoryInfo { created_at: t }),
        ),
    }
}

/// `items` are the records `kept`, in order, each with the start of changes
/// that its answer gives.
pub open spec fn with_answered_operations(
    items: Seq<DeploymentLogWithFirstOperation>,
    kept: Seq<DeploymentLog>,
    answers: Seq<Result<Vec<Commit>, TwoCommitsComparerError>>,
) -> bool {
    &&& items.len() == kept.len()
    &&& forall|i: int|
        0 <= i < items.len() ==> (#[trigger] items[i]).deployment_log == kept[i]
            && is_answered_operation(items[i].first_operation, kept, answers, i)
}

/// `res` holds the metrics of the deployment records `logs` for
/// `execution_context`, the comparisons being answered by `answers`: the
/// context of the project and timeframe, and the metrics of the records
/// deployed within the timeframe, each with its start of changes, sorted by time.
pub open spec fn is_four_keys_from_answers(
    res: FourKeysResult,
    logs: Seq<DeploymentLog>,
    answers: Seq<Result<Vec<Commit>, TwoCommitsComparerError>>,
    execution_context: RetrieveFourKeysExecutionContext,
) -> bool {
    let kept = logs.filter(log_within(execution_context.timeframe));
    &&& res.context.timeframe == execution_context.timeframe
    &&& res.context.developers == execution_context.project.developer_count
    &&& res.context.working_days_per_week_milli
        == execution_context.project.working_days_per_week_milli
    &&& exists|items: Seq<DeploymentLogWithFirstOperation>, sorted: Seq<Deployment>|
        {
            &&& with_answered_operations(items, kept, answers)
            &&& is_stable_sort_of(
                sorted,
                items.map_values(|x: DeploymentLogWithFirstOperation| deployment_of(x)),
            )
            &&& is_four_keys_of(res, sorted, res.context)
        }
}

/// `e` is the failure of the `i`-th record: the refusal of its hashes, or
/// the error that answered its comparison.
pub open spec fn is_failure_at(
    e: RetrieveFourKeysEventError,
    kept: Seq<DeploymentLog>,
    answers: Seq<Result<Vec<Commit>, TwoCommitsComparerError>>,
    i: int,
) -> bool {
    if !is_plannable(kept[i]) {
        is_refusal_of(e, kept[i])
    } else {
        answers[answer_index(kept, i)] matches Err(ce) && e
            == RetrieveFourKeysEventError::TwoCommitsCompare(ce)
    }
}

/// `r` is what computing the metrics of `logs` gives when the comparisons are
/// answered by `answers`: the records within the timeframe are taken in
/// order; the first that stops the computation gives the error; when none
/// does, the metrics.
pub open spec fn is_outcome_of_answers(
    r: Result<FourKeysResult, RetrieveFourKeysEventError>,
    logs: Seq<DeploymentLog>,
    answers: Seq<Result<Vec<Commit>, TwoCommitsComparerError>>,
    execution_context: RetrieveFourKeysExecutionContext,
) -> bool {
    let kept = logs.filter(log_within(execution_context.timeframe));
    match r {
        Ok(res) => none_fails_before(kept, answers, kept.len() as int)
            && is_four_keys_from_answers(res, logs, answers, execution_context),
        Err(e) => exists|i: int|
            0 <= i < kept.len() && none_fails_before(kept, answers, i) && #[trigger] fails_at(
                kept,
                answers,
                i,
            ) && is_failure_at(e, kept, answers, i),
    }
}

/// Answer positions grow along the records, by one past each record that
/// asks for a comparison.
proof fn lemma_answer_index_grows(kept: Seq<DeploymentLog>, i: int, j: int)
    requires
        0 <= i <= j,
    ensures
        answer_index(kept, i) <= answer_index(kept, j),
        i < j && needs_compare(kept[i]) ==> answer_index(kept, i) < answer_index(kept, j),
    decreases j - i,
{
    if i < j {
        lemma_answer_index_grows(kept, i, j - 1);
    }
}

/// `pair` asks to compare `log`'s base commit with its head commit.
pub open spec fn is_request_of(pair: ValidatedCommitShaPair, log: DeploymentLog) -> bool {
    &&& log.base matches BaseCommitShaOrRepositoryInfo::BaseCommitSha(sha)
    &&& pair.base_spec() == sha@
    &&& pair.head_spec() == log.head_commit.sha@
}

/// `r` are the comparisons that the records `kept` ask for, in order, up to
/// `stop`: the records before it make valid pairs, the one at it (if any)
/// does not.
pub open spec fn is_requests_until(r: Seq<ValidatedCommitShaPair>, kept: Seq<DeploymentLog>, stop: int) -> bool {
    &&& 0 <= stop <= kept.len()
    &&& forall|j: int| 0 <= j < stop ==> is_plannable(#[trigger] kept[j])
    &&& stop < kept.len() ==> !is_plannable(kept[stop])
    &&& r.len() == answer_index(kept, stop)
    &&& forall|j: int|
        0 <= j < stop && needs_compare(#[trigger] kept[j]) ==> answer_index(kept, j) < r.len()
            && is_request_of(r[answer_index(kept, j)], kept[j])
}

/// The comparisons that computing the metrics of `logs` asks for, in order:
/// one per record within the timeframe whose changes start at a base commit,
/// up to the first record whose hashes make no valid pair.
#[verifier::loop_isolation(false)]
pub fn comparison_requests(logs: &Vec<DeploymentLog>, timeframe: &DateTimeRange) -> (r: Vec<
    ValidatedCommitShaPair,
>)
    ensures
        exists|stop: int|
            #[trigger] is_requests_until(r@, logs@.filter(log_within(*timeframe)), stop),
        forall|answers: Seq<Result<Vec<Commit>, TwoCommitsComparerError>>|
            answers.len() >= r@.len() ==> #[trigger] answers_suffice(
                logs@.filter(log_within(*timeframe)),
                answers,
            ),
{
    let ghost kept = logs@.filter(log_within(*timeframe));
    let mut copy: Vec<DeploymentLog> = Vec::new();
    let mut n: usize = 0;
    while n < logs.len()
        invariant
            n <= logs@.len(),
            copy@ == logs@.take(n as int),
        decreases logs@.len() - n,
    {
        copy.push(logs[n].clone());
        n = n + 1;
        proof {
            assert(copy@ =~= logs@.take(n as int));
        }
    }
    proof {
        assert(logs@.take(logs@.len() as int) =~= logs@);
    }
    let kept_v = filter_logs_in_timeframe(copy, timeframe);
    let mut out: Vec<ValidatedCommitShaPair> = Vec::new();
    let mut i: usize = 0;
    while i < kept_v.len()
        invariant
            kept_v@ == kept,
            i <= kept.len(),
            forall|j: int| 0 <= j < i ==> is_plannable(#[trigger] kept[j]),
            out@.len() == answer_index(kept, i as int),
            forall|j: int|
                0 <= j < i && needs_compare(#[trigger] kept[j]) ==> answer_index(kept, j)
                    < out@.len() && is_request_of(out@[answer_index(kept, j)], kept[j]),
        decreases kept.len() - i,
    {
        let log = &kept_v[i];
        match plan_first_operation(log) {
            Err(_) => {
                proof {
                    lemma_requests_suffice(kept, out@.len() as int, i as int);
                    assert(is_requests_until(out@, kept, i as int));
                    assert(kept == logs@.filter(log_within(*timeframe)));
                    assert(is_requests_until(out@, logs@.filter(log_within(*timeframe)), i as int));
                }
                return out;
            },
            Ok(FirstOperationPlan::Compare(pair)) => {
                let ghost before = out@;
                assert(forall|j: int|
                    0 <= j < i && needs_compare(#[trigger] kept[j]) ==> answer_index(kept, j)
                        < before.len() && is_request_of(before[answer_index(kept, j)], kept[j]));
                out.push(pair);
                proof {
                    assert forall|j: int|
                        0 <= j <= i && needs_compare(#[trigger] kept[j]) implies answer_index(kept, j)
                        < out@.len() && is_request_of(out@[answer_index(kept, j)], kept[j]) by {
                        if j < i {
                            assert(answer_index(kept, j) < before.len());
                            lemma_answer_index_grows(kept, 0, j);
                            assert(out@[answer_index(kept, j)] == before[answer_index(kept, j)]);
                        }
                    }
                }
            },
            Ok(FirstOperationPlan::Known(_)) => {},
        }
        i = i + 1;
    }
    proof {
        lemma_requests_suffice(kept, out@.len() as int, kept.len() as int);
        assert(is_requests_until(out@, kept, kept.len() as int));
    }
    out
}

/// When the records before `stop` all make valid pairs, and the one at
/// `stop` (if any) does not, `answer_index(kept, stop)` answers suffice.
proof fn lemma_requests_suffice(kept: Seq<DeploymentLog>, count: int, stop: int)
    requires
        0 <= stop <= kept.len(),
        count == answer_index(kept, stop),
        stop < kept.len() ==> !is_plannable(kept[stop]),
    ensures
        forall|answers: Seq<Result<Vec<Commit>, TwoCommitsComparerError>>|
            answers.len() >= count ==> #[trigger] answers_suffice(kept, answers),
{
    assert forall|answers: Seq<Result<Vec<Commit>, TwoCommitsComparerError>>|
        answers.len() >= count implies #[trigger] answers_suffice(kept, answers) by {
        assert forall|i: int|
            0 <= i < kept.len() && none_fails_before(kept, answers, i) && is_plannable(kept[i])
                && needs_compare(#[trigger] kept[i]) implies answer_index(kept, i)
            < answers.len() by {
            if i > stop {
                assert(!fails_at(kept, answers, stop) ==> false);
            }
            assert(i < stop);
            lemma_answer_index_grows(kept, i, stop);
        }
    }
}

/// Computes the metrics of deployment records, the comparisons being
/// answered by `answers` (the answer for each record that asks for one, in
/// order, as `comparison_requests` lists them): keeps the records within the
/// timeframe; takes them in order, stopping at the first whose hashes make
/// no valid pair or whose comparison failed; and summarizes them.
#[verifier::loop_isolation(false)]
pub fn retrieve_four_keys_from_answers(
    logs: Vec<DeploymentLog>,
    answers: Vec<Result<Vec<Commit>, TwoCommitsComparerError>>,
    execution_context: RetrieveFourKeysExecutionContext,
) -> (r: Result<FourKeysResult, RetrieveFourKeysEventError>)
    requires
        answers_suffice(logs@.filter(log_within(execution_context.timeframe)), answers@),
    ensures
        is_outcome_of_answers(r, logs@, answers@, execution_context),
        (forall|i: int|
            0 <= i < logs@.filter(log_within(execution_context.timeframe)).len()
                ==> #[trigger] logs@.filter(log_within(execution_context.timeframe))[i].base
                is RepositoryCreatedAt) ==> r is Ok,
{
    let ghost ec = execution_context;
    let ghost ans = answers@;
    let ghost kept = logs@.filter(log_within(execution_context.timeframe));
    let context = context_of(execution_context);
    let kept_v = filter_logs_in_timeframe(logs, &context.timeframe);
    let mut rest = answers;
    let mut items: Vec<DeploymentLogWithFirstOperation> = Vec::new();
    let mut i: usize = 0;
    while i < kept_v.len()
        invariant
            kept_v@ == kept,
            answers_suffice(kept, ans),
            i <= kept.len(),
            items@.len() == i,
            0 <= ans.len() - rest@.len() <= ans.len(),
            ans.len() - rest@.len() == answer_index(kept, i as int),
            rest@ == ans.skip(ans.len() - rest@.len()),
            none_fails_before(kept, ans, i as int),
            forall|j: int|
                0 <= j < i ==> (#[trigger] items@[j]).deployment_log == kept[j]
                    && is_answered_operation(items@[j].first_operation, kept, ans, j),
        decreases kept.len() - i,
    {
        let ghost k = answer_index(kept, i as int);
        let log = &kept_v[i];
        let plan = match plan_first_operation(log) {
            Ok(plan) => plan,
            Err(e) => {
                proof {
                    assert(fails_at(kept, ans, i as int));
                    assert(is_failure_at(e, kept, ans, i as int));
                }
                return Err(e);
            },
        };
        let first_operation = match plan {
            FirstOperationPlan::Known(op) => Some(op),
            FirstOperationPlan::Compare(_pair) => {
                assert(k < ans.len());
                let answer = rest.remove(0);
                proof {
                    assert(answer == ans[k]);
                    assert(rest@ =~= ans.skip(k + 1));
                }
                match answer {
                    Ok(commits) => {
                        let op = first_operation_from_compared(&commits);
                        proof {
                            assert(!fails_at(kept, ans, i as int));
                        }
                        op
                    },
                    Err(e) => {
                        let err = RetrieveFourKeysEventError::TwoCommitsCompare(e);
                        proof {
                            assert(fails_at(kept, ans, i as int));
                            assert(is_failure_at(err, kept, ans, i as int));
                        }
                        return Err(err);
                    },
                }
            },
        };
        items.push(DeploymentLogWithFirstOperation { deployment_log: log.clone(), first_operation });
        proof {
            assert(!fails_at(kept, ans, i as int));
            assert(is_answered_operation(items@[i as int].first_operation, kept, ans, i as int));
        }
        i = i + 1;
    }
    let ghost items_view = items@;
    let result = summarize_four_keys(items, context);
    proof {
        assert(with_answered_operations(items_view, kept, ans));
    }
    Ok(result)
}

/// `r` is what computing the metrics of `logs` gives when `comparer` is asked
/// for the comparisons: each comparison that `comparison_requests` lists is
/// answered by what `comparer.compare` gave for it, and `r` is the outcome of
/// those answers.
pub open spec fn is_outcome_of_comparer<C: TwoCommitsComparer>(
    r: Result<FourKeysResult, RetrieveFourKeysEventError>,
    logs: Seq<DeploymentLog>,
    comparer: &C,
    execution_context: RetrieveFourKeysExecutionContext,
) -> bool {
    exists|
        requests: Seq<ValidatedCommitShaPair>,
        stop: int,
        answers: Seq<Result<Vec<Commit>, TwoCommitsComparerError>>,
    |
        {
            &&& #[trigger] is_requests_until(
                requests,
                logs.filter(log_within(execution_context.timeframe)),
                stop,
            )
            &&& answers.len() == requests.len()
            &&& forall|k: int|
                0 <= k < answers.len() ==> call_ensures(
                    C::compare,
                    (comparer, requests[k]),
                    #[trigger] answers[k],
                )
            &&& #[trigger] is_outcome_of_answers(r, logs, answers, execution_context)
        }
}

/// Computes the metrics of fetched deployment records, asking `comparer` for
/// each comparison that `comparison_requests` lists, in order; then proceeds
/// as `retrieve_four_keys_from_answers` with the answers it gave.
pub fn retrieve_four_keys_from_logs<C: TwoCommitsComparer>(
    logs: Vec<DeploymentLog>,
    comparer: &C,
    execution_context: RetrieveFourKeysExecutionContext,
) -> (r: Result<FourKeysResult, RetrieveFourKeysEventError>)
    ensures
        is_outcome_of_comparer(r, logs@, comparer, execution_context),
        (forall|i: int|
            0 <= i < logs@.filter(log_within(execution_context.timeframe)).len()
                ==> #[trigger] logs@.filter(log_within(execution_context.timeframe))[i].base
                is RepositoryCreatedAt) ==> r is Ok,
{
    let requests = comparison_requests(&logs, &execution_context.timeframe);
    let ghost reqs = requests@;
    let ghost stop = choose|stop: int|
        #[trigger] is_requests_until(
            reqs,
            logs@.filter(log_within(execution_context.timeframe)),
            stop,
        );
    let mut pending = requests;
    let mut answers: Vec<Result<Vec<Commit>, TwoCommitsComparerError>> = Vec::new();
    while pending.len() > 0
        invariant
            answers@.len() + pending@.len() == reqs.len(),
            pending@ == reqs.skip(answers@.len() as int),
            forall|k: int|
                0 <= k < answers@.len() ==> call_ensures(
                    C::compare,
                    (comparer, reqs[k]),
                    #[trigger] answers@[k],
                ),
        decreases pending@.len(),
    {
        let ghost k = answers@.len() as int;
        let pair = pending.remove(0);
        proof {
            assert(pair == reqs[k]);
            assert(pending@ =~= reqs.skip(k + 1));
        }
        let answer = comparer.compare(pair);
        answers.push(answer);
    }
    let r = retrieve_four_keys_from_answers(logs, answers, execution_context);
    proof {
        assert(is_requests_until(reqs, logs@.filter(log_within(execution_context.timeframe)), stop));
    }
    r
}

/// What the metrics workflow asks the deployment source for: the deployments
/// of the context's timeframe.
pub open spec fn fetch_params_of(execution_context: RetrieveFourKeysExecutionContext) -> DeploymentsFetcherParams {
    DeploymentsFetcherParams { timeframe: execution_context.timeframe }
}

/// What the metrics workflow asks the deployment source for.
pub fn fetch_params(execution_context: &RetrieveFourKeysExecutionContext) -> (r:
    DeploymentsFetcherParams)
    ensures
        r == fetch_params_of(*execution_context),
{
    DeploymentsFetcherParams { timeframe: execution_context.timeframe }
}

/// The metrics workflow: fetch deployments, find where their changes start,
/// and report the metrics.
pub struct RetrieveFourKeysWorkflow<F: DeploymentsFetcher, C: TwoCommitsComparer> {
    pub deployments_fetcher: F,
    pub two_commits_comparer: C,
}

impl<F: DeploymentsFetcher, C: TwoCommitsComparer> RetrieveFourKeysWorkflow<F, C> {
    /// Fetches the deployments of the context's timeframe and reports their
    /// metrics in one event, as `retrieve_four_keys_from_logs` computes them
    /// with the workflow's comparer; a failed fetch is returned as such.
    pub fn retrieve_four_keys(self, execution_context: RetrieveFourKeysExecutionContext) -> (r: Result<
        Vec<RetrieveFourKeysEvent>,
        RetrieveFourKeysEventError,
    >)
        ensures
            exists|fetched: Result<Vec<DeploymentLog>, DeploymentsFetcherError>|
                {
                    &&& #[trigger] call_ensures(
                        F::fetch,
                        (&self.deployments_fetcher, fetch_params_of(execution_context)),
                        fetched,
                    )
                    &&& match fetched {
                        Err(fe) => r == Err::<Vec<RetrieveFourKeysEvent>, RetrieveFourKeysEventError>(
                            RetrieveFourKeysEventError::FetchDeployments(fe),
                        ),
                        Ok(logs) => match r {
                            Ok(events) => {
                                &&& events@.len() == 1
                                &&& events@[0] matches RetrieveFourKeysEvent::RetrieveFourKeys(res)
                                    && is_outcome_of_comparer(
                                    Ok(res),
                                    logs@,
                                    &self.two_commits_comparer,
                                    execution_context,
                                )
                            },
                            Err(e) => is_outcome_of_comparer(
                                Err(e),
                                logs@,
                                &self.two_commits_comparer,
                                execution_context,
                            ),
                        },
                    }
                },
    {
        let params = fetch_params(&execution_context);
        let fetched = self.deployments_fetcher.fetch(params);
        let logs = match fetched {
            Ok(logs) => logs,
            Err(e) => {
                return Err(RetrieveFourKeysEventError::FetchDeployments(e));
            },
        };
        match retrieve_four_keys_from_logs(logs, &self.two_commits_comparer, execution_context) {
            Ok(result) => Ok(create_events(result)),
            Err(e) => Err(e),
        }
    }
}

/// The metrics of deployment records count each record of the timeframe
/// once: the total deployments is the number of records deployed within the
/// timeframe, and the daily summaries' deploys add up to it. The days with a
/// deployment are no more than the deployments.
pub proof fn lemma_four_keys_count_each_deployment(
    res: FourKeysResult,
    logs: Seq<DeploymentLog>,
    answers: Seq<Result<Vec<Commit>, TwoCommitsComparerError>>,
    execution_context: RetrieveFourKeysExecutionContext,
)
    requires
        is_four_keys_from_answers(res, logs, answers, execution_context),
        execution_context.timeframe.is_ordered(),
        logs.filter(log_within(execution_context.timeframe)).len() <= u32::MAX,
    ensures
        res.performance.deployment_frequency.value.deployment_days
            <= res.performance.deployment_frequency.value.total_deployments,
        res.performance.deployment_frequency.value.total_deployments == logs.filter(
            log_within(execution_context.timeframe),
        ).len(),
        total_deploys(res.deployments@) == logs.filter(log_within(execution_context.timeframe)).len(),
{
    broadcast use {vstd::seq_lib::group_to_multiset_ensures, vstd::multiset::group_multiset_axioms};

    let tf = execution_context.timeframe;
    let kept = logs.filter(log_within(tf));
    let (items, sorted) = choose|items: Seq<DeploymentLogWithFirstOperation>, sorted: Seq<Deployment>|
        {
            &&& with_answered_operations(items, kept, answers)
            &&& is_stable_sort_of(
                sorted,
                items.map_values(|x: DeploymentLogWithFirstOperation| deployment_of(x)),
            )
            &&& is_four_keys_of(res, sorted, res.context)
        };
    let inp = items.map_values(|x: DeploymentLogWithFirstOperation| deployment_of(x));
    assert forall|i: int| 0 <= i < inp.len() implies tf.includes(#[trigger] inp[i].deployed_at) by {
        assert(items[i].deployment_log == kept[i]);
        assert(log_within(tf)(kept[i]));
    }
    assert(sorted.len() == inp.len()) by {
        assert(sorted.to_multiset().len() == inp.to_multiset().len());
    }
    assert forall|j: int| 0 <= j < sorted.len() implies tf.includes(#[trigger] sorted[j].deployed_at) by {
        assert(sorted.contains(sorted[j]));
        assert(sorted.to_multiset().count(sorted[j]) > 0);
        assert(inp.to_multiset().count(sorted[j]) > 0);
        assert(inp.contains(sorted[j]));
        let i = choose|i: int| 0 <= i < inp.len() && inp[i] == sorted[j];
        assert(tf.includes(inp[i].deployed_at));
    }
    lemma_daily_summaries_cover_all(res.deployments@, sorted, tf);
    lemma_deployment_days_bounded(sorted, tf);
}

} // verus!
