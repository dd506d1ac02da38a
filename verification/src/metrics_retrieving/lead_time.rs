//! Lead time for changes: the first commit of a deployment, the lead time of
//! each deployment, and the median lead time.

use vstd::prelude::*;
use crate::commit::Commit;
use crate::sorting::Keyed;
use crate::stats::{doubled_median, median_doubled};
use super::{
    first_operation_time, Deployment, DeploymentLeadTimeForChanges, DeploymentLogWithFirstOperation,
    FirstCommitOrRepositoryInfo,
};

verus! {

broadcast use {vstd::seq_lib::group_seq_properties, vstd::seq_lib::group_filter_ensures};

/// `i` is the position of the earliest commit of `commits`, the first one
/// among commits made at the same earliest time.
pub open spec fn is_first_earliest(commits: Seq<Commit>, i: int) -> bool {
    &&& 0 <= i < commits.len()
    &&& forall|j: int| 0 <= j < commits.len() ==> commits[i].sort_key() <= #[trigger] commits[j].sort_key()
    &&& forall|j: int| 0 <= j < i ==> commits[i].sort_key() < #[trigger] commits[j].sort_key()
}

/// The earliest commit, the first of those made at that time; `None` for no commits.
pub fn pick_first_commit(commits: &Vec<Commit>) -> (r: Option<Commit>)
    ensures
        r is None <==> commits@.len() == 0,
        r matches Some(c) ==> exists|i: int| is_first_earliest(commits@, i) && c == commits@[i],
{
    if commits.len() == 0 {
        return None;
    }
    let mut best: usize = 0;
    let mut best_key = commits[0].key();
    let mut j: usize = 1;
    while j < commits.len()
        invariant
            1 <= j <= commits@.len(),
            best < j,
            best_key == commits@[best as int].sort_key(),
            forall|k: int| 0 <= k < j ==> commits@[best as int].sort_key() <= #[trigger] commits@[k].sort_key(),
            forall|k: int| 0 <= k < best ==> commits@[best as int].sort_key() < #[trigger] commits@[k].sort_key(),
        decreases commits@.len() - j,
    {
        let k = commits[j].key();
        if k < best_key {
            best = j;
            best_key = k;
        }
        j = j + 1;
    }
    let c = commits[best].clone();
    proof {
        assert(is_first_earliest(commits@, best as int));
    }
    Some(c)
}

/// Seconds from the start of the changes to the deployment, when the start is known.
pub open spec fn lead_time_seconds(item: DeploymentLogWithFirstOperation) -> Option<int> {
    match item.first_operation {
        Some(op) => Some(item.deployment_log.deployed_at.secs() - first_operation_time(op).secs()),
        None => None,
    }
}

/// Seconds from the start of the changes (first commit or repository
/// creation) to the deployment; `None` when the start is unknown.
pub fn calculate_lead_time_for_changes_seconds(log_with_operation: DeploymentLogWithFirstOperation) -> (r:
    Option<i64>)
    ensures
        r is Some <==> lead_time_seconds(log_with_operation) is Some,
        r matches Some(s) ==> Some(s as int) == lead_time_seconds(log_with_operation),
{
    match &log_with_operation.first_operation {
        Some(operation) => {
            let first_committed_at = match operation {
                FirstCommitOrRepositoryInfo::FirstCommit(commit) => commit.committed_at,
                FirstCommitOrRepositoryInfo::RepositoryInfo(info) => info.created_at,
            };
            Some(log_with_operation.deployment_log.deployed_at.seconds_since(&first_committed_at))
        },
        None => None,
    }
}

/// The deployment that a record with its start of changes gives: the record's
/// kind, head commit and time, the start of changes (the head commit itself
/// when unknown), and the lead time.
pub open spec fn deployment_of(item: DeploymentLogWithFirstOperation) -> Deployment {
    Deployment {
        info: item.deployment_log.info,
        head_commit: item.deployment_log.head_commit,
        first_commit: match item.first_operation {
            Some(op) => op,
            None => FirstCommitOrRepositoryInfo::FirstCommit(item.deployment_log.head_commit),
        },
        deployed_at: item.deployment_log.deployed_at,
        lead_time_for_changes_seconds: match lead_time_seconds(item) {
            Some(s) => Some(s as i64),
            None => None,
        },
    }
}

/// Makes the deployment of a record with its start of changes.
pub fn calculate_lead_time(log_with_operation: DeploymentLogWithFirstOperation) -> (r: Deployment)
    ensures
        r == deployment_of(log_with_operation),
{
    let lead_time_for_changes_seconds = calculate_lead_time_for_changes_seconds(
        log_with_operation.clone(),
    );
    let log = log_with_operation.deployment_log;
    let head_commit = log.head_commit;
    let first_commit = match log_with_operation.first_operation {
        Some(op) => op,
        None => FirstCommitOrRepositoryInfo::FirstCommit(head_commit.clone()),
    };
    Deployment {
        info: log.info,
        head_commit,
        first_commit,
        deployed_at: log.deployed_at,
        lead_time_for_changes_seconds,
    }
}

/// The known lead times of deployments, in order.
pub open spec fn known_lead_times(items: Seq<Deployment>) -> Seq<i64>
    decreases items.len(),
{
    if items.len() == 0 {
        Seq::<i64>::empty()
    } else {
        let rest = known_lead_times(items.drop_last());
        match items.last().lead_time_for_changes_seconds {
            Some(s) => rest.push(s),
            None => rest,
        }
    }
}

/// The known lead times of deployments, in order.
pub fn lead_time_durations(items: &Vec<Deployment>) -> (r: Vec<i64>)
    ensures
        r@ == known_lead_times(items@),
{
    let mut out: Vec<i64> = Vec::new();
    let mut i: usize = 0;
    proof {
        assert(items@.take(0) =~= Seq::<Deployment>::empty());
    }
    while i < items.len()
        invariant
            i <= items@.len(),
            out@ == known_lead_times(items@.take(i as int)),
        decreases items@.len() - i,
    {
        proof {
            assert(items@.take(i + 1).drop_last() =~= items@.take(i as int));
        }
        match items[i].lead_time_for_changes_seconds {
            Some(s) => out.push(s),
            None => {},
        }
        i = i + 1;
    }
    proof {
        assert(items@.take(items@.len() as int) =~= items@);
    }
    out
}

/// `a / b` rounded toward zero, as Rust divides integers (`b > 0`).
pub open spec fn div_toward_zero(a: int, b: int) -> int {
    if a >= 0 {
        a / b
    } else {
        -((-a) / b)
    }
}

/// The remainder of `div_toward_zero`, as Rust's `%` computes it.
pub open spec fn rem_toward_zero(a: int, b: int) -> int {
    a - b * div_toward_zero(a, b)
}

/// `doubled / 2` rounded to the nearest integer, halves away from zero.
pub open spec fn round_half(doubled: int) -> int {
    if doubled % 2 == 0 {
        doubled / 2
    } else if doubled > 0 {
        (doubled + 1) / 2
    } else {
        (doubled - 1) / 2
    }
}

/// The parts of a lead time given doubled (`m2 = 2 * t` seconds): whole days
/// and whole hours of `t`, rounded toward zero; the minutes of `t` rounded to
/// the second, within its hour; and the seconds left after those hours and
/// minutes.
pub open spec fn lead_time_parts(m2: int) -> (int, int, int, int) {
    let hours = div_toward_zero(m2, 7200);
    let rounded = round_half(m2);
    let minutes = div_toward_zero(rem_toward_zero(rounded, 3600), 60);
    (div_toward_zero(m2, 172800), hours, minutes, rounded - hours * 3600 - minutes * 60)
}

proof fn lemma_parts_bounded(m2: int)
    requires
        -0x1_0000_0000_0000_0000 <= m2 <= 0x1_0000_0000_0000_0000,
    ensures
        -0x1_0000_0000_0000_0000 <= lead_time_parts(m2).0 <= 0x1_0000_0000_0000_0000,
        -0x1_0000_0000_0000_0000 <= lead_time_parts(m2).1 <= 0x1_0000_0000_0000_0000,
        -60 < lead_time_parts(m2).2 < 60,
        -8000 < lead_time_parts(m2).3 < 8000,
{
    let hours = div_toward_zero(m2, 7200);
    let rounded = round_half(m2);
    let rem = rem_toward_zero(rounded, 3600);
    let minutes = div_toward_zero(rem, 60);
    assert(-0x1_0000_0000_0000_0000 <= div_toward_zero(m2, 172800) <= 0x1_0000_0000_0000_0000) by {
        if m2 >= 0 {
            vstd::arithmetic::div_mod::lemma_div_is_ordered(0, m2, 172800);
            vstd::arithmetic::div_mod::lemma_div_is_ordered_by_denominator(m2, 1, 172800);
        } else {
            vstd::arithmetic::div_mod::lemma_div_is_ordered(0, -m2, 172800);
            vstd::arithmetic::div_mod::lemma_div_is_ordered_by_denominator(-m2, 1, 172800);
        }
    }
    assert(-0x1_0000_0000_0000_0000 <= hours <= 0x1_0000_0000_0000_0000) by {
        if m2 >= 0 {
            vstd::arithmetic::div_mod::lemma_div_is_ordered(0, m2, 7200);
            vstd::arithmetic::div_mod::lemma_div_is_ordered_by_denominator(m2, 1, 7200);
        } else {
            vstd::arithmetic::div_mod::lemma_div_is_ordered(0, -m2, 7200);
            vstd::arithmetic::div_mod::lemma_div_is_ordered_by_denominator(-m2, 1, 7200);
        }
    }
    // m2 = 7200 * hours + e with |e| < 7200.
    let e = m2 - 7200 * hours;
    assert(-7200 < e < 7200) by {
        if m2 >= 0 {
            vstd::arithmetic::div_mod::lemma_fundamental_div_mod(m2, 7200);
        } else {
            vstd::arithmetic::div_mod::lemma_fundamental_div_mod(-m2, 7200);
        }
    }
    // 2 * rounded differs from m2 by at most 1.
    assert(-1 <= 2 * rounded - m2 <= 1) by {
        vstd::arithmetic::div_mod::lemma_fundamental_div_mod(m2, 2);
        if m2 % 2 != 0 {
            vstd::arithmetic::div_mod::lemma_fundamental_div_mod(m2 + 1, 2);
            vstd::arithmetic::div_mod::lemma_fundamental_div_mod(m2 - 1, 2);
        }
    }
    assert(-3601 < rounded - 3600 * hours < 3601);
    assert(-3600 < rem < 3600) by {
        if rounded >= 0 {
            vstd::arithmetic::div_mod::lemma_fundamental_div_mod(rounded, 3600);
        } else {
            vstd::arithmetic::div_mod::lemma_fundamental_div_mod(-rounded, 3600);
        }
    }
    assert(-60 < minutes < 60) by {
        if rem >= 0 {
            vstd::arithmetic::div_mod::lemma_div_is_ordered(rem, 3599, 60);
        } else {
            vstd::arithmetic::div_mod::lemma_div_is_ordered(-rem, 3599, 60);
        }
    }
}

/// Splits a doubled lead time into days, hours, minutes and seconds; see `lead_time_parts`.
pub fn lead_time_from_doubled(m2: i128) -> (r: DeploymentLeadTimeForChanges)
    requires
        -0x1_0000_0000_0000_0000 <= m2 <= 0x1_0000_0000_0000_0000,
    ensures
        (r.days as int, r.hours as int, r.minutes as int, r.seconds as int) == lead_time_parts(
            m2 as int,
        ),
        r.total_seconds_doubled == m2,
{
    proof {
        lemma_parts_bounded(m2 as int);
    }
    let days = m2 / 172800;
    let hours = m2 / 7200;
    let rounded: i128 = if m2 % 2 == 0 {
        m2 / 2
    } else if m2 > 0 {
        (m2 + 1) / 2
    } else {
        (m2 - 1) / 2
    };
    proof {
        assert(rounded == round_half(m2 as int));
    }
    let minutes = (rounded % 3600) / 60;
    let seconds = rounded - hours * 3600 - minutes * 60;
    DeploymentLeadTimeForChanges {
        days: days as i64,
        hours: hours as i64,
        minutes: minutes as i64,
        seconds: seconds as i64,
        total_seconds_doubled: m2,
    }
}

/// The median of the known lead times of deployments, split into parts.
pub fn calculate_lead_time_median(items: &Vec<Deployment>) -> (r: DeploymentLeadTimeForChanges)
    ensures
        r.total_seconds_doubled == median_doubled(known_lead_times(items@)),
        (r.days as int, r.hours as int, r.minutes as int, r.seconds as int) == lead_time_parts(
            median_doubled(known_lead_times(items@)),
        ),
{
    let durations = lead_time_durations(items);
    let ghost d = durations@;
    let m2 = doubled_median(durations);
    proof {
        if d.len() > 0 {
            crate::stats::lemma_median_within_bounds(d, i64::MIN as int, i64::MAX as int);
        }
    }
    lead_time_from_doubled(m2)
}

} // verus!
