//! The median of a list of integers, computed exactly.
//!
//! The median of an even number of values may lie halfway between two
//! integers, so it is represented doubled: `doubled_median` returns twice the
//! median, which is always an integer.

use vstd::prelude::*;
use vstd::relations::{sorted_by, total_ordering};
use crate::sorting::{stable_sort_by_key, is_stable_sort_of, Keyed};

verus! {

/// The usual order on `i64`.
pub open spec fn leq_i64() -> spec_fn(i64, i64) -> bool {
    |a: i64, b: i64| a <= b
}

/// `s` in ascending order.
pub open spec fn ascending(s: Seq<i64>) -> Seq<i64> {
    s.sort_by(leq_i64())
}

/// Twice the middle value of an ascending sequence: the sum of the two middle
/// values for an even length, twice the middle value for an odd length, and 0
/// for the empty sequence.
pub open spec fn doubled_middle(s: Seq<i64>) -> int {
    if s.len() == 0 {
        0
    } else if s.len() % 2 == 0 {
        s[s.len() / 2 - 1] + s[(s.len() / 2) as int]
    } else {
        2 * s[(s.len() - 1) / 2]
    }
}

/// Twice the median of `numbers` (0 for no numbers).
pub open spec fn median_doubled(numbers: Seq<i64>) -> int {
    doubled_middle(ascending(numbers))
}

proof fn lemma_leq_i64_total()
    ensures
        total_ordering(leq_i64()),
{
}

/// A sequence sorted by key with the same elements as `s` is `s` in ascending order.
proof fn lemma_is_ascending(r: Seq<i64>, s: Seq<i64>)
    requires
        is_stable_sort_of(r, s),
    ensures
        r == ascending(s),
{
    lemma_leq_i64_total();
    s.lemma_sort_by_ensures(leq_i64());
    assert(sorted_by(r, leq_i64())) by {
        assert forall|i: int, j: int| 0 <= i < j < r.len() implies #[trigger] leq_i64()(
            r[i],
            r[j],
        ) by {
            assert(r[i].sort_key() <= r[j].sort_key());
        }
    }
    vstd::seq_lib::lemma_sorted_unique(r, ascending(s), leq_i64());
}

/// Sorts integers in ascending order.
pub fn sort_ascending(numbers: Vec<i64>) -> (r: Vec<i64>)
    ensures
        r@ == ascending(numbers@),
{
    let r = stable_sort_by_key(numbers);
    proof {
        lemma_is_ascending(r@, numbers@);
    }
    r
}

/// Twice the median of `numbers`, exactly; 0 when `numbers` is empty.
pub fn doubled_median(numbers: Vec<i64>) -> (r: i128)
    ensures
        r == median_doubled(numbers@),
{
    let ghost input = numbers@;
    let sorted = sort_ascending(numbers);
    proof {
        input.lemma_sort_by_ensures(leq_i64());
        assert(sorted@.len() == input.len()) by {
            assert(sorted@.to_multiset().len() == input.to_multiset().len());
            broadcast use vstd::seq_lib::group_to_multiset_ensures;
        }
    }
    let n = sorted.len();
    if n == 0 {
        0
    } else if n % 2 == 0 {
        let mid = n / 2;
        sorted[mid - 1] as i128 + sorted[mid] as i128
    } else {
        let mid = (n - 1) / 2;
        2 * (sorted[mid] as i128)
    }
}

/// The median never lies below the smallest value nor above the largest one.
pub proof fn lemma_median_within_bounds(numbers: Seq<i64>, lo: int, hi: int)
    requires
        numbers.len() > 0,
        forall|i: int| 0 <= i < numbers.len() ==> lo <= #[trigger] numbers[i] <= hi,
    ensures
        2 * lo <= median_doubled(numbers) <= 2 * hi,
{
    broadcast use vstd::seq_lib::group_to_multiset_ensures;
    broadcast use vstd::multiset::group_multiset_axioms;

    lemma_leq_i64_total();
    numbers.lemma_sort_by_ensures(leq_i64());
    let s = ascending(numbers);
    assert(s.len() == numbers.len()) by {
        assert(s.to_multiset().len() == numbers.to_multiset().len());
    }
    assert forall|i: int| 0 <= i < s.len() implies lo <= #[trigger] s[i] <= hi by {
        assert(s.to_multiset().count(s[i]) > 0);
        assert(numbers.contains(s[i]));
    }
}

/// The median of identical values is that value.
pub proof fn lemma_median_of_constant(numbers: Seq<i64>, c: i64)
    requires
        numbers.len() > 0,
        forall|i: int| 0 <= i < numbers.len() ==> #[trigger] numbers[i] == c,
    ensures
        median_doubled(numbers) == 2 * c,
{
    lemma_median_within_bounds(numbers, c as int, c as int);
}

} // verus!
