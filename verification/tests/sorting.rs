use devperf::sorting::stable_sort_by_key;
use devperf::stats::{doubled_median, sort_ascending};

#[test]
fn sorting_sorted_numbers_leaves_them_unchanged() {
    let sorted = vec![-3i64, 0, 0, 7, 42];
    assert_eq!(stable_sort_by_key(sorted.clone()), sorted);
    assert_eq!(stable_sort_by_key(Vec::<i64>::new()), Vec::<i64>::new());
}

#[test]
fn sorting_orders_numbers() {
    assert_eq!(sort_ascending(vec![5, -1, 3, 3, 0]), vec![-1, 0, 3, 3, 5]);
}

#[test]
fn median_lies_between_least_and_greatest() {
    let numbers = vec![9i64, -4, 100, 7];
    let m2 = doubled_median(numbers.clone());
    assert_eq!(m2, 16);
    assert!(2 * (*numbers.iter().min().unwrap() as i128) <= m2);
    assert!(m2 <= 2 * (*numbers.iter().max().unwrap() as i128));
    assert_eq!(doubled_median(vec![5, 5, 5]), 10);
    assert_eq!(doubled_median(vec![]), 0);
    assert_eq!(doubled_median(vec![i64::MAX, i64::MAX]), 2 * (i64::MAX as i128));
}

fn commit(sha: &str, at: &str) -> devperf::commit::Commit {
    devperf::commit::Commit {
        sha: sha.to_string(),
        message: String::new(),
        resource_path: String::new(),
        committed_at: devperf::calendar::parse_datetime_utc(at).unwrap(),
        creator_login: String::new(),
    }
}

#[test]
fn sorting_keeps_the_order_of_equal_times() {
    let sorted = stable_sort_by_key(vec![
        commit("late", "2023-01-03"),
        commit("tie-1", "2023-01-02"),
        commit("early", "2023-01-01"),
        commit("tie-2", "2023-01-02"),
    ]);
    let shas: Vec<&str> = sorted.iter().map(|c| c.sha.as_str()).collect();
    assert_eq!(shas, vec!["early", "tie-1", "tie-2", "late"]);
}
