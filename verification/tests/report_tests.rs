use graph_reach::report::{summarize, DivisionError, Report};

#[test]
fn empty_run_is_division_error() {
    let results: Vec<bool> = Vec::new();
    assert_eq!(summarize(&results, 100), Err(DivisionError));
}

#[test]
fn three_nodes_one_reachable() {
    let results = vec![true, false, false];
    let rep = summarize(&results, 100000).unwrap();
    assert_eq!(
        rep,
        Report { total: 3, reachable: 1, amount: 100000, percentage: 33 }
    );
}

#[test]
fn all_reachable_is_one_hundred_percent() {
    let results = vec![true; 17];
    let rep = summarize(&results, 42).unwrap();
    assert_eq!(rep.reachable, 17);
    assert_eq!(rep.percentage, 100);
}

#[test]
fn none_reachable_is_zero_percent() {
    let results = vec![false; 9];
    let rep = summarize(&results, 42).unwrap();
    assert_eq!(rep.reachable, 0);
    assert_eq!(rep.percentage, 0);
}

#[test]
fn counts_partition_the_run() {
    let results = vec![true, false, true, true, false, false, false];
    let rep = summarize(&results, 1).unwrap();
    let unreachable = rep.total - rep.reachable;
    assert_eq!(rep.reachable + unreachable, results.len());
    assert_eq!(rep.reachable, 3);
}

#[test]
fn percentage_truncates_toward_zero() {
    let results = vec![true, true, false];
    let rep = summarize(&results, 1).unwrap();
    assert_eq!(rep.percentage, 66);
}

#[test]
fn percentage_within_bounds() {
    for n in 1..40usize {
        for k in 0..=n {
            let mut results = vec![true; k];
            results.extend(vec![false; n - k]);
            let rep = summarize(&results, 7).unwrap();
            assert!(rep.percentage <= 100);
        }
    }
}

#[test]
fn aggregation_is_order_independent() {
    let a = vec![true, false, false, true, false];
    let b = vec![false, true, false, false, true];
    assert_eq!(summarize(&a, 3).unwrap(), summarize(&b, 3).unwrap());
}
