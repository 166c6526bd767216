use integrate::partition::{realized_samples, samples_per_worker};

#[test]
fn even_split_gives_each_worker_a_quarter() {
    assert_eq!(samples_per_worker(100, 4), 25);
    assert_eq!(realized_samples(100, 4), 100);
}

#[test]
fn remainder_is_dropped() {
    assert_eq!(samples_per_worker(101, 4), 25);
    assert_eq!(realized_samples(101, 4), 100);
}

#[test]
fn single_worker_takes_whole_budget() {
    assert_eq!(samples_per_worker(1_000_000, 1), 1_000_000);
    assert_eq!(realized_samples(7, 1), 7);
}

#[test]
fn more_workers_than_samples_leaves_none() {
    assert_eq!(samples_per_worker(3, 4), 0);
    assert_eq!(realized_samples(3, 4), 0);
}

#[test]
fn largest_budget_splits_without_overflow() {
    assert_eq!(samples_per_worker(usize::MAX, 2), usize::MAX / 2);
    assert_eq!(realized_samples(usize::MAX, 2), usize::MAX - 1);
}
