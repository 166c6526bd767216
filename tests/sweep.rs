use integrate::metrics::{round_metrics, Ratio};
use integrate::request::IntegrationRequest;
use integrate::sweep::{steps_of_len, sweep_steps, Action, RoundPlan, SweepController, SweepError};

fn run_sweep(request: IntegrationRequest, times: &[u64]) -> (Vec<integrate::metrics::RoundMetrics>, Action) {
    let mut c = SweepController::new(request);
    let mut out = Vec::new();
    let mut k = 0;
    loop {
        match c.next_action() {
            Action::Run(plan) => {
                assert_eq!(plan.samples_per_worker, request.total_samples / plan.worker_count);
                out.push(c.complete_round(times[k]));
                k += 1;
            }
            other => return (out, other),
        }
    }
}

#[test]
fn profile_sweep_steps_count_up() {
    let r = IntegrationRequest::new(1, 10, 100, 4, true).unwrap();
    assert_eq!(sweep_steps(&r), vec![1, 2, 3, 4]);
    assert_eq!(steps_of_len(&r), 4);
}

#[test]
fn single_round_sweep_uses_maximum() {
    let r = IntegrationRequest::new(1, 10, 100, 4, false).unwrap();
    assert_eq!(sweep_steps(&r), vec![4]);
    assert_eq!(steps_of_len(&r), 1);
}

#[test]
fn profile_emits_one_record_per_count_in_order() {
    let r = IntegrationRequest::new(1, 10, 1000, 3, true).unwrap();
    let (records, last) = run_sweep(r, &[600, 300, 250]);
    assert_eq!(last, Action::Done);
    let counts: Vec<usize> = records.iter().map(|m| m.worker_count).collect();
    assert_eq!(counts, vec![1, 2, 3]);
}

#[test]
fn single_round_emits_one_record() {
    let r = IntegrationRequest::new(1, 10, 1000, 5, false).unwrap();
    let (records, last) = run_sweep(r, &[40]);
    assert_eq!(last, Action::Done);
    assert_eq!(records.len(), 1);
    assert_eq!(records[0].worker_count, 5);
    assert_eq!(records[0].speedup, Ratio { num: 40, den: 40 });
}

#[test]
fn first_profile_record_is_its_own_baseline() {
    let r = IntegrationRequest::new(1, 10, 1000, 2, true).unwrap();
    let (records, _) = run_sweep(r, &[777, 400]);
    assert_eq!(records[0].worker_count, 1);
    assert_eq!(records[0].speedup.num, records[0].speedup.den);
    assert_eq!(records[0].speedup, Ratio { num: 777, den: 777 });
}

#[test]
fn later_rounds_are_measured_against_first() {
    let r = IntegrationRequest::new(1, 10, 1000, 2, true).unwrap();
    let (records, _) = run_sweep(r, &[800, 500]);
    let m = records[1];
    assert_eq!(m.worker_count, 2);
    assert_eq!(m.elapsed_micros, 500);
    assert_eq!(m.speedup, Ratio { num: 800, den: 500 });
    assert_eq!(m.efficiency, Ratio { num: 800, den: 1000 });
}

#[test]
fn efficiency_stays_at_or_below_speedup() {
    let m = round_metrics(4, 1000, 300);
    assert_eq!(m.speedup, Ratio { num: 1000, den: 300 });
    assert_eq!(m.efficiency, Ratio { num: 1000, den: 1200 });
    assert!(m.efficiency.num * m.speedup.den <= m.speedup.num * m.efficiency.den);
    assert!(m.efficiency.num > 0 && m.efficiency.den > 0);
}

#[test]
fn largest_times_do_not_overflow() {
    let m = round_metrics(usize::MAX, u64::MAX, u64::MAX);
    assert_eq!(m.efficiency.den, (u64::MAX as u128) * (usize::MAX as u128));
}

#[test]
fn empty_partition_aborts_before_the_round() {
    let r = IntegrationRequest::new(1, 10, 2, 3, true).unwrap();
    let (records, last) = run_sweep(r, &[10, 10]);
    assert_eq!(records.len(), 2);
    assert_eq!(last, Action::Abort(SweepError::EmptyPartition { worker_count: 3 }));
}

#[test]
fn first_plan_splits_the_budget() {
    let r = IntegrationRequest::new(1, 10, 101, 4, false).unwrap();
    let c = SweepController::new(r);
    assert_eq!(c.completed_rounds(), 0);
    assert_eq!(c.next_action(), Action::Run(RoundPlan { worker_count: 4, samples_per_worker: 25 }));
}
