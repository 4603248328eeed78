use spawn_bench::task::{inner_task, work, OuterTask, OUTER_PID, WORK_FACTOR};
use spawn_bench::workload::{Step, Workload, LAST_ROUND, ROUNDS};

fn run_until_end(fail_at: Option<u32>) -> (Vec<u32>, Result<(), u32>) {
    let mut rounds = Vec::new();
    let mut workload = Workload::start();
    loop {
        let index = workload.round();
        rounds.push(index);
        let outcome = if fail_at == Some(index) { Err(index) } else { Ok(()) };
        match workload.round_completed(outcome) {
            Step::Next(next) => workload = next,
            Step::Done => return (rounds, Ok(())),
            Step::Failed(error) => return (rounds, Err(error)),
        }
    }
}

#[test]
fn a_run_goes_through_every_round_in_order() {
    let (rounds, result) = run_until_end(None);
    assert_eq!(result, Ok(()));
    assert_eq!(rounds.len(), 501);
    assert_eq!(rounds, (0..=500).collect::<Vec<u32>>());
}

#[test]
fn the_first_round_is_round_zero() {
    assert_eq!(Workload::start().round(), 0);
}

#[test]
fn a_round_that_succeeds_leads_to_the_next() {
    match Workload::start().round_completed::<()>(Ok(())) {
        Step::Next(next) => assert_eq!(next.round(), 1),
        _ => panic!("the run must go on"),
    }
}

#[test]
fn the_last_round_ends_the_run() {
    let mut workload = Workload::start();
    for _ in 0..500 {
        match workload.round_completed::<()>(Ok(())) {
            Step::Next(next) => workload = next,
            _ => panic!("the run must go on"),
        }
    }
    assert_eq!(workload.round(), 500);
    assert!(matches!(workload.round_completed::<()>(Ok(())), Step::Done));
}

#[test]
fn a_failed_round_ends_the_run_with_its_error() {
    let (rounds, result) = run_until_end(Some(0));
    assert_eq!(result, Err(0));
    assert_eq!(rounds, vec![0]);

    let (rounds, result) = run_until_end(Some(137));
    assert_eq!(result, Err(137));
    assert_eq!(rounds, (0..=137).collect::<Vec<u32>>());

    let (rounds, result) = run_until_end(Some(500));
    assert_eq!(result, Err(500));
    assert_eq!(rounds.len(), 501);
}

#[test]
fn round_numbers_are_what_they_say() {
    assert_eq!(LAST_ROUND, 500);
    assert_eq!(ROUNDS, 501);
    assert_eq!(WORK_FACTOR, 1000);
}

#[test]
fn work_is_the_index_times_a_thousand() {
    assert_eq!(work(0), 0);
    assert_eq!(work(1), 1_000);
    assert_eq!(work(500), 500_000);
    assert_eq!(work(u32::MAX), 4_294_967_295_000);
}

#[test]
fn an_inner_task_completes_with_its_work() {
    assert_eq!(inner_task(0), 0);
    assert_eq!(inner_task(7), 7_000);
    assert_eq!(inner_task(500), 500_000);
}

fn workload_in_round(index: u32) -> Workload {
    let mut workload = Workload::start();
    while workload.round() < index {
        match workload.round_completed::<()>(Ok(())) {
            Step::Next(next) => workload = next,
            _ => panic!("the run must go on"),
        }
    }
    workload
}

#[test]
fn an_outer_task_is_made_for_the_round_in_flight() {
    for index in [0u32, 1, 42, 499, 500] {
        let workload = workload_in_round(index);
        let outer = OuterTask::for_round(&workload).start();
        assert_eq!(outer.inner_index(), index);
        assert_eq!(workload.round(), index);
    }
}

#[test]
fn an_outer_task_hands_its_index_to_its_inner_task() {
    let outer = OuterTask::for_round(&workload_in_round(42)).start();
    assert_eq!(outer.inner_index(), 42);
}

#[test]
fn an_outer_task_completes_with_the_value_of_its_inner_task() {
    let outer = OuterTask::for_round(&workload_in_round(42)).start();
    let value = inner_task(outer.inner_index());
    assert_eq!(outer.inner_completed(value), 42_000);
}

#[test]
fn process_ids_are_one_and_the_work() {
    assert_eq!(OUTER_PID, 1);
    assert_eq!(OuterTask::for_round(&workload_in_round(0)).start().inner_pid(), 0);
    assert_eq!(OuterTask::for_round(&workload_in_round(1)).start().inner_pid(), 1_000);
    assert_eq!(OuterTask::for_round(&workload_in_round(500)).start().inner_pid(), 500_000);
}

#[test]
fn every_round_runs_its_two_tasks() {
    let mut values = Vec::new();
    let mut workload = Workload::start();
    loop {
        let outer = OuterTask::for_round(&workload).start();
        let value = inner_task(outer.inner_index());
        values.push(outer.inner_completed(value));
        match workload.round_completed::<()>(Ok(())) {
            Step::Next(next) => workload = next,
            _ => break,
        }
    }
    assert_eq!(values.len(), 501);
    assert_eq!(values[0], 0);
    assert_eq!(values[1], 1_000);
    assert_eq!(values[500], 500_000);
}
