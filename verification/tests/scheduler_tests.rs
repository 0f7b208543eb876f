use rtt_bench::aggregate::aggregate;
use rtt_bench::scheduler::run_batch_scripted;
use rtt_bench::scheduler::BatchScheduler;
use rtt_bench::Sample;
use rtt_bench::TaskResult;

fn m(nanos: u64) -> Sample {
    Sample::Measurement { nanos }
}

fn task(structured: Sample, markup: Sample) -> TaskResult {
    TaskResult { structured, markup }
}

#[test]
fn scripted_batch_preserves_every_task_result() {
    let script = vec![
        task(m(10), m(20)),
        task(Sample::Absence, m(40)),
        task(m(50), Sample::Absence),
        task(Sample::Absence, Sample::Absence),
        task(m(90), m(100)),
    ];
    let outcome = run_batch_scripted(&script, 2, 77);
    assert_eq!(outcome.results, script);
    assert_eq!(outcome.results.len(), 5);
    assert_eq!(outcome.total_ms, 77);
}

#[test]
fn admission_stops_at_the_concurrency_limit() {
    let mut s = BatchScheduler::new(5, 2);
    assert!(s.can_admit());
    s.launch();
    assert!(s.can_admit());
    s.launch();
    assert!(!s.can_admit());
    assert_eq!(s.in_flight, 2);
    s.complete(task(m(1), m(2)));
    assert_eq!(s.in_flight, 1);
    assert!(s.can_admit());
}

#[test]
fn batch_finishes_with_exactly_sample_count_results() {
    let mut s = BatchScheduler::new(3, 2);
    s.launch();
    s.launch();
    s.complete(task(m(1), m(2)));
    s.launch();
    assert!(!s.is_finished());
    s.complete(task(m(3), m(4)));
    s.complete(task(m(5), m(6)));
    assert!(s.is_finished());
    let outcome = s.into_outcome(9);
    assert_eq!(outcome.results.len(), 3);
    assert_eq!(outcome.total_ms, 9);
}

#[test]
fn single_slot_scheduler_runs_tasks_one_by_one() {
    let script = vec![task(m(5), m(6)), task(m(7), m(8))];
    let outcome = run_batch_scripted(&script, 1, 3);
    assert_eq!(outcome.results, script);
}

#[test]
fn completion_order_does_not_change_statistics() {
    let first_order = vec![
        task(m(100), Sample::Absence),
        task(m(200), m(10)),
        task(Sample::Absence, m(30)),
    ];
    let second_order = vec![
        task(Sample::Absence, m(30)),
        task(m(100), Sample::Absence),
        task(m(200), m(10)),
    ];
    let a = aggregate(&run_batch_scripted(&first_order, 2, 5));
    let b = aggregate(&run_batch_scripted(&second_order, 2, 5));
    assert_eq!(a.structured.success_count, b.structured.success_count);
    assert_eq!(a.structured.sum, b.structured.sum);
    assert_eq!(a.structured.mean, b.structured.mean);
    assert_eq!(a.markup.success_count, b.markup.success_count);
    assert_eq!(a.markup.sum, b.markup.sum);
    assert_eq!(a.markup.mean, b.markup.mean);
}

#[test]
fn rerunning_the_same_script_yields_identical_statistics() {
    let script = vec![
        task(m(100), Sample::Absence),
        task(m(200), m(10)),
        task(Sample::Absence, m(30)),
    ];
    let first = run_batch_scripted(&script, 2, 50);
    let second = run_batch_scripted(&script, 2, 50);
    assert_eq!(first.results, second.results);
    let a = aggregate(&first);
    let b = aggregate(&second);
    assert_eq!(a.structured.success_count, b.structured.success_count);
    assert_eq!(a.structured.sum, b.structured.sum);
    assert_eq!(a.structured.mean, b.structured.mean);
    assert_eq!(a.markup.success_count, b.markup.success_count);
    assert_eq!(a.markup.sum, b.markup.sum);
    assert_eq!(a.markup.mean, b.markup.mean);
}
