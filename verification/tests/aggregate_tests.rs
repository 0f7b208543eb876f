use rtt_bench::aggregate::aggregate;
use rtt_bench::aggregate::aggregate_encoding;
use rtt_bench::aggregate::split_encodings;
use rtt_bench::BatchOutcome;
use rtt_bench::Sample;
use rtt_bench::TaskResult;

fn m(nanos: u64) -> Sample {
    Sample::Measurement { nanos }
}

fn task(structured: Sample, markup: Sample) -> TaskResult {
    TaskResult { structured, markup }
}

#[test]
fn mean_is_exact_integer_quotient() {
    let samples = vec![m(100), m(200), m(301)];
    let stats = aggregate_encoding(&samples);
    assert_eq!(stats.success_count, 3);
    assert_eq!(stats.sum, 601);
    assert_eq!(stats.mean, Some(200));
}

#[test]
fn mean_rounds_down() {
    let samples = vec![m(1), m(2)];
    let stats = aggregate_encoding(&samples);
    assert_eq!(stats.success_count, 2);
    assert_eq!(stats.sum, 3);
    assert_eq!(stats.mean, Some(1));
}

#[test]
fn absences_are_excluded_from_mean() {
    let samples = vec![m(10), Sample::Absence, m(30), Sample::Absence];
    let stats = aggregate_encoding(&samples);
    assert_eq!(stats.success_count, 2);
    assert_eq!(stats.sum, 40);
    assert_eq!(stats.mean, Some(20));
}

#[test]
fn successes_and_absences_partition_the_samples() {
    let samples = vec![m(10), Sample::Absence, m(30), Sample::Absence, Sample::Absence];
    let stats = aggregate_encoding(&samples);
    let absences = samples
        .iter()
        .filter(|s| matches!(s, Sample::Absence))
        .count();
    assert_eq!(stats.success_count + absences, samples.len());
}

#[test]
fn no_successes_means_no_data_not_zero() {
    let samples = vec![Sample::Absence, Sample::Absence];
    let stats = aggregate_encoding(&samples);
    assert_eq!(stats.success_count, 0);
    assert_eq!(stats.sum, 0);
    assert_eq!(stats.mean, None);
}

#[test]
fn empty_batch_has_no_data() {
    let stats = aggregate_encoding(&Vec::new());
    assert_eq!(stats.success_count, 0);
    assert_eq!(stats.mean, None);
}

#[test]
fn zero_duration_measurement_is_not_an_absence() {
    let samples = vec![m(0)];
    let stats = aggregate_encoding(&samples);
    assert_eq!(stats.success_count, 1);
    assert_eq!(stats.mean, Some(0));
}

#[test]
fn encodings_aggregate_independently() {
    let outcome = BatchOutcome {
        results: vec![
            task(m(100), Sample::Absence),
            task(m(200), Sample::Absence),
            task(Sample::Absence, m(50)),
        ],
        total_ms: 7,
    };
    let stats = aggregate(&outcome);
    assert_eq!(stats.structured.success_count, 2);
    assert_eq!(stats.structured.sum, 300);
    assert_eq!(stats.structured.mean, Some(150));
    assert_eq!(stats.markup.success_count, 1);
    assert_eq!(stats.markup.sum, 50);
    assert_eq!(stats.markup.mean, Some(50));
}

#[test]
fn unreachable_server_yields_no_data_for_both_encodings() {
    let results = vec![task(Sample::Absence, Sample::Absence); 4];
    let outcome = BatchOutcome { results, total_ms: 1234 };
    let stats = aggregate(&outcome);
    assert_eq!(stats.structured.success_count, 0);
    assert_eq!(stats.structured.mean, None);
    assert_eq!(stats.markup.success_count, 0);
    assert_eq!(stats.markup.mean, None);
    assert_eq!(outcome.results.len(), 4);
}

#[test]
fn split_encodings_keeps_order() {
    let results = vec![task(m(1), m(2)), task(Sample::Absence, m(4))];
    let (structured, markup) = split_encodings(&results);
    assert_eq!(structured, vec![m(1), Sample::Absence]);
    assert_eq!(markup, vec![m(2), m(4)]);
}
