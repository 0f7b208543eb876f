use rtt_bench::decimal::u128_to_dec;
use rtt_bench::decimal::u64_to_dec;
use rtt_bench::report::results_file_bytes;
use rtt_bench::report::sample_field_string;
use rtt_bench::scheduler::run_batch_scripted;
use rtt_bench::BatchOutcome;
use rtt_bench::Sample;
use rtt_bench::TaskResult;

fn m(nanos: u64) -> Sample {
    Sample::Measurement { nanos }
}

fn task(structured: Sample, markup: Sample) -> TaskResult {
    TaskResult { structured, markup }
}

#[test]
fn decimal_rendering_is_exact() {
    assert_eq!(u64_to_dec(0), "0");
    assert_eq!(u64_to_dec(7), "7");
    assert_eq!(u64_to_dec(10), "10");
    assert_eq!(u64_to_dec(1203), "1203");
    assert_eq!(u64_to_dec(u64::MAX), "18446744073709551615");
    assert_eq!(u128_to_dec(340282366920938463463374607431768211455), "340282366920938463463374607431768211455");
}

#[test]
fn sample_fields_print_value_or_absence_token() {
    assert_eq!(sample_field_string(&m(123)), "123");
    assert_eq!(sample_field_string(&m(0)), "0");
    assert_eq!(sample_field_string(&Sample::Absence), "NaN");
}

#[test]
fn all_successful_batch_prints_summary_and_five_rows() {
    let script = vec![
        task(m(11), m(21)),
        task(m(12), m(22)),
        task(m(13), m(23)),
        task(m(14), m(24)),
        task(m(15), m(25)),
    ];
    let outcome = run_batch_scripted(&script, 2, 42);
    let bytes = results_file_bytes(&outcome);
    let text = String::from_utf8(bytes).unwrap();
    let expected = "JsonRes,XmlRes,TotalTime\n\
                    NaN,NaN,42\n\
                    11,21,NaN\n\
                    12,22,NaN\n\
                    13,23,NaN\n\
                    14,24,NaN\n\
                    15,25,NaN\n";
    assert_eq!(text, expected);
    let lines: Vec<&str> = text.lines().collect();
    assert_eq!(lines.len(), 7);
    let summary: Vec<&str> = lines[1].split(',').collect();
    assert_eq!(summary[0], "NaN");
    assert_eq!(summary[1], "NaN");
    assert!(summary[2].parse::<u64>().is_ok());
    for line in &lines[2..] {
        let fields: Vec<&str> = line.split(',').collect();
        assert!(fields[0].parse::<u64>().is_ok());
        assert!(fields[1].parse::<u64>().is_ok());
        assert_eq!(fields[2], "NaN");
    }
}

#[test]
fn unreachable_server_prints_one_nan_row_per_task() {
    let results = vec![task(Sample::Absence, Sample::Absence); 3];
    let outcome = BatchOutcome { results, total_ms: 9001 };
    let bytes = results_file_bytes(&outcome);
    let text = String::from_utf8(bytes).unwrap();
    let expected = "JsonRes,XmlRes,TotalTime\n\
                    NaN,NaN,9001\n\
                    NaN,NaN,NaN\n\
                    NaN,NaN,NaN\n\
                    NaN,NaN,NaN\n";
    assert_eq!(text, expected);
}

#[test]
fn empty_batch_prints_header_and_summary_only() {
    let outcome = BatchOutcome { results: Vec::new(), total_ms: 0 };
    let bytes = results_file_bytes(&outcome);
    let text = String::from_utf8(bytes).unwrap();
    assert_eq!(text, "JsonRes,XmlRes,TotalTime\nNaN,NaN,0\n");
}

#[test]
fn mixed_batch_keeps_completion_order() {
    let outcome = BatchOutcome {
        results: vec![task(m(5), Sample::Absence), task(Sample::Absence, m(6))],
        total_ms: 10,
    };
    let text = String::from_utf8(results_file_bytes(&outcome)).unwrap();
    assert_eq!(text, "JsonRes,XmlRes,TotalTime\nNaN,NaN,10\n5,NaN,NaN\nNaN,6,NaN\n");
}
