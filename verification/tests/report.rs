use wrec::report::{package_from_binary, parse_count, parse_report, render_report, strings, suite_table, Table};

const SAMPLE_OUTPUT: &str = r#"
     Running unittests src/main.rs (target/debug/deps/wrec-a1b2c3)

running 2 tests
test args::tests::help_and_version_flags ... ok
test args::tests::record_rejects_bad_values ... FAILED

test result: FAILED. 1 passed; 1 failed; 0 ignored; 0 measured; 0 filtered out; finished in 0.01s

     Running unittests src/lib.rs (target/debug/deps/domain-d4e5f6)

running 1 test
test tests::codec_args_match_capture_engine_contract ... ok

test result: ok. 1 passed; 0 failed; 0 ignored; 0 measured; 0 filtered out; finished in 0.00s
"#;

fn chars(s: &str) -> Vec<char> {
    s.chars().collect()
}

#[test]
fn parses_cargo_test_output_into_real_suites_and_cases() {
    let report = parse_report(SAMPLE_OUTPUT);

    assert_eq!(report.suites.len(), 2);
    assert_eq!(report.suites[0].name, "wrec");
    assert_eq!(report.suites[0].passed, 1);
    assert_eq!(report.suites[0].failed, 1);
    assert_eq!(report.suites[1].name, "domain");
    assert_eq!(report.suites[1].passed, 1);

    assert_eq!(report.tests.len(), 3);
    assert_eq!(report.tests[0].suite, "wrec");
    assert_eq!(report.tests[0].status, "ok");
    assert_eq!(report.tests[1].suite, "wrec");
    assert_eq!(report.tests[1].status, "FAILED");
    assert_eq!(report.tests[2].suite, "domain");
}

#[test]
fn renders_suite_and_case_tables_at_one_width() {
    let report = parse_report(SAMPLE_OUTPUT);
    let rendered = render_report(&report);
    let border_lengths = rendered.lines().filter(|line| line.starts_with('+')).map(str::len).collect::<Vec<_>>();

    assert!(!border_lengths.is_empty());
    assert!(border_lengths.iter().all(|length| *length == border_lengths[0]), "{rendered}");
}

#[test]
fn suite_durations_and_counts_are_read() {
    let report = parse_report(SAMPLE_OUTPUT);
    assert_eq!(report.suites[0].duration, "0.01s");
    assert_eq!(report.suites[1].duration, "0.00s");
    assert_eq!(report.suites[0].ignored, 0);
    assert_eq!(report.tests[0].name, "args::tests::help_and_version_flags");
}

#[test]
fn binary_names_lose_their_hash() {
    assert_eq!(package_from_binary(&chars("wrec-a1b2c3")), chars("wrec"));
    assert_eq!(package_from_binary(&chars("plain")), chars("plain"));
    assert_eq!(package_from_binary(&chars("wrec_core-0f1e")), chars("wrec-core"));
    assert_eq!(parse_count(&chars("1 passed; 2 failed"), "failed"), Some(2));
    assert_eq!(parse_count(&chars("1 passed"), "ignored"), None);
}

#[test]
fn suite_table_lists_each_suite() {
    let report = parse_report(SAMPLE_OUTPUT);
    let table: Table = suite_table(&report);
    assert_eq!(table.rows.len(), 2);
    assert_eq!(table.rows[0][0], "wrec");
    assert_eq!(table.headers, strings(&["suite", "passed", "failed", "ignored", "filtered", "time", "status"]));
}
