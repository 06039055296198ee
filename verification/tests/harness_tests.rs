use kson::harness::classify_fixture;
use kson::harness::check_kson_format;
use kson::harness::expected_json_name;
use kson::harness::expected_kson_name;
use kson::harness::expected_yaml_name;
use kson::harness::fixture_stem;
use kson::harness::record_missing_expected;
use kson::harness::suite_passes;
use kson::harness::test_format_output;
use kson::harness::test_json_conversion;
use kson::harness::test_negative_case;
use kson::harness::test_yaml_conversion;
use kson::Category;
use kson::ConversionOutcome;
use kson::FixtureKind;
use kson::TestResults;

#[test]
fn format_output_matches_modulo_surrounding_whitespace() {
    assert!(test_format_output("a b\n", "  a b"));
    assert!(test_format_output("key: 1", "\n\tkey: 1\r\n"));
    assert!(test_format_output("", "  \n "));
}

#[test]
fn format_output_trims_unicode_whitespace() {
    assert!(test_format_output("a\u{85}", "a"));
    assert!(test_format_output("\u{a0}key: 1\u{3000}", "key: 1"));
    assert!(test_format_output("x\u{2028}", "\u{2009}x"));
    assert!(!test_format_output("a\u{a0}b", "a b"));
}

#[test]
fn format_output_detects_real_differences() {
    assert!(!test_format_output("a", "b"));
    assert!(!test_format_output("a b", "ab"));
    assert!(!test_format_output("a", "a b"));
    assert!(!test_format_output("", "a"));
}

#[test]
fn kson_check_counts_pass_and_fail() {
    let mut results = TestResults::default();
    check_kson_format(&mut results, "x: 1\n", "x: 1");
    check_kson_format(&mut results, "x: 1", "x: 2");
    assert_eq!(results.kson_pass, 1);
    assert_eq!(results.kson_fail, 1);
    assert_eq!(results.json_pass, 0);
    assert_eq!(results.json_fail, 0);
}

#[test]
fn json_conversion_counts_match_mismatch_and_rejection() {
    let mut results = TestResults::default();
    let good = ConversionOutcome::Produced(String::from("{\"a\": 1}\n"));
    let bad = ConversionOutcome::Produced(String::from("{\"a\": 2}"));
    let rejected = ConversionOutcome::Rejected(String::from("parse error"));
    test_json_conversion(&mut results, "{\"a\": 1}", &good);
    test_json_conversion(&mut results, "{\"a\": 1}", &bad);
    test_json_conversion(&mut results, "{\"a\": 1}", &rejected);
    assert_eq!(results.json_pass, 1);
    assert_eq!(results.json_fail, 2);
}

#[test]
fn yaml_conversion_counts_match_and_rejection() {
    let mut results = TestResults::default();
    let good = ConversionOutcome::Produced(String::from("a: 1\n"));
    let rejected = ConversionOutcome::Rejected(String::from("parse error"));
    test_yaml_conversion(&mut results, "a: 1", &good);
    test_yaml_conversion(&mut results, "a: 1", &rejected);
    assert_eq!(results.yaml_pass, 1);
    assert_eq!(results.yaml_fail, 1);
}

#[test]
fn negative_case_passes_only_on_rejection() {
    let mut results = TestResults::default();
    let rejected = ConversionOutcome::Rejected(String::from("unbalanced braces"));
    let wrongly_accepted = ConversionOutcome::Produced(String::from("{}"));
    test_negative_case(&mut results, &rejected);
    test_negative_case(&mut results, &wrongly_accepted);
    assert_eq!(results.no_pass, 1);
    assert_eq!(results.no_fail, 1);
}

#[test]
fn missing_expected_file_is_a_reported_failure() {
    let mut results = TestResults::default();
    record_missing_expected(&mut results, Category::Kson);
    record_missing_expected(&mut results, Category::Json);
    record_missing_expected(&mut results, Category::Yaml);
    assert_eq!(results.kson_fail, 1);
    assert_eq!(results.json_fail, 1);
    assert_eq!(results.yaml_fail, 1);
    assert!(!suite_passes(&results));
}

#[test]
fn suite_passes_requires_zero_failures_in_every_category() {
    let mut results = TestResults::default();
    assert!(suite_passes(&results));
    check_kson_format(&mut results, "a", "a");
    test_negative_case(&mut results, &ConversionOutcome::Rejected(String::from("e")));
    assert!(suite_passes(&results));
    record_missing_expected(&mut results, Category::Negative);
    assert!(!suite_passes(&results));
}

#[test]
fn fixture_names_classify_by_prefix_and_suffix() {
    assert_eq!(classify_fixture("y_abc123.input.kson"), FixtureKind::Positive);
    assert_eq!(classify_fixture("n_def456.input.kson"), FixtureKind::Negative);
    assert_eq!(classify_fixture("abc.input.kson"), FixtureKind::Other);
    assert_eq!(classify_fixture("y_abc123.expected.kson"), FixtureKind::Other);
    assert_eq!(classify_fixture("y_"), FixtureKind::Other);
    assert_eq!(classify_fixture(""), FixtureKind::Other);
}

#[test]
fn fixture_stem_and_expected_names_line_up() {
    let stem = fixture_stem("y_abc123.input.kson");
    assert_eq!(stem, "y_abc123");
    assert_eq!(expected_kson_name(&stem), "y_abc123.expected.kson");
    assert_eq!(expected_json_name(&stem), "y_abc123.expected.json");
    assert_eq!(expected_yaml_name(&stem), "y_abc123.expected.yaml");
}

#[test]
fn minimal_object_fixture_passes_and_unbalanced_negative_contributes_no_pass() {
    // One positive fixture holding a minimal object, one negative fixture
    // with unbalanced braces, judged the way the suite driver would.
    let mut results = TestResults::default();

    assert_eq!(classify_fixture("y_abc123.input.kson"), FixtureKind::Positive);
    let stem = fixture_stem("y_abc123.input.kson");
    assert_eq!(expected_json_name(&stem), "y_abc123.expected.json");
    let expected_json = "{\n  \"a\": 1\n}\n";
    let converted = ConversionOutcome::Produced(String::from("{\n  \"a\": 1\n}"));
    test_json_conversion(&mut results, expected_json, &converted);

    assert_eq!(classify_fixture("n_def456.input.kson"), FixtureKind::Negative);
    let rejected = ConversionOutcome::Rejected(String::from("unbalanced braces"));
    test_negative_case(&mut results, &rejected);

    assert_eq!(results.json_pass, 1);
    assert_eq!(results.json_fail, 0);
    assert_eq!(results.no_pass, 1);
    assert_eq!(results.no_fail, 0);
    assert_eq!(results.kson_pass, 0);
    assert_eq!(results.yaml_pass, 0);
    assert!(suite_passes(&results));
}
