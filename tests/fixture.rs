use strict_eq_rewrite::fixture::{expected_output_path, fixture_outcome, FixtureOutcome};

fn path_of(input: &str) -> Option<String> {
    expected_output_path(input.as_bytes()).map(|v| String::from_utf8(v).unwrap())
}

#[test]
fn matching_output_passes() {
    let actual = "kdy1 === b;\n".to_string();
    let expected = Some("kdy1 === b;\n".to_string());
    assert_eq!(fixture_outcome(&actual, &expected, false), FixtureOutcome::Passed);
}

#[test]
fn differing_output_fails() {
    let actual = "kdy1 === b;\n".to_string();
    let expected = Some("a === b;\n".to_string());
    assert_eq!(fixture_outcome(&actual, &expected, false), FixtureOutcome::Failed);
}

#[test]
fn missing_expected_output_is_reported() {
    let actual = "kdy1 === b;\n".to_string();
    assert_eq!(fixture_outcome(&actual, &None, false), FixtureOutcome::MissingExpected);
}

#[test]
fn regeneration_overrides_comparison() {
    let actual = "kdy1 === b;\n".to_string();
    let stale = Some("a === b;\n".to_string());
    assert_eq!(fixture_outcome(&actual, &stale, true), FixtureOutcome::Regenerated);
    assert_eq!(fixture_outcome(&actual, &None, true), FixtureOutcome::Regenerated);
    let same = Some(actual.clone());
    assert_eq!(fixture_outcome(&actual, &same, true), FixtureOutcome::Regenerated);
}

#[test]
fn empty_outputs_are_equal() {
    assert_eq!(fixture_outcome(&String::new(), &Some(String::new()), false), FixtureOutcome::Passed);
}

#[test]
fn expected_path_is_sibling_output() {
    assert_eq!(
        path_of("src/tests/fixtures/basic/input.js").as_deref(),
        Some("src/tests/fixtures/basic/output.js")
    );
}

#[test]
fn expected_path_keeps_extension() {
    assert_eq!(path_of("fixtures/jsx/input.jsx").as_deref(), Some("fixtures/jsx/output.jsx"));
    assert_eq!(path_of("input.ts").as_deref(), Some("output.ts"));
    assert_eq!(path_of("/input.").as_deref(), Some("/output."));
}

#[test]
fn expected_path_needs_input_file_name() {
    assert_eq!(path_of("fixtures/basic/output.js"), None);
    assert_eq!(path_of("fixtures/basic/myinput.js"), None);
    assert_eq!(path_of("fixtures/input.js/inner"), None);
    assert_eq!(path_of("fixtures/input"), None);
    assert_eq!(path_of(""), None);
    assert_eq!(path_of("fixtures/"), None);
}
