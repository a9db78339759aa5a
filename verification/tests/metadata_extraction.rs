use vizir::distribution::Distribution;
use vizir::metadata::{extract_builds, extract_versions, latest_build};

#[test]
fn extracts_versions_from_a_well_shaped_body() {
    let body = r#"{"project_id":"paper","versions":["1.20.1","1.20.4"]}"#;
    assert_eq!(extract_versions(body), vec!["1.20.1", "1.20.4"]);
}

#[test]
fn skips_version_entries_that_are_not_strings() {
    let body = r#"{"versions":["1.20.1",5,null,"1.20.4",["x"]]}"#;
    assert_eq!(extract_versions(body), vec!["1.20.1", "1.20.4"]);
}

#[test]
fn versions_missing_field_yields_empty() {
    assert_eq!(extract_versions(r#"{"builds":["1.20.1"]}"#), Vec::<String>::new());
    assert_eq!(extract_versions(r#"{"versions":"1.20.1"}"#), Vec::<String>::new());
    assert_eq!(extract_versions(r#"{"versions":{"a":1}}"#), Vec::<String>::new());
    assert_eq!(extract_versions("[1,2,3]"), Vec::<String>::new());
}

#[test]
fn versions_unparsable_body_yields_empty() {
    assert_eq!(extract_versions("not json at all"), Vec::<String>::new());
    assert_eq!(extract_versions(""), Vec::<String>::new());
    assert_eq!(extract_versions(r#"{"versions":["1.20.1""#), Vec::<String>::new());
}

#[test]
fn extracts_paper_builds_from_build_objects() {
    let body = r#"{"builds":[{"build":45},{"build":46},{"build":47}]}"#;
    assert_eq!(extract_builds(Distribution::Paper, body), vec![45, 46, 47]);
}

#[test]
fn skips_paper_entries_without_a_numeric_build_field() {
    let body = r#"{"builds":[{"build":45},{"name":"x"},{"build":"46"},{"build":-1},{"build":47}]}"#;
    assert_eq!(extract_builds(Distribution::Paper, body), vec![45, 47]);
}

#[test]
fn paper_missing_field_yields_empty() {
    assert_eq!(extract_builds(Distribution::Paper, r#"{"all":[1]}"#), Vec::<u64>::new());
    assert_eq!(extract_builds(Distribution::Paper, r#"{"builds":7}"#), Vec::<u64>::new());
    assert_eq!(extract_builds(Distribution::Paper, "nonsense"), Vec::<u64>::new());
}

#[test]
fn extracts_purpur_builds_from_identifier_strings() {
    let body = r#"{"builds":{"all":["12","10","15"]}}"#;
    assert_eq!(extract_builds(Distribution::Purpur, body), vec![12, 10, 15]);
}

#[test]
fn skips_purpur_entries_that_are_not_decimal_strings() {
    let body = r#"{"builds":{"all":["12",10,"x","15"]}}"#;
    assert_eq!(extract_builds(Distribution::Purpur, body), vec![12, 15]);
}

#[test]
fn purpur_missing_field_yields_empty() {
    assert_eq!(
        extract_builds(Distribution::Purpur, r#"{"builds":["12"]}"#),
        Vec::<u64>::new()
    );
    assert_eq!(
        extract_builds(Distribution::Purpur, r#"{"all":["12"]}"#),
        Vec::<u64>::new()
    );
    assert_eq!(extract_builds(Distribution::Purpur, "{"), Vec::<u64>::new());
}

#[test]
fn latest_build_is_positional_not_numeric_max() {
    let builds: Vec<u64> = vec![12, 10, 15];
    assert_eq!(latest_build(&builds), Some(15));
    let unsorted: Vec<u64> = vec![47, 45, 46];
    assert_eq!(latest_build(&unsorted), Some(46));
}

#[test]
fn latest_build_selection_is_idempotent() {
    let builds: Vec<u64> = vec![12, 10, 15];
    let first = latest_build(&builds);
    let second = latest_build(&builds);
    assert_eq!(first, second);
    assert_eq!(first, Some(15));
}

#[test]
fn latest_build_of_empty_list_is_none() {
    let builds: Vec<u64> = Vec::new();
    assert_eq!(latest_build(&builds), None);
}
