use vizir::distribution::Distribution;
use vizir::metadata::{extract_builds, extract_versions, latest_build};
use vizir::target::{contains_version, DownloadTarget};

#[test]
fn contains_version_finds_only_listed_versions() {
    let versions: Vec<String> = vec!["1.20.1".to_owned(), "1.20.4".to_owned()];
    assert!(contains_version(&versions, &"1.20.1".to_owned()));
    assert!(contains_version(&versions, &"1.20.4".to_owned()));
    assert!(!contains_version(&versions, &"1.20.2".to_owned()));
    assert!(!contains_version(&versions, &"".to_owned()));
    assert!(!contains_version(&Vec::new(), &"1.20.1".to_owned()));
}

#[test]
fn confirm_refuses_an_unlisted_version() {
    let versions: Vec<String> = vec!["1.20.1".to_owned()];
    let builds: Vec<u64> = vec![45, 46, 47];
    let target = DownloadTarget::confirm(
        Distribution::Paper,
        &versions,
        &"1.99.9".to_owned(),
        &builds,
    );
    assert!(target.is_none());
}

#[test]
fn confirm_refuses_an_empty_build_list() {
    let versions: Vec<String> = vec!["1.20.1".to_owned()];
    let builds: Vec<u64> = Vec::new();
    let target = DownloadTarget::confirm(
        Distribution::Paper,
        &versions,
        &"1.20.1".to_owned(),
        &builds,
    );
    assert!(target.is_none());
}

#[test]
fn paper_flow_resolves_the_latest_listed_build() {
    let versions = extract_versions(r#"{"versions":["1.20.1","1.20.4"]}"#);
    assert_eq!(versions, vec!["1.20.1", "1.20.4"]);
    let choice = "1.20.1".to_owned();
    assert!(contains_version(&versions, &choice));
    let builds = extract_builds(
        Distribution::Paper,
        r#"{"builds":[{"build":45},{"build":46},{"build":47}]}"#,
    );
    assert_eq!(builds, vec![45, 46, 47]);
    assert_eq!(latest_build(&builds), Some(47));
    let target = DownloadTarget::confirm(Distribution::Paper, &versions, &choice, &builds)
        .expect("version is listed and builds are not empty");
    assert_eq!(target.version(), "1.20.1");
    assert_eq!(target.build(), 47);
    let url = target.url();
    assert_eq!(
        url,
        "https://api.papermc.io/v2/projects/paper/versions/1.20.1/builds/47/downloads/paper-1.20.1-47.jar"
    );
    assert!(url.contains("1.20.1"));
    assert!(url.contains("47"));
}

#[test]
fn purpur_flow_resolves_the_latest_listed_build() {
    let versions = extract_versions(r#"{"versions":["1.19.4","1.20.1"]}"#);
    let choice = "1.20.1".to_owned();
    assert!(contains_version(&versions, &choice));
    let builds = extract_builds(Distribution::Purpur, r#"{"builds":{"all":["12","10","15"]}}"#);
    assert_eq!(builds, vec![12, 10, 15]);
    let target = DownloadTarget::confirm(Distribution::Purpur, &versions, &choice, &builds)
        .expect("version is listed and builds are not empty");
    assert_eq!(target.build(), 15);
    let url = target.url();
    assert_eq!(url, "https://api.purpurmc.org/v2/purpur/1.20.1/15/download");
    // The version and the build each appear exactly once in this template.
    assert_eq!(url.matches("1.20.1").count(), 1);
    assert_eq!(url.matches("15").count(), 1);
}
