use vizir::decimal::{parse_u64_decimal, u64_to_decimal};
use vizir::distribution::Distribution;
use vizir::urls::{builds_url, resolve_download_url, versions_url};

#[test]
fn renders_zero() {
    assert_eq!(u64_to_decimal(0), "0");
}

#[test]
fn renders_small_and_large_numbers() {
    assert_eq!(u64_to_decimal(7), "7");
    assert_eq!(u64_to_decimal(47), "47");
    assert_eq!(u64_to_decimal(1500), "1500");
    assert_eq!(u64_to_decimal(u64::MAX), "18446744073709551615");
}

#[test]
fn parses_plain_digits() {
    assert_eq!(parse_u64_decimal("0"), Some(0));
    assert_eq!(parse_u64_decimal("47"), Some(47));
    assert_eq!(parse_u64_decimal("007"), Some(7));
    assert_eq!(parse_u64_decimal("18446744073709551615"), Some(u64::MAX));
}

#[test]
fn rejects_text_that_is_not_plain_digits() {
    assert_eq!(parse_u64_decimal(""), None);
    assert_eq!(parse_u64_decimal("12a"), None);
    assert_eq!(parse_u64_decimal("a12"), None);
    assert_eq!(parse_u64_decimal("+5"), None);
    assert_eq!(parse_u64_decimal("-5"), None);
    assert_eq!(parse_u64_decimal(" 5"), None);
}

#[test]
fn rejects_values_over_u64_max() {
    assert_eq!(parse_u64_decimal("18446744073709551616"), None);
    assert_eq!(parse_u64_decimal("99999999999999999999999"), None);
}

#[test]
fn parse_inverts_rendering() {
    let numbers: Vec<u64> = vec![0, 1, 9, 10, 1234567890, u64::MAX];
    for n in numbers {
        assert_eq!(parse_u64_decimal(&u64_to_decimal(n)), Some(n));
    }
}

#[test]
fn versions_urls_match_the_endpoints() {
    assert_eq!(
        versions_url(Distribution::Paper),
        "https://api.papermc.io/v2/projects/paper"
    );
    assert_eq!(
        versions_url(Distribution::Purpur),
        "https://api.purpurmc.org/v2/purpur"
    );
}

#[test]
fn builds_urls_match_the_endpoints() {
    assert_eq!(
        builds_url(Distribution::Paper, "1.20.1"),
        "https://api.papermc.io/v2/projects/paper/versions/1.20.1/builds"
    );
    assert_eq!(
        builds_url(Distribution::Purpur, "1.20.1"),
        "https://api.purpurmc.org/v2/purpur/1.20.1"
    );
}

#[test]
fn download_url_follows_each_template() {
    assert_eq!(
        resolve_download_url(Distribution::Paper, "1.20.1", 47),
        "https://api.papermc.io/v2/projects/paper/versions/1.20.1/builds/47/downloads/paper-1.20.1-47.jar"
    );
    assert_eq!(
        resolve_download_url(Distribution::Purpur, "1.19.4", 1500),
        "https://api.purpurmc.org/v2/purpur/1.19.4/1500/download"
    );
}

#[test]
fn download_url_is_deterministic() {
    let first = resolve_download_url(Distribution::Paper, "1.20.4", 12);
    let second = resolve_download_url(Distribution::Paper, "1.20.4", 12);
    assert_eq!(first, second);
    let first = resolve_download_url(Distribution::Purpur, "1.20.4", 12);
    let second = resolve_download_url(Distribution::Purpur, "1.20.4", 12);
    assert_eq!(first, second);
}
