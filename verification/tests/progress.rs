use ripvid::progress::{assemble_progress, is_decimal, is_percent, parse_progress};

#[test]
fn progress_line_with_rate_and_eta() {
    let record = parse_progress("[download]  42.5% of 10MiB at 1.2MiB/s ETA 00:10").unwrap();
    assert_eq!(record.percent, "42.5");
    assert_eq!(record.percent.parse::<f32>().unwrap(), 42.5);
    assert_eq!(record.speed, "1.2MiB/s");
    assert_eq!(record.eta, "00:10");
}

#[test]
fn line_without_percent_is_no_progress() {
    assert!(parse_progress("[download] Destination: video.mp4").is_none());
    assert!(parse_progress("").is_none());
}

#[test]
fn line_without_marker_is_no_progress() {
    assert!(parse_progress("42.5% of 10MiB at 1.2MiB/s ETA 00:10").is_none());
}

#[test]
fn missing_rate_and_eta_give_the_sentinels() {
    let record = parse_progress("[download] 100% of 10MiB").unwrap();
    assert_eq!(record.percent, "100");
    assert_eq!(record.speed, "---");
    assert_eq!(record.eta, "--:--");
}

#[test]
fn percent_sign_without_a_number_is_no_progress() {
    assert!(parse_progress("[download] done %").is_none());
}

#[test]
fn the_first_number_before_a_percent_sign_counts() {
    let record = parse_progress("[download] 12 files, 7.25% then 9%").unwrap();
    assert_eq!(record.percent, "7.25");
}

#[test]
fn assembling_from_what_was_found() {
    let found = |s: &str| Some(Some(s.to_string()));
    let record = assemble_progress("[download] 5%", found("5"), Some(None), found("00:01")).unwrap();
    assert_eq!(record.percent, "5");
    assert_eq!(record.speed, "---");
    assert_eq!(record.eta, "00:01");
    assert!(assemble_progress("[download] 5%", Some(None), found("x"), found("y")).is_none());
    assert!(assemble_progress("[download] 5%", None, found("x"), found("y")).is_none());
    assert!(assemble_progress("[download] 5%", found("5"), None, found("y")).is_none());
    assert!(assemble_progress("[download] 5%", found("5"), found("x"), None).is_none());
    assert!(assemble_progress("[download] 5%", found("5."), found("x"), found("y")).is_none());
    assert!(assemble_progress("[download] 5", found("5"), found("x"), found("y")).is_none());
    assert!(assemble_progress("5%", found("5"), found("x"), found("y")).is_none());
}

#[test]
fn decimal_numbers() {
    let yes = |s: &str| is_decimal(&s.chars().collect());
    assert!(yes("0"));
    assert!(yes("42"));
    assert!(yes("42.5"));
    assert!(yes("0.001"));
    assert!(!yes(""));
    assert!(!yes("."));
    assert!(!yes("4."));
    assert!(!yes(".5"));
    assert!(!yes("4.5.6"));
    assert!(!yes("4a"));
    assert!(!yes("-4"));
    assert!(!yes("\u{664}\u{662}"));
}

#[test]
fn a_percentage_is_at_most_a_hundred() {
    let yes = |s: &str| is_percent(&s.chars().collect());
    assert!(yes("0"));
    assert!(yes("0.0"));
    assert!(yes("42.5"));
    assert!(yes("99.999999999999999999999999"));
    assert!(yes("100"));
    assert!(yes("100.0"));
    assert!(yes("100.000000000000000000000000"));
    assert!(yes("000100.00"));
    assert!(yes("00000000000000000000000000000099"));
    assert!(!yes("100.01"));
    assert!(!yes("100.000000000000000000000001"));
    assert!(!yes("101"));
    assert!(!yes("150"));
    assert!(!yes("1000"));
    assert!(!yes("99999999999999999999999999999999"));
    assert!(!yes(""));
    assert!(!yes("1."));
    assert!(!yes("x"));
}

#[test]
fn a_line_with_more_than_a_hundred_percent_is_no_progress() {
    assert!(parse_progress("[download] 150% of 10MiB").is_none());
    assert!(parse_progress("[download] 100.1% of 10MiB").is_none());
    let found = |s: &str| Some(Some(s.to_string()));
    assert!(assemble_progress("[download] 150%", found("150"), Some(None), Some(None)).is_none());
    let record = parse_progress("[download] 100.0% of 10MiB").unwrap();
    assert_eq!(record.percent, "100.0");
    let record = parse_progress("[download] 0% of 10MiB").unwrap();
    assert_eq!(record.percent, "0");
}
