use sharad_ratatui::release::{check_release, verdict_for, verdict_line, UpdateVerdict, VersionOrder};

#[test]
fn a_newer_release_is_installed() {
    assert_eq!(check_release(Some("1.2.0"), "1.1.9"), Ok(UpdateVerdict::Update));
    assert_eq!(check_release(Some("2.0.0"), "1.10.3"), Ok(UpdateVerdict::Update));
}

#[test]
fn the_same_or_an_older_release_is_not() {
    assert_eq!(check_release(Some("1.1.9"), "1.1.9"), Ok(UpdateVerdict::UpToDate));
    assert_eq!(check_release(Some("1.0.0-beta"), "1.0.0"), Ok(UpdateVerdict::Ahead));
    assert_eq!(check_release(None, "1.0.0"), Ok(UpdateVerdict::NoRelease));
}

#[test]
fn a_version_that_does_not_parse_is_an_error() {
    assert!(check_release(Some("one point two"), "1.0.0").is_err());
    assert!(check_release(Some("1.0.0"), "").is_err());
    // With nothing published the running version is not read.
    assert_eq!(check_release(None, "not a version"), Ok(UpdateVerdict::NoRelease));
}

#[test]
fn verdicts_follow_the_order_and_read_as_lines() {
    assert_eq!(verdict_for(VersionOrder::Newer), UpdateVerdict::Update);
    assert_eq!(verdict_for(VersionOrder::Same), UpdateVerdict::UpToDate);
    assert_eq!(verdict_for(VersionOrder::Older), UpdateVerdict::Ahead);
    assert_eq!(verdict_line(UpdateVerdict::Update, "1.2.0"), "Updating to new version: 1.2.0");
    assert_eq!(verdict_line(UpdateVerdict::UpToDate, "1.2.0"), "Current version is up to date.");
    assert_eq!(verdict_line(UpdateVerdict::Ahead, "1.2.0"), "You're in the future.");
    assert_eq!(verdict_line(UpdateVerdict::NoRelease, ""), "No new updates found.");
}
