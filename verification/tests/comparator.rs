use ore_monitor::version_status::VersionStatus;

#[test]
fn equal_versions_are_up_to_date() {
    assert_eq!(VersionStatus::new("2.0", "2.0"), VersionStatus::UpToDate);
}

#[test]
fn older_local_is_out_of_date() {
    assert_eq!(VersionStatus::new("1.0", "2.0"), VersionStatus::OutOfDate);
}

#[test]
fn newer_local_is_overdated() {
    assert_eq!(VersionStatus::new("2.0", "1.0"), VersionStatus::Overdated);
}

// The versions crate in use orders alphanumeric suffixes lexically within a
// segment, so PRE9H2 sorts below RC3; a documented deviation from systems
// that rank such suffixes above release-candidate tags.
#[test]
fn prerelease_suffixes_compare_lexically() {
    assert_eq!(VersionStatus::new("2.0.0PRE9H2", "2.0.0RC3"), VersionStatus::OutOfDate);
    assert_eq!(VersionStatus::new("2.0.0RC3", "2.0.0PRE9H2"), VersionStatus::Overdated);
}

#[test]
fn check_version_agrees_with_new() {
    assert_eq!(VersionStatus::check_version("2.0", "2.0"), VersionStatus::UpToDate);
    assert_eq!(VersionStatus::check_version("1.0", "2.0"), VersionStatus::OutOfDate);
    assert_eq!(VersionStatus::check_version("2.0", "1.0"), VersionStatus::Overdated);
    assert_ne!(VersionStatus::check_version("1.0", "1.0"), VersionStatus::OutOfDate);
}

#[test]
fn unparseable_local_degrades_to_minimal_version() {
    assert_eq!(VersionStatus::new("", "1.0"), VersionStatus::OutOfDate);
}

#[test]
fn unparseable_both_sides_compare_equal() {
    assert_eq!(VersionStatus::new("", ""), VersionStatus::UpToDate);
}

#[test]
fn snapshot_suffixes_compare() {
    assert_eq!(VersionStatus::new("7.1.0-SNAPSHOT", "7.1.0-SNAPSHOT"), VersionStatus::UpToDate);
}

#[test]
fn status_messages() {
    assert_eq!(VersionStatus::OutOfDate.message(), "Version is outdated");
    assert_eq!(VersionStatus::UpToDate.message(), "Version is up to date");
    assert_eq!(
        VersionStatus::Overdated.message(),
        "Local version is newer than Remote version"
    );
}
