use rspawn::outcome::{FetchFailure, RelaunchError};
use rspawn::text::decimal;

#[test]
fn numerals_have_no_leading_zeros() {
    assert_eq!(decimal(0), "0");
    assert_eq!(decimal(7), "7");
    assert_eq!(decimal(9), "9");
    assert_eq!(decimal(10), "10");
    assert_eq!(decimal(99), "99");
    assert_eq!(decimal(100), "100");
    assert_eq!(decimal(404), "404");
    assert_eq!(decimal(500), "500");
    assert_eq!(decimal(12345), "12345");
    assert_eq!(decimal(u16::MAX), "65535");
}

#[test]
fn numerals_agree_with_the_standard_library() {
    for n in 0..=u16::MAX {
        assert_eq!(decimal(n), n.to_string());
    }
}

#[test]
fn fetch_failures_say_what_went_wrong() {
    assert_eq!(FetchFailure::Network.message(), "Failed to fetch from crates.io");
    assert_eq!(FetchFailure::HttpStatus(500).message(), "Failed to fetch crate info: HTTP 500");
    assert_eq!(FetchFailure::HttpStatus(404).message(), "Failed to fetch crate info: HTTP 404");
    assert_eq!(FetchFailure::Parse.message(), "Failed to get the latest version");
}

#[test]
fn errors_say_why_the_attempt_was_abandoned() {
    assert_eq!(
        RelaunchError::LockConflict.message(),
        "Program is already relaunching; avoiding infinite loop."
    );
    assert_eq!(RelaunchError::LockCreateFailure.message(), "Failed to create lock file");
    assert_eq!(
        RelaunchError::OriginCheckFailure.message(),
        "Program must be executed from PATH, not from a full or relative path."
    );
    assert_eq!(
        RelaunchError::RegistryFetchFailure(FetchFailure::Parse).message(),
        "Failed to get latest version"
    );
    assert_eq!(RelaunchError::InstallFailure.message(), "Failed to run cargo install");
    assert_eq!(RelaunchError::RelaunchSpawnFailure.message(), "Failed to relaunch the program");
}
