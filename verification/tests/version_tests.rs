use libplasmoid_updater::version::{
    compare, is_date_newer, is_update_available, is_update_available_with_date, normalize,
    numbers_of, order_of, relate_versions, update_predicate, VersionRelation,
};
use std::cmp::Ordering;

#[test]
fn versions_are_related_by_the_parser() {
    assert_eq!(relate_versions("1.2.0", "1.3.0"), VersionRelation::Newer);
    assert_eq!(relate_versions("2.0.0", "2.0.0"), VersionRelation::Same);
    assert_eq!(relate_versions("2.0.0", "1.9.9"), VersionRelation::Older);
    assert_eq!(relate_versions("", "1.0"), VersionRelation::OnlyCandidate);
    assert_eq!(relate_versions("1.0", ""), VersionRelation::OnlyInstalled);
    assert_eq!(relate_versions("", ""), VersionRelation::Neither);
}

#[test]
fn newer_version_is_an_update() {
    assert!(is_update_available_with_date("1.2.0", "1.3.0", "", ""));
    assert!(is_update_available_with_date("1.2.0", "1.3.0", "2024-06-01", "2024-01-01"));
}

#[test]
fn older_version_is_no_update_whatever_the_dates() {
    assert!(!is_update_available_with_date("1.3.0", "1.2.0", "2024-01-01", "2024-06-01"));
}

#[test]
fn refresh_upload_is_an_update() {
    assert!(is_update_available_with_date(
        "2.0.0",
        "2.0.0",
        "2024-01-01",
        "2024-06-01T10:00:00+00:00"
    ));
    assert!(!is_update_available_with_date("2.0.0", "2.0.0", "2024-06-01", "2024-06-01T10:00:00"));
    assert!(!is_update_available_with_date("2.0.0", "2.0.0", "", "2024-06-01"));
    assert!(!is_update_available_with_date("2.0.0", "2.0.0", "2024-06-01", ""));
}

#[test]
fn empty_version_against_a_version() {
    // only the version on offer is a version: an update, whatever the dates
    assert!(is_update_available_with_date("", "1.0", "", ""));
    assert!(is_update_available_with_date("", "1.0", "2024-06-01", "2024-01-01"));
    // only the installed one is a version: the dates decide
    assert!(is_update_available_with_date("1.0", "", "2024-01-01", "2024-06-01"));
    assert!(!is_update_available_with_date("1.0", "", "2024-06-01", "2024-01-01"));
    assert!(!is_update_available_with_date("1.0", "", "", ""));
}

#[test]
fn update_predicate_follows_the_relation() {
    assert!(update_predicate(VersionRelation::Newer, "a", "b", "", ""));
    assert!(!update_predicate(VersionRelation::Older, "a", "b", "2020-01-01", "2024-01-01"));
    assert!(update_predicate(VersionRelation::OnlyCandidate, "", "1", "", ""));
    assert!(update_predicate(VersionRelation::Same, "1", "1", "2020-01-01", "2024-01-01"));
    assert!(!update_predicate(VersionRelation::Same, "1", "1", "2024-01-01", "2024-01-01"));
    // neither is a version: different texts that are both given are an update
    assert!(update_predicate(VersionRelation::Neither, "?a", "?b", "", ""));
    assert!(!update_predicate(VersionRelation::Neither, "?a", "?a", "", ""));
    assert!(!update_predicate(VersionRelation::Neither, "", "?b", "", ""));
    assert!(update_predicate(VersionRelation::Neither, "?a", "?a", "2020-01-01", "2021-01-01"));
    assert!(!update_predicate(VersionRelation::OnlyInstalled, "1", "?", "", ""));
    assert!(update_predicate(VersionRelation::OnlyInstalled, "1", "?", "2020-01-01", "2021-01-01"));
}

#[test]
fn dates_compare_by_their_first_ten_characters() {
    assert!(is_date_newer("2024-01-01", "2024-01-02"));
    assert!(!is_date_newer("2024-01-02", "2024-01-01"));
    assert!(!is_date_newer("2024-01-01T00:00:00", "2024-01-01T23:59:59"));
    assert!(!is_date_newer("", "2024-01-01"));
    assert!(!is_date_newer("2024-01-01", ""));
    assert!(is_date_newer("2024", "2024-01-01"));
}

#[test]
fn normalize_joins_the_digit_runs() {
    assert_eq!(normalize("1.2.3"), "1.2.3");
    assert_eq!(normalize("v1.2-beta3"), "1.2.3");
    assert_eq!(normalize("..1..2.."), "1.2");
    assert_eq!(normalize(""), "");
    assert_eq!(normalize("abc"), "");
    assert_eq!(normalize("1"), "1");
    assert_eq!(normalize("1.0.0-rc.1+build"), "1.0.0.1");
}

#[test]
fn compare_pads_with_zeros() {
    assert_eq!(compare("1.2", "1.2.0"), Ordering::Equal);
    assert_eq!(compare("1.2", "1.2.1"), Ordering::Less);
    assert_eq!(compare("1.10", "1.9"), Ordering::Greater);
    assert_eq!(compare("", "0"), Ordering::Equal);
    assert_eq!(compare("2", "10"), Ordering::Less);
    assert_eq!(numbers_of("1.02.3"), vec![1, 2, 3]);
    assert_eq!(numbers_of("99999999999999999999.1"), vec![1]);
    assert_eq!(order_of(&vec![1, 2], &vec![1, 2, 0, 1]), -1);
}

#[test]
fn update_by_numbers() {
    assert!(is_update_available("1.2.0", "1.3.0"));
    assert!(!is_update_available("1.3.0", "1.3.0"));
    assert!(!is_update_available("1.3.1", "1.3.0"));
}
