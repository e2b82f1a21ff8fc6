use sw_install::{format_time_ago, BinaryInfo, InstallError, Lister, SortOrder};

const NOW: u64 = 1_700_000_000;

fn check_seconds() {
    assert_eq!(format_time_ago(NOW, NOW - 30), "30 seconds ago");
}

#[test]
fn lister_test_format_time_ago_seconds() {
    check_seconds();
}

#[test]
fn lister_tests_test_format_time_ago_seconds() {
    check_seconds();
}

fn check_minutes() {
    assert_eq!(format_time_ago(NOW, NOW - 120), "2 minutes ago");
}

#[test]
fn lister_test_format_time_ago_minutes() {
    check_minutes();
}

#[test]
fn lister_tests_test_format_time_ago_minutes() {
    check_minutes();
}

fn check_one_minute() {
    assert_eq!(format_time_ago(NOW, NOW - 60), "1 minute ago");
}

#[test]
fn lister_test_format_time_ago_one_minute() {
    check_one_minute();
}

#[test]
fn lister_tests_test_format_time_ago_one_minute() {
    check_one_minute();
}

fn check_hours() {
    assert_eq!(format_time_ago(NOW, NOW - 3 * 3600), "3 hours ago");
}

#[test]
fn lister_test_format_time_ago_hours() {
    check_hours();
}

#[test]
fn lister_tests_test_format_time_ago_hours() {
    check_hours();
}

fn check_days() {
    assert_eq!(format_time_ago(NOW, NOW - 2 * 24 * 3600), "2 days ago");
}

#[test]
fn lister_test_format_time_ago_days() {
    check_days();
}

#[test]
fn lister_tests_test_format_time_ago_days() {
    check_days();
}

fn check_weeks() {
    assert_eq!(format_time_ago(NOW, NOW - 2 * 7 * 24 * 3600), "2 weeks ago");
}

#[test]
fn lister_test_format_time_ago_weeks() {
    check_weeks();
}

#[test]
fn lister_tests_test_format_time_ago_weeks() {
    check_weeks();
}

fn check_months() {
    assert_eq!(format_time_ago(NOW, NOW - 3 * 30 * 24 * 3600), "3 months ago");
}

#[test]
fn lister_test_format_time_ago_months() {
    check_months();
}

#[test]
fn lister_tests_test_format_time_ago_months() {
    check_months();
}

fn check_years() {
    assert_eq!(format_time_ago(NOW, NOW - 2 * 365 * 24 * 3600), "2 years ago");
}

#[test]
fn lister_test_format_time_ago_years() {
    check_years();
}

#[test]
fn lister_tests_test_format_time_ago_years() {
    check_years();
}

#[test]
fn format_time_ago_edges() {
    assert_eq!(format_time_ago(NOW, NOW), "0 seconds ago");
    assert_eq!(format_time_ago(NOW, NOW + 500), "0 seconds ago");
    assert_eq!(format_time_ago(NOW, NOW - 59), "59 seconds ago");
    assert_eq!(format_time_ago(NOW, NOW - 3600), "1 hour ago");
    assert_eq!(format_time_ago(NOW, NOW - 24 * 3600), "1 day ago");
    assert_eq!(format_time_ago(NOW, NOW - 29 * 24 * 3600), "4 weeks ago");
    assert_eq!(format_time_ago(NOW, NOW - 364 * 24 * 3600), "12 months ago");
    assert_eq!(format_time_ago(NOW, NOW - 365 * 24 * 3600), "1 year ago");
    assert_eq!(format_time_ago(u64::MAX, 0), "584942417355 years ago");
}

fn check_sort_order_from_str() {
    assert_eq!("name".parse::<SortOrder>().unwrap(), SortOrder::Name);
    assert_eq!("Name".parse::<SortOrder>().unwrap(), SortOrder::Name);
    assert_eq!("NAME".parse::<SortOrder>().unwrap(), SortOrder::Name);
    assert_eq!("oldest".parse::<SortOrder>().unwrap(), SortOrder::Oldest);
    assert_eq!("newest".parse::<SortOrder>().unwrap(), SortOrder::Newest);
    assert!("invalid".parse::<SortOrder>().is_err());
}

#[test]
fn lister_test_sort_order_from_str() {
    check_sort_order_from_str();
}

#[test]
fn lister_tests_test_sort_order_from_str() {
    check_sort_order_from_str();
}

#[test]
fn invalid_sort_order_keeps_text() {
    let e = SortOrder::parse("Sideways").unwrap_err();
    assert_eq!(e.0, "Sideways");
    assert_eq!(e.message(), "Invalid sort order 'Sideways'. Valid options are: name, oldest, newest");
    assert_eq!(SortOrder::from_lowered("oldest", "OLDEST").unwrap(), SortOrder::Oldest);
    assert!(SortOrder::from_lowered("OLDEST", "OLDEST").is_err());
}

fn check_list_fails_when_dir_missing() {
    let lister = Lister::new(Some("/tmp/home/nonexistent".to_string()), SortOrder::Name);
    let result = lister.list("/tmp/home/nonexistent", false, Vec::new());
    assert!(result.is_err());
    assert!(matches!(result.unwrap_err(), InstallError::InstallDirNotFound(_)));
}

#[test]
fn lister_test_list_fails_when_dir_does_not_exist() {
    check_list_fails_when_dir_missing();
}

#[test]
fn lister_tests_test_list_fails_when_dir_does_not_exist() {
    check_list_fails_when_dir_missing();
}

#[test]
fn lister_test_destination_dir_with_test_dir() {
    let lister = Lister::new(Some("/tmp/home/bin".to_string()), SortOrder::Name);
    assert_eq!(lister.destination_dir(None).unwrap(), "/tmp/home/bin");
}

fn info(name: &str, modified: u64) -> BinaryInfo {
    BinaryInfo { name: name.to_string(), modified }
}

fn names(v: &[BinaryInfo]) -> Vec<&str> {
    v.iter().map(|b| b.name.as_str()).collect()
}

#[test]
fn list_sorts_by_name() {
    let lister = Lister::new(None, SortOrder::Name);
    let v = lister
        .list("/bin", true, vec![info("zebra", 1), info("alpha", 2), info("middle", 3)])
        .unwrap();
    assert_eq!(names(&v), vec!["alpha", "middle", "zebra"]);
}

#[test]
fn list_sorts_by_age() {
    let bins = || vec![info("second", 200), info("first", 100), info("third", 300)];
    let oldest = Lister::new(None, SortOrder::Oldest).list("/bin", true, bins()).unwrap();
    assert_eq!(names(&oldest), vec!["first", "second", "third"]);
    let newest = Lister::new(None, SortOrder::Newest).list("/bin", true, bins()).unwrap();
    assert_eq!(names(&newest), vec!["third", "second", "first"]);
}

#[test]
fn list_of_nothing_is_empty() {
    let v = Lister::new(None, SortOrder::Name).list("/bin", true, Vec::new()).unwrap();
    assert!(v.is_empty());
}

#[test]
fn equal_times_keep_their_order() {
    let bins = vec![info("b", 5), info("a", 5), info("c", 1)];
    let oldest = Lister::new(None, SortOrder::Oldest).list("/bin", true, bins).unwrap();
    assert_eq!(names(&oldest), vec!["c", "b", "a"]);
    let bins = vec![info("b", 5), info("a", 5), info("c", 9)];
    let newest = Lister::new(None, SortOrder::Newest).list("/bin", true, bins).unwrap();
    assert_eq!(names(&newest), vec!["c", "b", "a"]);
}

#[test]
fn names_sort_by_character() {
    let bins = vec![info("b", 1), info("B", 1), info("ab", 1), info("a", 1)];
    let v = Lister::new(None, SortOrder::Name).list("/bin", true, bins).unwrap();
    assert_eq!(names(&v), vec!["B", "a", "ab", "b"]);
}
