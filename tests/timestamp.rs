use legacy_to_git::timestamp::{commit_unix_time, excel_date_to_unix_timestamp};

#[test]
fn new_year_2023() {
    assert_eq!(excel_date_to_unix_timestamp(44927), Some(1672531200));
}

#[test]
fn unix_epoch_serial() {
    assert_eq!(excel_date_to_unix_timestamp(25569), Some(0));
    assert_eq!(excel_date_to_unix_timestamp(25568), Some(-86400));
}

#[test]
fn conversion_is_monotonic() {
    let a = excel_date_to_unix_timestamp(44927).unwrap();
    let b = excel_date_to_unix_timestamp(44928).unwrap();
    assert!(a < b);
    assert_eq!(b - a, 86400);
}

#[test]
fn out_of_range_serial() {
    assert_eq!(excel_date_to_unix_timestamp(i64::MAX), None);
    assert_eq!(excel_date_to_unix_timestamp(i64::MIN), None);
}

#[test]
fn missing_date_is_epoch() {
    assert_eq!(commit_unix_time(None), 0);
    assert_eq!(commit_unix_time(Some(i64::MAX)), 0);
    assert_eq!(commit_unix_time(Some(44927)), 1672531200);
}
