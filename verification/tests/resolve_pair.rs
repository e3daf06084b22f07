use filetime::FileTime;

use touch_core::parse_tstamp;
use touch_core::resolve_timestamp_pair;

#[test]
fn reference_times_are_copied_verbatim() {
    let atime = FileTime::from_unix_time(946684800, 0);
    let mtime = FileTime::from_unix_time(1000000000, 0);
    let stamp = String::from("201302020230.45");
    let pair = resolve_timestamp_pair(Some((atime, mtime)), Some(&stamp));
    assert_eq!(atime, pair.access);
    assert_eq!(mtime, pair.modification);
}

#[test]
fn stamp_sets_both_sides_to_one_moment() {
    let stamp = String::from("201302020230.45");
    let pair = resolve_timestamp_pair(None, Some(&stamp));
    assert_eq!(pair.access, pair.modification);
    assert_eq!(pair.access, parse_tstamp(&stamp));
}

#[test]
fn no_source_sets_both_sides_to_one_moment() {
    let pair = resolve_timestamp_pair(None, None);
    assert_eq!(pair.access, pair.modification);
}

#[test]
fn distinct_stamps_resolve_to_distinct_moments() {
    let early = parse_tstamp(&String::from("197001021200"));
    let late = parse_tstamp(&String::from("200507041200"));
    assert!(early < late);
    assert_eq!(early, parse_tstamp(&String::from("197001021200")));
}
