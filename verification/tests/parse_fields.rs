use chrono::Datelike;

use touch_core::parse_day;
use touch_core::parse_hours;
use touch_core::parse_minutes;
use touch_core::parse_month;
use touch_core::parse_seconds;
use touch_core::parse_year;
use touch_core::resolve_stamp;

// [[CC]YY]MMDDhhmm[.ss] for reference...
#[test]
fn test_parse_seconds() {
    assert_eq!(0, parse_seconds(&String::from("01010000")));
    assert_eq!(0, parse_seconds(&String::from("01010000.00")));
    assert_eq!(30, parse_seconds(&String::from("01010000.30")));
    assert_eq!(0, parse_seconds(&String::from("")));
    assert_eq!(7, parse_seconds(&String::from("01010000.07")));
    assert_eq!(5, parse_seconds(&String::from(".05")));
    assert_eq!(50, parse_seconds(&String::from("01010000.5")));
    assert_eq!(0, parse_seconds(&String::from("test")));
    assert_eq!(0, parse_seconds(&String::from("test.test")));
    assert_eq!(0, parse_seconds(&String::from("01010000.75")));
}

#[test]
fn test_parse_minutes() {
    assert_eq!(0, parse_minutes(&String::from("01010000")));
    assert_eq!(0, parse_minutes(&String::from("01010000.00")));
    assert_eq!(1, parse_minutes(&String::from("01010001")));
    assert_eq!(34, parse_minutes(&String::from("01010034.00")));
    assert_eq!(0, parse_minutes(&String::from("01010060")));
    assert_eq!(0, parse_minutes(&String::from("test")));
    assert_eq!(0, parse_minutes(&String::from("test.test")));
    assert_eq!(0, parse_minutes(&String::from("")));
}

#[test]
fn test_parse_hours() {
    assert_eq!(1, parse_hours(&String::from("200001010100.00")));
    assert_eq!(2, parse_hours(&String::from("201302020200.00")));
    assert_eq!(15, parse_hours(&String::from("1612151500.00")));
    assert_eq!(22, parse_hours(&String::from("11242200.00")));
    assert_eq!(0, parse_hours(&String::from("200013322400.00")));
    assert_eq!(0, parse_hours(&String::from("qwertyuiop")));
    assert_eq!(0, parse_hours(&String::from("test")));
    assert_eq!(0, parse_hours(&String::from("test.test")));
    assert_eq!(0, parse_hours(&String::from("")));
}

#[test]
fn test_parse_day() {
    assert_eq!(1, parse_day(&String::from("200001010000.00")));
    assert_eq!(2, parse_day(&String::from("201302020000.00")));
    assert_eq!(15, parse_day(&String::from("1612150000.00")));
    assert_eq!(24, parse_day(&String::from("11240000.00")));
    assert_eq!(1, parse_day(&String::from("200013320000.00")));
    assert_eq!(1, parse_day(&String::from("qwertyuiop")));
    assert_eq!(1, parse_day(&String::from("test")));
    assert_eq!(1, parse_day(&String::from("test.test")));
    assert_eq!(1, parse_day(&String::from("")));
}

#[test]
fn test_parse_month() {
    assert_eq!(1, parse_month(&String::from("200001010000.00")));
    assert_eq!(2, parse_month(&String::from("201302010000.00")));
    assert_eq!(12, parse_month(&String::from("1612010000.00")));
    assert_eq!(11, parse_month(&String::from("11010000.00")));
    assert_eq!(1, parse_month(&String::from("200013010000.00")));
    assert_eq!(1, parse_month(&String::from("qwertyuiop")));
    assert_eq!(1, parse_month(&String::from("test")));
    assert_eq!(1, parse_month(&String::from("test.test")));
    assert_eq!(1, parse_month(&String::from("")));
}

#[test]
fn test_parse_year() {
    let now = chrono::Utc::now();

    assert_eq!(2000, parse_year(&String::from("200001010000.00")));
    assert_eq!(2013, parse_year(&String::from("201301010000.00")));
    assert_eq!(2016, parse_year(&String::from("1601010000.00")));
    assert_eq!(now.year(), parse_year(&String::from("01010000.00")));
    assert_eq!(now.year(), parse_year(&String::from("test")));
    assert_eq!(now.year(), parse_year(&String::from("test.test")));
    assert_eq!(now.year(), parse_year(&String::from("")));
}

#[test]
fn full_stamp_resolves_each_field_at_its_position() {
    let stamp = String::from("201302020230.45");
    assert_eq!(2013, parse_year(&stamp));
    assert_eq!(2, parse_month(&stamp));
    assert_eq!(2, parse_day(&stamp));
    assert_eq!(2, parse_hours(&stamp));
    assert_eq!(30, parse_minutes(&stamp));
    assert_eq!(45, parse_seconds(&stamp));

    let fields = resolve_stamp(&stamp);
    assert_eq!(2013, fields.year);
    assert_eq!(2, fields.month);
    assert_eq!(2, fields.day);
    assert_eq!(2, fields.hour);
    assert_eq!(30, fields.minute);
    assert_eq!(45, fields.second);
}

#[test]
fn out_of_range_seconds_reset_alone() {
    let stamp = String::from("01010000.75");
    assert_eq!(0, parse_seconds(&stamp));
    assert_eq!(0, parse_minutes(&stamp));
    assert_eq!(1, parse_day(&stamp));
    assert_eq!(1, parse_month(&stamp));
}

#[test]
fn short_integer_part_defaults_hour_day_month() {
    let stamp = String::from("1234");
    assert_eq!(0, parse_hours(&stamp));
    assert_eq!(1, parse_day(&stamp));
    assert_eq!(1, parse_month(&stamp));
    assert_eq!(34, parse_minutes(&stamp));
}

#[test]
fn year_inference_by_shape() {
    assert_eq!(2099, parse_year(&String::from("9901011200")));
    let now = chrono::Utc::now();
    assert_eq!(now.year(), parse_year(&String::from("01010000")));
}

#[test]
fn non_numeric_input_yields_all_defaults() {
    let now = chrono::Utc::now();
    for text in ["test", "test.test", ""] {
        let stamp = String::from(text);
        let fields = resolve_stamp(&stamp);
        assert_eq!(now.year(), fields.year);
        assert_eq!(1, fields.month);
        assert_eq!(1, fields.day);
        assert_eq!(0, fields.hour);
        assert_eq!(0, fields.minute);
        assert_eq!(0, fields.second);
    }
}

#[test]
fn lone_suffix_digit_is_padded() {
    assert_eq!(50, parse_seconds(&String::from("0101.5")));
    assert_eq!(0, parse_seconds(&String::from("0101.")));
}

#[test]
fn single_character_integer_part_has_no_minutes_window() {
    assert_eq!(0, parse_minutes(&String::from("5")));
}

#[test]
fn year_token_from_odd_shapes() {
    // a 13-character stamp selects the 4-digit rule even when the integer
    // part is shorter than the token
    assert_eq!(12, parse_year(&String::from("12.4567890123")));
    // a 10-character integer part with a non-numeric token still gets the
    // century added to the failed parse's 0
    assert_eq!(2000, parse_year(&String::from("qwertyuiop")));
}
