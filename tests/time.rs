use destiny_api::text::{signed_text, unsigned_text};
use destiny_api::time::{parse_from_string, time_to_json, Timestamp};

#[test]
fn test_times() {
    assert_eq!("2018-04-05 18:10:58", parse_from_string(String::from("2018-04-05T18:10:58.836Z")).expect("Extra Precise Failed").to_string());
    println!("Extra Precise - Working");
    assert_eq!("2018-04-05 18:10:58", parse_from_string(String::from("2018-04-05T18:10:58Z")).expect("Normal Precision Failed").to_string());
    println!("Normal Precision - Working");
}

#[test]
fn zulu_times_read_their_fields() {
    let t = parse_from_string(String::from("2021-05-13T11:40:48.856Z")).unwrap();
    assert_eq!(
        t,
        Timestamp { year: 2021, month: 5, day: 13, hour: 11, minute: 40, second: 48 }
    );
    assert!(parse_from_string(String::from("2021-05-13 11:40:48")).is_none());
    assert!(parse_from_string(String::from("2021-13-13T11:40:48Z")).is_none());
    assert!(parse_from_string(String::from("")).is_none());
}

#[test]
fn timestamps_render_padded() {
    let t = Timestamp { year: 7, month: 1, day: 2, hour: 3, minute: 4, second: 5 };
    assert_eq!(t.to_string(), "0007-01-02 03:04:05");
    let t = Timestamp { year: 12345, month: 12, day: 31, hour: 23, minute: 59, second: 59 };
    assert_eq!(t.to_string(), "+12345-12-31 23:59:59");
}

#[test]
fn integers_render_in_decimal() {
    assert_eq!(unsigned_text(0), "0");
    assert_eq!(unsigned_text(4611686018468620320), "4611686018468620320");
    assert_eq!(unsigned_text(u64::MAX), "18446744073709551615");
    assert_eq!(signed_text(-1), "-1");
    assert_eq!(signed_text(i64::MIN), "-9223372036854775808");
    assert_eq!(signed_text(254), "254");
}

#[test]
fn times_write_as_rfc3339() {
    let t = parse_from_string(String::from("2018-04-05T18:10:58.836Z")).unwrap();
    assert_eq!(time_to_json(Some(t)).unwrap(), "2018-04-05T18:10:58+00:00");
    assert_eq!(time_to_json(None).unwrap(), "");
    let bad = Timestamp { year: 2018, month: 13, day: 1, hour: 0, minute: 0, second: 0 };
    assert!(time_to_json(Some(bad)).is_none());
}
