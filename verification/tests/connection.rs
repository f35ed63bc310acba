use innoapp_agent::connection::{
    is_stale, is_stale_at, seconds_between, seconds_since_iso_utc, seconds_since_iso_utc_at,
    stale_verdict, status_file_path,
};
use innoapp_agent::timestamp::{days_from_civil_exec, epoch_from_iso_bytes, parse_iso_utc_to_epoch};

#[test]
fn epoch_of_unix_zero() {
    assert_eq!(parse_iso_utc_to_epoch("1970-01-01T00:00:00Z"), Some(0));
    assert_eq!(parse_iso_utc_to_epoch("1970-01-01T00:00:01.500Z"), Some(1));
    assert_eq!(parse_iso_utc_to_epoch("2000-01-01T00:00:00Z"), Some(946_684_800));
    // 2026-09-10T20:43:18Z  (checked against `date -u -d ... +%s`)
    assert_eq!(parse_iso_utc_to_epoch("2026-09-10T20:43:18.244Z"), Some(1_789_072_998));
}

#[test]
fn stale_detection() {
    // A date of the distant past is always stale; so is garbage.
    assert!(is_stale("2020-01-01T00:00:00Z"));
    assert!(is_stale("no es una fecha"));

    // "Now" (give or take the few seconds of the test) is not stale.
    let now_secs = std::time::SystemTime::now()
        .duration_since(std::time::UNIX_EPOCH)
        .unwrap()
        .as_secs() as i64;
    let elapsed = seconds_since_iso_utc("2020-01-01T00:00:00Z").unwrap();
    assert!(elapsed > 0 && elapsed == now_secs - 1_577_836_800);
}

#[test]
fn epoch_of_calendar_edges() {
    assert_eq!(parse_iso_utc_to_epoch("1969-12-31T23:59:59Z"), Some(-1));
    assert_eq!(parse_iso_utc_to_epoch("2024-02-29T12:00:00Z"), Some(1_709_208_000));
    assert_eq!(parse_iso_utc_to_epoch("2024-03-01T00:00:00Z"), Some(1_709_251_200));
    assert_eq!(parse_iso_utc_to_epoch("2000-03-01T00:00:00Z"), Some(951_868_800));
    assert_eq!(parse_iso_utc_to_epoch("1900-03-01T00:00:00Z"), Some(-2_203_891_200));
    assert_eq!(parse_iso_utc_to_epoch("1600-01-01T00:00:00Z"), Some(-11_676_096_000));
    assert_eq!(parse_iso_utc_to_epoch("9999-12-31T23:59:59Z"), Some(253_402_300_799));
}

#[test]
fn days_from_civil_values() {
    assert_eq!(days_from_civil_exec(1970, 1, 1), 0);
    assert_eq!(days_from_civil_exec(1970, 1, 2), 1);
    assert_eq!(days_from_civil_exec(1971, 1, 1), 365);
    assert_eq!(days_from_civil_exec(1973, 1, 1), 365 * 3 + 1);
    assert_eq!(days_from_civil_exec(1969, 12, 31), -1);
    assert_eq!(days_from_civil_exec(2000, 2, 29) + 1, days_from_civil_exec(2000, 3, 1));
    assert_eq!(days_from_civil_exec(1900, 2, 28) + 1, days_from_civil_exec(1900, 3, 1));
}

#[test]
fn stamp_fields_read_like_from_str() {
    // Fields are only read where they stand; the separators are not checked.
    assert_eq!(parse_iso_utc_to_epoch("1970x01x01x00x00x05"), Some(5));
    // A sign is accepted, as `i64::from_str` accepts one.
    assert_eq!(parse_iso_utc_to_epoch("1970-01-01T00:00:+5Z"), Some(5));
    assert_eq!(parse_iso_utc_to_epoch("1970-01-01T00:-1:00Z"), Some(-60));
    // Too short, a letter, a lone sign, a non-ASCII character: no reading.
    assert_eq!(parse_iso_utc_to_epoch("1970-01-01T00:00:0"), None);
    assert_eq!(parse_iso_utc_to_epoch(""), None);
    assert_eq!(parse_iso_utc_to_epoch("197a-01-01T00:00:00Z"), None);
    assert_eq!(parse_iso_utc_to_epoch("1970-01-01T00:00:-Z"), None);
    assert_eq!(parse_iso_utc_to_epoch("1970-01-01T00:0é:00Z"), None);
    assert_eq!(parse_iso_utc_to_epoch("ñ970-01-01T00:00:00Z"), None);
    // What follows the seconds is ignored.
    assert_eq!(
        parse_iso_utc_to_epoch("2026-09-10T20:43:18 anything"),
        parse_iso_utc_to_epoch("2026-09-10T20:43:18")
    );
    assert_eq!(epoch_from_iso_bytes(b"2000-01-01T00:00:00Z"), Some(946_684_800));
    assert_eq!(epoch_from_iso_bytes(&[0xff; 19]), None);
}

#[test]
fn staleness_at_a_given_clock() {
    let stamp = "2000-01-01T00:00:00Z";
    let t = 946_684_800u64;
    assert_eq!(seconds_since_iso_utc_at(stamp, Some(t + 7)), Some(7));
    assert_eq!(seconds_since_iso_utc_at(stamp, None), None);
    assert_eq!(seconds_since_iso_utc_at("garbage", Some(t)), None);
    assert!(!is_stale_at(stamp, Some(t)));
    assert!(!is_stale_at(stamp, Some(t + 40)));
    assert!(is_stale_at(stamp, Some(t + 41)));
    assert!(!is_stale_at(stamp, Some(t - 40)));
    assert!(is_stale_at(stamp, Some(t - 41)));
    assert!(is_stale_at(stamp, None));
    assert!(is_stale_at("garbage", Some(t)));
    assert!(stale_verdict(None));
    assert!(!stale_verdict(Some(-40)));
    assert!(stale_verdict(Some(41)));
}

#[test]
fn seconds_between_fits_in_i64() {
    assert_eq!(seconds_between(10, 25), Some(15));
    assert_eq!(seconds_between(-10, 0), Some(10));
    assert_eq!(seconds_between(0, u64::MAX), None);
    assert_eq!(seconds_between(-1, i64::MAX as u64), None);
    assert_eq!(seconds_between(i64::MIN, 0), None);
}

#[test]
fn fresh_snapshot_is_not_stale_now() {
    let now_secs = std::time::SystemTime::now()
        .duration_since(std::time::UNIX_EPOCH)
        .unwrap()
        .as_secs() as i64;
    let days = now_secs.div_euclid(86_400);
    let rest = now_secs.rem_euclid(86_400);
    // Back from the day count to a civil date (Hinnant's civil_from_days).
    let z = days + 719_468;
    let era = z.div_euclid(146_097);
    let doe = z - era * 146_097;
    let yoe = (doe - doe / 1460 + doe / 36_524 - doe / 146_096) / 365;
    let doy = doe - (365 * yoe + yoe / 4 - yoe / 100);
    let mp = (5 * doy + 2) / 153;
    let d = doy - (153 * mp + 2) / 5 + 1;
    let m = if mp < 10 { mp + 3 } else { mp - 9 };
    let y = yoe + era * 400 + if m <= 2 { 1 } else { 0 };
    let stamp = format!(
        "{:04}-{:02}-{:02}T{:02}:{:02}:{:02}.000Z",
        y,
        m,
        d,
        rest / 3600,
        rest % 3600 / 60,
        rest % 60
    );
    assert_eq!(parse_iso_utc_to_epoch(&stamp), Some(now_secs));
    assert!(!is_stale(&stamp));
}

#[test]
fn status_file_lives_in_the_data_folder() {
    assert_eq!(status_file_path(), "C:\\ProgramData\\InnoApp Agent\\status.json");
}
