use chrono::Timelike;
use markreply::time::{Civil, Timestamp};

fn fields(year: i32, month: u32, day: u32, hour: u32, minute: u32) -> Civil {
    Civil { year, month, day, hour, minute, second: 0, nanosecond: 0 }
}

fn at(year: i32, month: u32, day: u32, hour: u32, minute: u32) -> Timestamp {
    Timestamp::new(fields(year, month, day, hour, minute)).unwrap()
}

#[test]
fn both_forms_of_a_date() {
    let t = at(2024, 3, 5, 14, 7);
    assert_eq!(t.visitor_date(), "Mar 05, 2024 at 14:07");
    assert_eq!(t.admin_date(), "2024-03-05 14:07");
}

#[test]
fn every_month_has_its_name() {
    let names = [
        "Jan", "Feb", "Mar", "Apr", "May", "Jun", "Jul", "Aug", "Sep", "Oct", "Nov", "Dec",
    ];
    for m in 1..13u32 {
        let expected = format!("{} 28, 1999 at 00:59", names[(m - 1) as usize]);
        assert_eq!(at(1999, m, 28, 0, 59).visitor_date(), expected);
    }
}

#[test]
fn years_of_every_width() {
    assert_eq!(at(0, 1, 1, 0, 0).admin_date(), "0000-01-01 00:00");
    assert_eq!(at(7, 1, 1, 0, 0).admin_date(), "0007-01-01 00:00");
    assert_eq!(at(9999, 12, 31, 23, 59).admin_date(), "9999-12-31 23:59");
    assert_eq!(at(10000, 1, 1, 0, 0).admin_date(), "+10000-01-01 00:00");
    assert_eq!(at(-5, 1, 1, 0, 0).admin_date(), "-0005-01-01 00:00");
    assert_eq!(at(-12345, 1, 1, 0, 0).admin_date(), "-12345-01-01 00:00");
    assert_eq!(at(262142, 12, 31, 0, 0).admin_date(), "+262142-12-31 00:00");
    assert_eq!(at(-262143, 1, 1, 0, 0).admin_date(), "-262143-01-01 00:00");
}

#[test]
fn only_moments_that_exist() {
    assert!(Timestamp::new(fields(2024, 2, 29, 0, 0)).is_some());
    assert!(Timestamp::new(fields(2023, 2, 29, 0, 0)).is_none());
    assert!(Timestamp::new(fields(1900, 2, 29, 0, 0)).is_none());
    assert!(Timestamp::new(fields(2000, 2, 29, 0, 0)).is_some());
    assert!(Timestamp::new(fields(-4, 2, 29, 0, 0)).is_some());
    assert!(Timestamp::new(fields(2024, 4, 31, 0, 0)).is_none());
    assert!(Timestamp::new(fields(2024, 0, 1, 0, 0)).is_none());
    assert!(Timestamp::new(fields(2024, 13, 1, 0, 0)).is_none());
    assert!(Timestamp::new(fields(2024, 1, 0, 0, 0)).is_none());
    assert!(Timestamp::new(fields(2024, 1, 1, 24, 0)).is_none());
    assert!(Timestamp::new(fields(2024, 1, 1, 0, 60)).is_none());
    assert!(Timestamp::new(fields(262143, 1, 1, 0, 0)).is_none());
    assert!(Timestamp::new(fields(-262144, 1, 1, 0, 0)).is_none());
}

#[test]
fn leap_seconds_are_a_longer_second() {
    let mut f = fields(2016, 12, 31, 23, 59);
    f.second = 59;
    f.nanosecond = 1_999_999_999;
    let t = Timestamp::new(f).unwrap();
    assert_eq!(t.visitor_date(), "Dec 31, 2016 at 23:59");
    assert_eq!(t.fields(), f);
    f.nanosecond = 2_000_000_000;
    assert!(Timestamp::new(f).is_none());
    f.nanosecond = 0;
    f.second = 60;
    assert!(Timestamp::new(f).is_none());
}

#[test]
fn leap_seconds_follow_any_second() {
    let t = chrono::NaiveDate::from_ymd_opt(2024, 3, 5)
        .unwrap()
        .and_hms_opt(14, 7, 4)
        .unwrap()
        .with_nanosecond(1_333_333_333)
        .unwrap();
    let mut f = fields(2024, 3, 5, 14, 7);
    f.second = t.second();
    f.nanosecond = t.nanosecond();
    assert_eq!(f.nanosecond, 1_333_333_333);
    let held = Timestamp::new(f).unwrap();
    assert_eq!(held.visitor_date(), t.format("%b %d, %Y at %H:%M").to_string());
    assert_eq!(held.admin_date(), "2024-03-05 14:07");
}

#[test]
fn same_moments_as_the_calendar_library() {
    for year in [-262144, -262143, -401, -4, 0, 1899, 1900, 2000, 2023, 2024, 262142, 262143] {
        for month in 0..14u32 {
            for day in 0..33u32 {
                let known = chrono::NaiveDate::from_ymd_opt(year, month, day).is_some();
                assert_eq!(Timestamp::new(fields(year, month, day, 0, 0)).is_some(), known);
            }
        }
    }
}

#[test]
fn fields_come_back() {
    let f = fields(2024, 3, 5, 14, 7);
    assert_eq!(Timestamp::new(f).unwrap().fields(), f);
}

#[test]
fn clock_shows_a_moment_between_two_readings() {
    let before = chrono::Utc::now().naive_utc();
    let f = Timestamp::now().fields();
    let after = chrono::Utc::now().naive_utc();
    let now = chrono::NaiveDate::from_ymd_opt(f.year, f.month, f.day)
        .unwrap()
        .and_hms_nano_opt(f.hour, f.minute, f.second, f.nanosecond)
        .unwrap();
    assert!(before <= now && now <= after);
    assert!(f.year >= 1970);
}
