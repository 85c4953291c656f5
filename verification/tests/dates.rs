use taliyah::dates::{date_or_unreleased, write_long_date, year_or_unreleased, Date};

#[test]
fn new_takes_days_of_the_calendar() {
    let date = Date::new(2010, 7, 16).unwrap();
    assert_eq!((date.year, date.month, date.day), (2010, 7, 16));
    assert!(Date::new(2024, 2, 29).is_some());
    assert!(Date::new(2000, 2, 29).is_some());
    assert!(Date::new(-4, 2, 29).is_some());
    assert!(Date::new(0, 2, 29).is_some());
    assert!(Date::new(2023, 12, 31).is_some());
    assert!(Date::new(2023, 1, 1).is_some());
    assert!(Date::new(262142, 12, 31).is_some());
    assert!(Date::new(-262143, 1, 1).is_some());
}

#[test]
fn new_refuses_what_is_no_day() {
    assert!(Date::new(2023, 2, 29).is_none());
    assert!(Date::new(1900, 2, 29).is_none());
    assert!(Date::new(2100, 2, 29).is_none());
    assert!(Date::new(2023, 4, 31).is_none());
    assert!(Date::new(2023, 6, 31).is_none());
    assert!(Date::new(2023, 9, 31).is_none());
    assert!(Date::new(2023, 11, 31).is_none());
    assert!(Date::new(2023, 1, 32).is_none());
    assert!(Date::new(2023, 0, 1).is_none());
    assert!(Date::new(2023, 13, 1).is_none());
    assert!(Date::new(2023, 1, 0).is_none());
    assert!(Date::new(262143, 1, 1).is_none());
    assert!(Date::new(-262144, 12, 31).is_none());
}

#[test]
fn new_agrees_with_the_date_library() {
    for year in [-400, -5, -4, -1, 0, 1, 4, 100, 400, 1900, 1999, 2000, 2023, 2024, 2100] {
        for month in 0..14u32 {
            for day in 0..33u32 {
                let expected = chrono::NaiveDate::from_ymd_opt(year, month, day).is_some();
                assert_eq!(Date::new(year, month, day).is_some(), expected);
            }
        }
    }
}

#[test]
fn parse_reads_year_month_and_day() {
    let date = Date::parse("2010-07-16").unwrap();
    assert_eq!((date.year, date.month, date.day), (2010, 7, 16));
    let date = Date::parse("2008-05-02").unwrap();
    assert_eq!((date.year, date.month, date.day), (2008, 5, 2));
    let date = Date::parse("1999-12-31").unwrap();
    assert_eq!((date.year, date.month, date.day), (1999, 12, 31));
}

#[test]
fn parse_refuses_what_is_no_date() {
    assert!(Date::parse("not-a-date").is_none());
    assert!(Date::parse("").is_none());
    assert!(Date::parse("2010").is_none());
    assert!(Date::parse("2010-07").is_none());
    assert!(Date::parse("2010-13-01").is_none());
    assert!(Date::parse("2010-02-30").is_none());
    assert!(Date::parse("16/07/2010").is_none());
}

#[test]
fn long_text_names_the_month() {
    let date = Date::new(2010, 7, 16).unwrap();
    assert_eq!(date.long_text(), "July 16, 2010");
    let date = Date::new(1979, 5, 25).unwrap();
    assert_eq!(date.long_text(), "May 25, 1979");
    let date = Date::new(2021, 12, 1).unwrap();
    assert_eq!(date.long_text(), "December 1, 2021");
}

#[test]
fn long_text_does_not_pad_the_day() {
    assert_eq!(Date::new(2008, 7, 4).unwrap().long_text(), "July 4, 2008");
    assert_eq!(Date::new(2010, 1, 1).unwrap().long_text(), "January 1, 2010");
    assert_eq!(Date::new(2010, 2, 9).unwrap().long_text(), "February 9, 2010");
    assert_eq!(Date::new(2010, 3, 10).unwrap().long_text(), "March 10, 2010");
    assert_eq!(Date::new(2010, 10, 31).unwrap().long_text(), "October 31, 2010");
}

#[test]
fn long_text_names_every_month() {
    let names = [
        "January", "February", "March", "April", "May", "June", "July", "August", "September",
        "October", "November", "December",
    ];
    for (i, name) in names.iter().enumerate() {
        let date = Date::new(2001, i as u32 + 1, 28).unwrap();
        assert_eq!(date.long_text(), format!("{} 28, 2001", name));
    }
}

#[test]
fn long_text_writes_a_short_year_in_four_digits() {
    assert_eq!(Date::new(0, 1, 1).unwrap().long_text(), "January 1, 0000");
    assert_eq!(Date::new(5, 6, 7).unwrap().long_text(), "June 7, 0005");
    assert_eq!(Date::new(44, 3, 15).unwrap().long_text(), "March 15, 0044");
    assert_eq!(Date::new(999, 12, 31).unwrap().long_text(), "December 31, 0999");
    assert_eq!(Date::new(1000, 1, 1).unwrap().long_text(), "January 1, 1000");
    assert_eq!(Date::new(9999, 12, 31).unwrap().long_text(), "December 31, 9999");
}

#[test]
fn long_text_writes_the_sign_of_a_far_year() {
    assert_eq!(Date::new(-1, 1, 1).unwrap().long_text(), "January 1, -0001");
    assert_eq!(Date::new(-44, 3, 15).unwrap().long_text(), "March 15, -0044");
    assert_eq!(Date::new(-999, 2, 2).unwrap().long_text(), "February 2, -0999");
    assert_eq!(Date::new(-1000, 2, 2).unwrap().long_text(), "February 2, -1000");
    assert_eq!(Date::new(-9999, 2, 2).unwrap().long_text(), "February 2, -9999");
    assert_eq!(Date::new(-10000, 2, 2).unwrap().long_text(), "February 2, -10000");
    assert_eq!(Date::new(-262143, 1, 1).unwrap().long_text(), "January 1, -262143");
    assert_eq!(Date::new(10000, 1, 1).unwrap().long_text(), "January 1, +10000");
    assert_eq!(Date::new(262142, 12, 31).unwrap().long_text(), "December 31, +262142");
}

#[test]
fn write_long_date_writes_what_it_can_read() {
    assert_eq!(write_long_date("2010-07-16"), Some("July 16, 2010".to_string()));
    assert_eq!(write_long_date("2008-05-02"), Some("May 2, 2008".to_string()));
    assert_eq!(write_long_date("not-a-date"), None);
    assert_eq!(write_long_date(""), None);
}

#[test]
fn date_or_unreleased_keeps_what_was_written() {
    assert_eq!(date_or_unreleased(Some("July 16, 2010".to_string())), "July 16, 2010");
    assert_eq!(date_or_unreleased(None), "Unreleased");
    assert_eq!(date_or_unreleased(Some(String::new())), "Unreleased");
}

#[test]
fn date_that_cannot_be_read_is_unreleased() {
    assert_eq!(date_or_unreleased(write_long_date("not-a-date")), "Unreleased");
    assert_eq!(date_or_unreleased(write_long_date("")), "Unreleased");
    assert_eq!(date_or_unreleased(write_long_date("2014-11-05")), "November 5, 2014");
}

#[test]
fn year_of_a_date_that_was_read() {
    assert_eq!(year_or_unreleased(Date::parse("2008-05-02")), "2008");
    assert_eq!(year_or_unreleased(Date::parse("1999-12-31")), "1999");
    assert_eq!(year_or_unreleased(Date::parse("")), "Unreleased");
    assert_eq!(year_or_unreleased(Date::parse("soon")), "Unreleased");
}

#[test]
fn year_or_unreleased_writes_the_year() {
    assert_eq!(year_or_unreleased(Date::new(2012, 5, 4)), "2012");
    assert_eq!(year_or_unreleased(Date::new(-44, 3, 15)), "-44");
    assert_eq!(year_or_unreleased(None), "Unreleased");
}
