use utc_fetcher::http::ReadError;
use utc_fetcher::time::{last_day, leap_year, utc_time, DateTime, Error, Reply};

#[test]
fn leap_years_follow_the_calendar() {
    assert!(leap_year(2024));
    assert!(leap_year(2000));
    assert!(!leap_year(1900));
    assert!(!leap_year(2023));
    assert!(leap_year(0));
    assert!(leap_year(-4));
    assert!(!leap_year(-100));
    assert!(leap_year(-400));
    assert!(leap_year(-9996));
    assert!(!leap_year(9999));
    assert!(leap_year(i32::MIN));
    assert!(!leap_year(i32::MAX));
    assert!(leap_year(2_147_483_600));
    assert!(!leap_year(-2_147_483_500));
}

#[test]
fn months_have_their_days() {
    assert_eq!(last_day(2023, 1), 31);
    assert_eq!(last_day(2023, 2), 28);
    assert_eq!(last_day(2024, 2), 29);
    assert_eq!(last_day(2023, 4), 30);
    assert_eq!(last_day(2023, 6), 30);
    assert_eq!(last_day(2023, 9), 30);
    assert_eq!(last_day(2023, 11), 30);
    assert_eq!(last_day(2023, 12), 31);
}

#[test]
fn only_days_of_the_calendar_make_a_date() {
    assert!(DateTime::new((2024, 2, 29, 0, 0, 0, 0)).is_some());
    assert!(DateTime::new((2023, 2, 29, 0, 0, 0, 0)).is_none());
    assert!(DateTime::new((2023, 4, 31, 0, 0, 0, 0)).is_none());
    assert!(DateTime::new((2023, 0, 1, 0, 0, 0, 0)).is_none());
    assert!(DateTime::new((2023, 13, 1, 0, 0, 0, 0)).is_none());
    assert!(DateTime::new((2023, 1, 0, 0, 0, 0, 0)).is_none());
    assert!(DateTime::new((10000, 1, 1, 0, 0, 0, 0)).is_none());
    assert!(DateTime::new((-10000, 1, 1, 0, 0, 0, 0)).is_none());
    assert!(DateTime::new((-9999, 1, 1, 0, 0, 0, 0)).is_some());
    assert!(DateTime::new((9999, 12, 31, 23, 59, 59, 999_999_999)).is_some());
}

#[test]
fn only_times_of_the_day_make_a_time() {
    assert!(DateTime::new((2023, 1, 1, 24, 0, 0, 0)).is_none());
    assert!(DateTime::new((2023, 1, 1, 0, 60, 0, 0)).is_none());
    assert!(DateTime::new((2023, 1, 1, 0, 0, 60, 0)).is_none());
    assert!(DateTime::new((2023, 1, 1, 0, 0, 0, 1_000_000_000)).is_none());
}

#[test]
fn a_date_keeps_its_fields() {
    let fields = (2023, 8, 25, 12, 34, 56, 789_000_000);
    assert_eq!(DateTime::new(fields).map(|d| d.fields()), Some(fields));
}

#[test]
fn the_text_of_the_service_is_read() {
    let parsed = DateTime::parse("2023-08-25T12:34:56.789");
    assert_eq!(parsed.map(|d| d.fields()), Ok((2023, 8, 25, 12, 34, 56, 789_000_000)));
    let fine = DateTime::parse("2024-02-29T00:00:00.1234567");
    assert_eq!(fine.map(|d| d.fields()), Ok((2024, 2, 29, 0, 0, 0, 123_456_700)));
}

#[test]
fn other_text_is_no_date() {
    assert_eq!(DateTime::parse("yesterday"), Err(Error::DateTimeParse));
    assert_eq!(DateTime::parse(""), Err(Error::DateTimeParse));
    assert_eq!(DateTime::parse("2023-02-29T12:34:56.789"), Err(Error::DateTimeParse));
    assert_eq!(DateTime::parse("2023-08-25 12:34:56.789"), Err(Error::DateTimeParse));
    assert_eq!(DateTime::parse("2023-08-25T12:34:56"), Err(Error::DateTimeParse));
}

#[test]
fn a_parse_that_gave_nothing_is_no_date() {
    assert_eq!(DateTime::from_parsed(None), Err(Error::DateTimeParse));
    assert_eq!(
        DateTime::from_parsed(Some((2023, 2, 30, 0, 0, 0, 0))),
        Err(Error::DateTimeParse)
    );
    assert_eq!(
        DateTime::from_parsed(Some((2023, 2, 28, 1, 2, 3, 4))).map(|d| d.fields()),
        Ok((2023, 2, 28, 1, 2, 3, 4))
    );
}

#[test]
fn a_date_is_written_as_date_and_time() {
    let d = DateTime::new((2023, 8, 25, 12, 34, 56, 789_000_000)).unwrap();
    assert_eq!(d.to_string(), "2023-08-25 12:34:56.789");
}

#[test]
fn no_text_is_written_as_nothing() {
    assert_eq!(DateTime::written(None), "");
    assert_eq!(DateTime::written(Some("2023-08-25 1:02:03.0".to_string())), "2023-08-25 1:02:03.0");
}

#[test]
fn an_exchange_gives_the_time_or_says_why_not() {
    assert_eq!(utc_time(Reply::RequestFailed(-1)), Err(Error::InitiateResponse(-1)));
    assert_eq!(utc_time(Reply::ResponseFailed(263)), Err(Error::SubmitRequest(263)));
    assert_eq!(
        utc_time(Reply::Unreadable(ReadError::Empty)),
        Err(Error::Read(ReadError::Empty))
    );
    assert_eq!(utc_time(Reply::Unknown), Err(Error::TimeResultDeserialize));
    assert_eq!(
        utc_time(Reply::DateTime("not a date".to_string())),
        Err(Error::TimeResultDeserialize)
    );
    assert_eq!(
        utc_time(Reply::DateTime("2023-08-25T12:34:56.5".to_string())).map(|d| d.fields()),
        Ok((2023, 8, 25, 12, 34, 56, 500_000_000))
    );
}
