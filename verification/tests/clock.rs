use polymarket_client::client::api::{ApiCreds, ClobClient};
use polymarket_client::clock::{
    FIRST_SECOND, LAST_SECOND, date_text, next_midnight, tomorrow_after,
};
use polymarket_client::primitives::{Address, Instant};
use polymarket_client::{get_current_unix_time_secs, timestamp_of_tomorrow_at_12am_utc};

#[test]
fn the_calendar_is_that_of_chrono() {
    assert_eq!(chrono::DateTime::<chrono::Utc>::MIN_UTC.timestamp(), FIRST_SECOND);
    assert_eq!(chrono::DateTime::<chrono::Utc>::MAX_UTC.timestamp(), LAST_SECOND);
    assert!(chrono::DateTime::from_timestamp(FIRST_SECOND, 0).is_some());
    assert!(chrono::DateTime::from_timestamp(FIRST_SECOND - 1, 0).is_none());
    assert!(chrono::DateTime::from_timestamp(LAST_SECOND, 0).is_some());
    assert!(chrono::DateTime::from_timestamp(LAST_SECOND + 1, 0).is_none());
}

#[test]
fn midnights() {
    // 2024-02-29 12:34:56 and the start of 2024-03-01.
    assert_eq!(next_midnight(1709210096), 1709251200);
    // A midnight is not its own successor.
    assert_eq!(next_midnight(1709251200), 1709251200 + 86400);
    assert_eq!(next_midnight(1709251199), 1709251200);
    assert_eq!(next_midnight(0), 86400);
    assert_eq!(next_midnight(-1), 0);
    assert_eq!(next_midnight(FIRST_SECOND), FIRST_SECOND + 86400);
    assert_eq!(next_midnight(LAST_SECOND - 86400), LAST_SECOND - 86399);
}

#[test]
fn tomorrow_after_a_reading() {
    assert_eq!(tomorrow_after(Some(1709210096)), Some(1709251200));
    assert_eq!(tomorrow_after(Some(0)), Some(86400));
    let last = (LAST_SECOND - 86400) as u64;
    assert_eq!(tomorrow_after(Some(last)), Some(last + 1));
    assert_eq!(tomorrow_after(Some(last + 1)), None);
    assert_eq!(tomorrow_after(Some(u64::MAX)), None);
    assert_eq!(tomorrow_after(None), None);
}

#[test]
fn tomorrow_is_within_a_day() {
    let before = get_current_unix_time_secs().unwrap();
    let midnight = timestamp_of_tomorrow_at_12am_utc().unwrap();
    let after = get_current_unix_time_secs().unwrap();
    assert!(before > 1_600_000_000);
    assert!(before < midnight);
    assert!(midnight <= after + 86400);
    assert_eq!(midnight % 86400, 0);
}

#[test]
fn dates_are_written_in_utc() {
    let client = ClobClient::new(
        Address::zero(),
        ApiCreds {
            api_key: String::new(),
            secret: String::new(),
            passphrase: String::new(),
        },
    );
    let date = |secs: i64| {
        let req = client.get_total_rewards_earned(Instant { secs, nanos: 5 }, 1).unwrap();
        req.query[0].clone()
    };
    assert_eq!(date(1709210096), ("date".to_owned(), "2024-02-29".to_owned()));
    assert_eq!(date(0), ("date".to_owned(), "1970-01-01".to_owned()));
    assert_eq!(date(-1), ("date".to_owned(), "1969-12-31".to_owned()));
    assert_eq!(date(LAST_SECOND), ("date".to_owned(), "+262142-12-31".to_owned()));
    assert_eq!(date(FIRST_SECOND), ("date".to_owned(), "-262143-01-01".to_owned()));
    assert_eq!(date(-62167219200), ("date".to_owned(), "0000-01-01".to_owned()));
    assert_eq!(date(-62167219201), ("date".to_owned(), "-0001-12-31".to_owned()));
    assert_eq!(date(253402300799), ("date".to_owned(), "9999-12-31".to_owned()));
    assert_eq!(date(253402300800), ("date".to_owned(), "+10000-01-01".to_owned()));
}

#[test]
fn leap_days() {
    assert_eq!(date_text(951782400), "2000-02-29");
    assert_eq!(date_text(951782399), "2000-02-28");
    assert_eq!(date_text(951868800), "2000-03-01");
    assert_eq!(date_text(-2203891201), "1900-02-28");
    assert_eq!(date_text(-2203891200), "1900-03-01");
    assert_eq!(date_text(1709164800), "2024-02-29");
    assert_eq!(date_text(1735689599), "2024-12-31");
}
