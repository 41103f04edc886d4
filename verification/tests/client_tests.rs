//! Request construction: URLs, the bearer header, the list-reminds query,
//! and the text helpers they rest on.

use lecto::{i64_to_string, join_url, parse_i64, u64_to_string, Client, Date, Timestamp};

#[test]
fn test_join_url() {
    let paths = vec!["debtors".to_owned(), "hoge.json".to_owned()];
    assert_eq!(
        join_url("https://hoge.com/api/v1", &paths),
        "https://hoge.com/api/v1/debtors/hoge.json"
    );
    assert_eq!(
        join_url("https://hoge.com/api/v1/", &paths),
        "https://hoge.com/api/v1/debtors/hoge.json"
    );
}

#[test]
fn client_stores_its_configuration() {
    let c = Client::new("apikey".to_owned(), "https://example.com".to_owned(), 3, 10);
    assert_eq!(c.api_key, "apikey");
    assert_eq!(c.base_url, "https://example.com");
    assert_eq!(c.max_retry, 3);
    assert_eq!(c.timeout_secs, 10);
}

#[test]
fn auth_header_carries_the_bearer_token() {
    let c = Client::new("apikey".to_owned(), "https://example.com".to_owned(), 1, 10);
    let (name, value) = c.auth_header();
    assert_eq!(name, "Authorization");
    assert_eq!(value, "Bearer apikey");
}

#[test]
fn operation_urls_join_base_and_fixed_segments() {
    let c = Client::new("k".to_owned(), "https://example.com/api/".to_owned(), 1, 10);
    assert_eq!(c.debtors_url(), "https://example.com/api/debtors");
    assert_eq!(c.debts_url(), "https://example.com/api/debts");
    assert_eq!(c.debt_statuses_url(), "https://example.com/api/debt_statuses");
    assert_eq!(
        c.reminds_url(1),
        "https://example.com/api/remind_groups/1/reminds"
    );
    assert_eq!(
        c.reminds_url(38553),
        "https://example.com/api/remind_groups/38553/reminds"
    );
}

#[test]
fn reminds_query_includes_the_group_status_flag_for_any_date() {
    for (y, m, d, iso) in [
        (2022u16, 2u8, 2u8, "2022-02-02"),
        (1999, 12, 31, "1999-12-31"),
        (987, 1, 9, "0987-01-09"),
    ] {
        let q = Client::reminds_query(&Date {
            year: y,
            month: m,
            day: d,
        });
        assert_eq!(q.len(), 2);
        assert_eq!(q[0].0, "remind_at");
        assert_eq!(q[0].1, iso);
        assert_eq!(q[1].0, "ignore_remind_group_status");
        assert_eq!(q[1].1, "true");
    }
}

#[test]
fn dates_format_zero_padded() {
    let d = Date {
        year: 2022,
        month: 2,
        day: 2,
    };
    assert_eq!(d.format_iso(), "2022-02-02");
}

#[test]
fn timestamps_format_as_rfc3339_with_offset() {
    let t = Timestamp {
        date: Date {
            year: 2022,
            month: 3,
            day: 12,
        },
        hour: 0,
        minute: 31,
        second: 57,
        offset_minutes: 540,
    };
    assert_eq!(t.format_rfc3339(), "2022-03-12T00:31:57+09:00");
    let t = Timestamp {
        date: Date {
            year: 9999,
            month: 12,
            day: 31,
        },
        hour: 23,
        minute: 59,
        second: 59,
        offset_minutes: -330,
    };
    assert_eq!(t.format_rfc3339(), "9999-12-31T23:59:59-05:30");
    let t = Timestamp {
        date: Date {
            year: 2021,
            month: 1,
            day: 1,
        },
        hour: 10,
        minute: 0,
        second: 0,
        offset_minutes: 0,
    };
    assert_eq!(t.format_rfc3339(), "2021-01-01T10:00:00+00:00");
}

#[test]
fn numbers_format_in_decimal() {
    assert_eq!(u64_to_string(0), "0");
    assert_eq!(u64_to_string(1234567890), "1234567890");
    assert_eq!(i64_to_string(0), "0");
    assert_eq!(i64_to_string(-5), "-5");
    assert_eq!(i64_to_string(9223372036854775807), "9223372036854775807");
    assert_eq!(i64_to_string(i64::MIN), "-9223372036854775808");
}

#[test]
fn parse_accepts_signed_decimals_and_rejects_the_rest() {
    assert_eq!(parse_i64("17000"), Some(17000));
    assert_eq!(parse_i64("-42"), Some(-42));
    assert_eq!(parse_i64("+7"), Some(7));
    assert_eq!(parse_i64("9223372036854775807"), Some(i64::MAX));
    assert_eq!(parse_i64("-9223372036854775808"), Some(i64::MIN));
    assert_eq!(parse_i64("9223372036854775808"), None);
    assert_eq!(parse_i64("99999999999999999999999999"), None);
    assert_eq!(parse_i64(""), None);
    assert_eq!(parse_i64("-"), None);
    assert_eq!(parse_i64("12a"), None);
    assert_eq!(parse_i64("not a number"), None);
    assert_eq!(parse_i64("1 2"), None);
}
