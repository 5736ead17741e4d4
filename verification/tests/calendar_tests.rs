use gx_datalinker::api::invoice_list_url;
use gx_datalinker::calendar::{br_date, hour_minute, iso_date, unix_epoch, CivilDate, CivilDateTime};
use gx_datalinker::orders::parse_date_br;

fn date(year: i32, month: u32, day: u32) -> CivilDate {
    CivilDate { year, month, day }
}

#[test]
fn dates_are_written_as_chrono_writes_them() {
    assert_eq!(iso_date(date(2024, 3, 5)), "2024-03-05");
    assert_eq!(br_date(date(2024, 3, 5)), "05/03/2024");
    assert_eq!(iso_date(date(5, 1, 1)), "0005-01-01");
    assert_eq!(iso_date(date(-1, 12, 31)), "-0001-12-31");
    assert_eq!(iso_date(date(10000, 1, 1)), "+10000-01-01");
    assert_eq!(br_date(date(12345, 10, 9)), "09/10/+12345");
}

#[test]
fn hour_and_minute_are_padded() {
    assert_eq!(hour_minute(7, 5), "07:05");
    assert_eq!(hour_minute(23, 59), "23:59");
}

#[test]
fn brazilian_dates_parse() {
    assert_eq!(parse_date_br("05/03/2024"), Some(date(2024, 3, 5)));
    assert_eq!(parse_date_br("31/12/1999"), Some(date(1999, 12, 31)));
    assert_eq!(parse_date_br("2024-03-05"), None);
    assert_eq!(parse_date_br("31/02/2024"), None);
    assert_eq!(parse_date_br(""), None);
}

#[test]
fn invoice_window_spans_1096_days() {
    assert_eq!(
        invoice_list_url(true, date(2025, 1, 10)),
        "https://global_trade.cr.wk.net.br/wk.api/api/comercial/v1/nota-fiscal?DataEmissaoInicial=2022-01-10&DataEmissaoFinal=2025-01-10"
    );
    assert_eq!(
        invoice_list_url(false, date(2024, 3, 1)),
        "http://global_trade.cr.wk.net.br/wk.api/api/comercial/v1/nota-fiscal?DataEmissaoInicial=2021-03-01&DataEmissaoFinal=2024-03-01"
    );
}

#[test]
fn epoch_is_the_start_of_1970() {
    assert_eq!(
        unix_epoch(),
        CivilDateTime { date: date(1970, 1, 1), hour: 0, minute: 0, second: 0, nanosecond: 0 }
    );
}
