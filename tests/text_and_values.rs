use pfo::{parse_naive_date, trim_string, Date, DateError, Fixed2, Percent, ToRowValue, UuidValue};

#[test]
fn trim_keeps_first_three_characters() {
    assert_eq!(trim_string("Eurobond Fund", 3, false), "Eur");
}

#[test]
fn trim_wide_keeps_whole_text() {
    assert_eq!(trim_string("Eurobond Fund", 3, true), "Eurobond Fund");
}

#[test]
fn trim_shorter_text_is_unchanged() {
    assert_eq!(trim_string("Eur", 25, false), "Eur");
    assert_eq!(trim_string("", 3, false), "");
}

#[test]
fn trim_to_zero_is_empty() {
    assert_eq!(trim_string("abc", 0, false), "");
}

#[test]
fn trim_multibyte_cuts_on_character_boundary() {
    let s = "Ünïcödé Fönd";
    let t = trim_string(s, 3, false);
    assert_eq!(t, "Ünï");
    assert_eq!(t.chars().count(), 3);
    assert!(s.starts_with(t.as_str()));
    assert!(s.len() > t.len());
    let e = trim_string("日本語の基金", 2, false);
    assert_eq!(e, "日本");
}

#[test]
fn fixed_two_decimals() {
    assert_eq!(Fixed2 { hundredths: 12345 }.to_row_value(), "123.45");
    assert_eq!(Fixed2 { hundredths: 100 }.to_row_value(), "1.00");
    assert_eq!(Fixed2 { hundredths: 7 }.to_row_value(), "0.07");
    assert_eq!(Fixed2 { hundredths: 0 }.to_row_value(), "0.00");
    assert_eq!(Fixed2 { hundredths: -5 }.to_row_value(), "-0.05");
    assert_eq!(Fixed2 { hundredths: -123456 }.to_row_value(), "-1234.56");
    assert_eq!(Fixed2 { hundredths: i64::MIN }.to_row_value(), "-92233720368547758.08");
}

#[test]
fn percent_appends_sign() {
    assert_eq!(Percent { hundredths: 250 }.to_row_value(), "2.50%");
    assert_eq!(Percent { hundredths: -1234 }.to_row_value(), "-12.34%");
}

#[test]
fn absent_value_is_dash() {
    let none: Option<Percent> = None;
    assert_eq!(none.to_row_value(), "-");
    assert_eq!(Some(Percent { hundredths: 1 }).to_row_value(), "0.01%");
}

#[test]
fn integer_and_text_values() {
    assert_eq!(42u32.to_row_value(), "42");
    assert_eq!(0u32.to_row_value(), "0");
    assert_eq!(u32::MAX.to_row_value(), "4294967295");
    assert_eq!(String::from("Alpha").to_row_value(), "Alpha");
}

#[test]
fn date_is_month_day_year() {
    let d = Date::new(2024, 3, 7).unwrap();
    assert_eq!(d.to_row_value(), "03.07.2024");
    assert_eq!((d.year(), d.month(), d.day()), (2024, 3, 7));
    assert_eq!(Date::new(987, 12, 31).unwrap().to_row_value(), "12.31.0987");
}

#[test]
fn date_validity() {
    assert!(Date::new(2024, 2, 29).is_some());
    assert!(Date::new(2023, 2, 29).is_none());
    assert!(Date::new(1900, 2, 29).is_none());
    assert!(Date::new(2000, 2, 29).is_some());
    assert!(Date::new(2024, 4, 31).is_none());
    assert!(Date::new(2024, 13, 1).is_none());
    assert!(Date::new(2024, 1, 0).is_none());
    assert!(Date::new(10000, 1, 1).is_none());
    assert!(Date::new(-1, 1, 1).is_none());
}

#[test]
fn parse_date_month_day_year() {
    let d = parse_naive_date("03.07.2024").unwrap();
    assert_eq!((d.year(), d.month(), d.day()), (2024, 3, 7));
}

#[test]
fn parse_date_refuses_other_formats() {
    assert_eq!(parse_naive_date("2024-03-07"), Err(DateError::Invalid));
    assert_eq!(parse_naive_date("02.30.2024"), Err(DateError::Invalid));
    assert_eq!(parse_naive_date(""), Err(DateError::Invalid));
}

#[test]
fn parse_date_refuses_years_beyond_four_digits() {
    assert_eq!(parse_naive_date("01.01.+12345"), Err(DateError::OutOfRange));
}

#[test]
fn uuid_is_hyphenated_lowercase() {
    let id = UuidValue { value: 0x67e5504410b1426f9247bb680dccf0c8 };
    assert_eq!(id.to_row_value(), "67e55044-10b1-426f-9247-bb680dccf0c8");
    assert_eq!(UuidValue { value: 0 }.to_row_value(), "00000000-0000-0000-0000-000000000000");
}
