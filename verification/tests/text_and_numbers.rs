use templo::dates::{read_date, CalendarDate, DateError, DateOrder};
use templo::numbers::{i32_to_text, parse_bool, parse_i32, parse_u32, u32_to_text};
use templo::text::{chars_of, concatenate, replace_char, split_on, text_eq};

#[test]
fn split_keeps_empty_pieces() {
    assert_eq!(split_on("a,b,,c", ','), vec!["a", "b", "", "c"]);
    assert_eq!(split_on("", ','), vec![""]);
    assert_eq!(split_on("abc", ','), vec!["abc"]);
    assert_eq!(split_on(",", ','), vec!["", ""]);
}

#[test]
fn split_then_join_gives_the_text_back() {
    for s in ["a,b,,c", "", ",", "no separator", "x,"] {
        assert_eq!(split_on(s, ',').join(","), s);
    }
}

#[test]
fn replace_and_join() {
    assert_eq!(replace_char("mestre ana da luz", ' ', '-'), "mestre-ana-da-luz");
    assert_eq!(replace_char("", ' ', '-'), "");
    assert_eq!(concatenate("ab", "cd"), "abcd");
    assert!(text_eq("Clerk", "Clerk"));
    assert!(!text_eq("Clerk", "clerk"));
    assert!(!text_eq("Clerk", "Clerks"));
    assert_eq!(chars_of("héllo"), vec!['h', 'é', 'l', 'l', 'o']);
}

#[test]
fn integers_read_like_str_parse() {
    let cases = [
        "42", "-7", "+5", "", "-", "+", "abc", "12a", "2147483647", "2147483648", "-2147483648",
        "-2147483649", "007", "-0", " 1", "4294967295", "4294967296",
    ];
    for s in cases {
        assert_eq!(parse_i32(s), s.parse::<i32>().ok(), "i32 {:?}", s);
        assert_eq!(parse_u32(s), s.parse::<u32>().ok(), "u32 {:?}", s);
    }
    assert_eq!(parse_i32("-2147483648"), Some(i32::MIN));
    assert_eq!(parse_u32("-1"), None);
    assert_eq!(parse_u32("+3"), Some(3));
}

#[test]
fn booleans_read_like_str_parse() {
    assert_eq!(parse_bool("true"), Some(true));
    assert_eq!(parse_bool("false"), Some(false));
    assert_eq!(parse_bool("True"), None);
    assert_eq!(parse_bool("1"), None);
    assert_eq!(parse_bool(""), None);
}

#[test]
fn integers_write_like_to_string() {
    for n in [0u32, 7, 10, 1234, u32::MAX] {
        assert_eq!(u32_to_text(n), n.to_string());
    }
    for n in [0i32, -1, -45, 99, i32::MIN, i32::MAX] {
        assert_eq!(i32_to_text(n), n.to_string());
    }
}

#[test]
fn written_integers_read_back() {
    for n in [0i32, -1, -45, 99, i32::MIN, i32::MAX] {
        assert_eq!(parse_i32(&i32_to_text(n)), Some(n));
    }
    for n in [0u32, 10, u32::MAX] {
        assert_eq!(parse_u32(&u32_to_text(n)), Some(n));
    }
}

#[test]
fn dates_in_both_orders() {
    assert_eq!(
        read_date("1990-05-17", '-', DateOrder::YearMonthDay),
        Ok(CalendarDate { year: 1990, month: 5, day: 17 })
    );
    assert_eq!(
        read_date("17/05/1990", '/', DateOrder::DayMonthYear),
        Ok(CalendarDate { year: 1990, month: 5, day: 17 })
    );
    assert_eq!(
        read_date("1990-05-17-junk", '-', DateOrder::YearMonthDay),
        Ok(CalendarDate { year: 1990, month: 5, day: 17 })
    );
}

#[test]
fn date_errors() {
    assert_eq!(read_date("1990-05", '-', DateOrder::YearMonthDay), Err(DateError::Incomplete));
    assert_eq!(read_date("", '-', DateOrder::YearMonthDay), Err(DateError::Incomplete));
    assert_eq!(read_date("17/05/1990", '-', DateOrder::YearMonthDay), Err(DateError::Incomplete));
    assert_eq!(read_date("abc-05-17", '-', DateOrder::YearMonthDay), Err(DateError::Invalid));
    assert_eq!(read_date("1990-02-30", '-', DateOrder::YearMonthDay), Err(DateError::Invalid));
    assert_eq!(read_date("1990-13-01", '-', DateOrder::YearMonthDay), Err(DateError::Invalid));
    assert_eq!(read_date("1990-00-01", '-', DateOrder::YearMonthDay), Err(DateError::Invalid));
    assert_eq!(read_date("1990-05--1", '-', DateOrder::YearMonthDay), Err(DateError::Invalid));
}

#[test]
fn leap_days() {
    assert!(read_date("2000-02-29", '-', DateOrder::YearMonthDay).is_ok());
    assert!(read_date("2024-02-29", '-', DateOrder::YearMonthDay).is_ok());
    assert_eq!(read_date("1900-02-29", '-', DateOrder::YearMonthDay), Err(DateError::Invalid));
    assert_eq!(read_date("2023-02-29", '-', DateOrder::YearMonthDay), Err(DateError::Invalid));
}

#[test]
fn dates_agree_with_chrono() {
    for y in [-262144, -262143, -1, 0, 1600, 1900, 2000, 2023, 2024, 262142, 262143] {
        for m in 0..=13u32 {
            for d in [0u32, 1, 28, 29, 30, 31, 32] {
                let text = format!("{}/{}/{}", d, m, y);
                let expected = chrono::NaiveDate::from_ymd_opt(y, m, d).is_some();
                assert_eq!(read_date(&text, '/', DateOrder::DayMonthYear).is_ok(), expected, "{}", text);
            }
        }
    }
}
