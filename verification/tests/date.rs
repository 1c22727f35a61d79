use photosort::date::Date;
use photosort::error::FileParseError;
use photosort::text::{chars_of, find_char, first_word_bounds, is_whitespace};

fn parts(text: &str) -> (String, String, String) {
    let date = Date::try_from(text.to_string()).unwrap();
    (date.year().to_string(), date.month().to_string(), date.day().to_string())
}

fn rejected(text: &str) -> String {
    match Date::try_from(text.to_string()) {
        Err(FileParseError::DateParseError(input)) => input,
        other => panic!("expected a date error, got {:?}", other),
    }
}

fn triple(y: &str, m: &str, d: &str) -> (String, String, String) {
    (y.to_string(), m.to_string(), d.to_string())
}

#[test]
fn date_with_time_keeps_only_the_date() {
    assert_eq!(parts("2020:02:01 14:32:14"), triple("2020", "02", "01"));
}

#[test]
fn date_alone_is_read() {
    assert_eq!(parts("2020:02:01"), triple("2020", "02", "01"));
    assert_eq!(parts("1999:12:31"), triple("1999", "12", "31"));
}

#[test]
fn date_behind_leading_spaces_is_read() {
    assert_eq!(parts("  \t2020:02:01\n14:32:14"), triple("2020", "02", "01"));
    assert_eq!(parts("\u{3000}2020:02:01\u{a0}rest:of:the:text"), triple("2020", "02", "01"));
}

#[test]
fn date_components_are_kept_as_text() {
    assert_eq!(parts("year:month:day"), triple("year", "month", "day"));
    assert_eq!(parts("0:0:0"), triple("0", "0", "0"));
    assert_eq!(parts("二〇二〇:二:一 x"), triple("二〇二〇", "二", "一"));
}

#[test]
fn date_with_too_few_components_is_rejected() {
    assert_eq!(rejected("2020:02"), "2020:02");
    assert_eq!(rejected("20200201"), "20200201");
    assert_eq!(rejected("2020:02 01"), "2020:02 01");
}

#[test]
fn date_with_too_many_components_is_rejected() {
    assert_eq!(rejected("2020:02:01:14"), "2020:02:01:14");
    assert_eq!(rejected("2020:02:01:14:32:14"), "2020:02:01:14:32:14");
    assert_eq!(rejected("2020:02:01:"), "2020:02:01:");
}

#[test]
fn date_without_text_is_rejected() {
    assert_eq!(rejected(""), "");
    assert_eq!(rejected("   "), "   ");
    assert_eq!(rejected("\n\t"), "\n\t");
}

#[test]
fn date_with_empty_component_is_rejected() {
    assert_eq!(rejected("::"), "::");
    assert_eq!(rejected("2020::01"), "2020::01");
    assert_eq!(rejected(":02:01"), ":02:01");
    assert_eq!(rejected("2020:02:"), "2020:02:");
    assert_eq!(rejected("2020:02: 01"), "2020:02: 01");
}

#[test]
fn date_clone_is_equal() {
    let date = Date::try_from("2020:02:01".to_string()).unwrap();
    let copy = date.clone();
    assert_eq!(copy, date);
    assert_eq!(copy.year(), "2020");
    assert_ne!(date, Date::try_from("2020:02:02".to_string()).unwrap());
}

#[test]
fn whitespace_is_what_the_standard_library_calls_whitespace() {
    let mut spaces = 0;
    for n in 0..=0x10ffffu32 {
        if let Some(c) = char::from_u32(n) {
            assert_eq!(is_whitespace(c), c.is_whitespace(), "U+{:04X}", n);
            if is_whitespace(c) {
                spaces += 1;
            }
        }
    }
    assert_eq!(spaces, 25);
}

#[test]
fn first_word_is_the_first_token() {
    for text in ["", " ", "a", " a", "a ", "  ab  cd ", "\tx:y\u{2028}z", "ab\u{85}", "日本 語"] {
        let chars: Vec<char> = text.chars().collect();
        assert_eq!(chars_of(text), chars);
        let (start, end) = first_word_bounds(&chars);
        let word: String = chars[start..end].iter().collect();
        assert_eq!(word, text.split_whitespace().next().unwrap_or(""));
    }
}

#[test]
fn find_char_stays_within_its_range() {
    let chars: Vec<char> = "a:b:c".chars().collect();
    assert_eq!(find_char(&chars, 0, 5, ':'), 1);
    assert_eq!(find_char(&chars, 2, 5, ':'), 3);
    assert_eq!(find_char(&chars, 4, 5, ':'), 5);
    assert_eq!(find_char(&chars, 0, 1, ':'), 1);
    assert_eq!(find_char(&chars, 2, 3, ':'), 3);
    assert_eq!(find_char(&chars, 2, 2, ':'), 2);
}
