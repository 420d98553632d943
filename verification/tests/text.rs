use qbit_rs::model::{split_text, FromText, NotANumber, Sep, ToText};
use qbit_rs::text::{
    chars_of, digit_to_char, i64_to_text, parse_i64, parse_u64, same_text, u64_to_text,
};

#[test]
fn unsigned_numbers_are_written_in_decimal() {
    assert_eq!(u64_to_text(0), "0");
    assert_eq!(u64_to_text(7), "7");
    assert_eq!(u64_to_text(10), "10");
    assert_eq!(u64_to_text(1234567890), "1234567890");
    assert_eq!(u64_to_text(u64::MAX), "18446744073709551615");
}

#[test]
fn signed_numbers_are_written_in_decimal() {
    assert_eq!(i64_to_text(0), "0");
    assert_eq!(i64_to_text(-1), "-1");
    assert_eq!(i64_to_text(-2), "-2");
    assert_eq!(i64_to_text(42), "42");
    assert_eq!(i64_to_text(i64::MAX), "9223372036854775807");
    assert_eq!(i64_to_text(i64::MIN), "-9223372036854775808");
}

#[test]
fn written_numbers_agree_with_the_standard_library() {
    for n in [0u64, 9, 10, 99, 100, 101, 65535, u64::MAX - 1] {
        assert_eq!(u64_to_text(n), n.to_string());
    }
    for n in [0i64, -9, -10, 10, -100, i64::MIN + 1] {
        assert_eq!(i64_to_text(n), n.to_string());
    }
}

#[test]
fn digits_are_characters() {
    assert_eq!(digit_to_char(0), '0');
    assert_eq!(digit_to_char(9), '9');
}

#[test]
fn unsigned_numbers_are_read() {
    assert_eq!(parse_u64("0"), Some(0));
    assert_eq!(parse_u64("007"), Some(7));
    assert_eq!(parse_u64("+7"), Some(7));
    assert_eq!(parse_u64("18446744073709551615"), Some(u64::MAX));
    assert_eq!(parse_u64("18446744073709551616"), None);
    assert_eq!(parse_u64("99999999999999999999999"), None);
    assert_eq!(parse_u64(""), None);
    assert_eq!(parse_u64("+"), None);
    assert_eq!(parse_u64("-5"), None);
    assert_eq!(parse_u64("-0"), None);
    assert_eq!(parse_u64(" 5"), None);
    assert_eq!(parse_u64("5 "), None);
    assert_eq!(parse_u64("1_000"), None);
    assert_eq!(parse_u64("++1"), None);
    assert_eq!(parse_u64("٣"), None);
}

#[test]
fn signed_numbers_are_read() {
    assert_eq!(parse_i64("0"), Some(0));
    assert_eq!(parse_i64("-0"), Some(0));
    assert_eq!(parse_i64("+12"), Some(12));
    assert_eq!(parse_i64("-12"), Some(-12));
    assert_eq!(parse_i64("9223372036854775807"), Some(i64::MAX));
    assert_eq!(parse_i64("9223372036854775808"), None);
    assert_eq!(parse_i64("-9223372036854775808"), Some(i64::MIN));
    assert_eq!(parse_i64("-9223372036854775809"), None);
    assert_eq!(parse_i64(""), None);
    assert_eq!(parse_i64("-"), None);
    assert_eq!(parse_i64("+"), None);
    assert_eq!(parse_i64("--1"), None);
    assert_eq!(parse_i64("-+1"), None);
    assert_eq!(parse_i64("1-"), None);
}

#[test]
fn read_numbers_agree_with_the_standard_library() {
    let texts = [
        "", "0", "+0", "-0", "1", "+1", "-1", "01", "+", "-", "a", "1a", " 1", "1 ",
        "18446744073709551615", "18446744073709551616", "9223372036854775807",
        "9223372036854775808", "-9223372036854775808", "-9223372036854775809",
        "000000000000000000000000000000001", "+-1", "1+",
    ];
    for text in texts {
        assert_eq!(parse_u64(text), text.parse::<u64>().ok(), "u64 of {:?}", text);
        assert_eq!(parse_i64(text), text.parse::<i64>().ok(), "i64 of {:?}", text);
    }
}

#[test]
fn texts_are_compared_by_their_characters() {
    assert!(same_text("", ""));
    assert!(same_text("abc", "abc"));
    assert!(!same_text("abc", "abd"));
    assert!(!same_text("abc", "ab"));
}

#[test]
fn characters_of_a_text() {
    assert_eq!(chars_of(""), Vec::<char>::new());
    assert_eq!(chars_of("aé€"), vec!['a', 'é', '€']);
}

#[test]
fn values_are_written_as_text() {
    assert_eq!(true.to_text(), "true");
    assert_eq!(false.to_text(), "false");
    assert_eq!(200u8.to_text(), "200");
    assert_eq!(5u64.to_text(), "5");
    assert_eq!((-5i64).to_text(), "-5");
    assert_eq!("x".to_string().to_text(), "x");
    assert_eq!(Sep::<i64, b','>::from(vec![1, -2]).to_text(), "1,-2");
}

#[test]
fn text_is_cut_at_every_separator() {
    assert_eq!(split_text("", '|'), vec![""]);
    assert_eq!(split_text("a", '|'), vec!["a"]);
    assert_eq!(split_text("a|b", '|'), vec!["a", "b"]);
    assert_eq!(split_text("|", '|'), vec!["", ""]);
    assert_eq!(split_text("a||b|", '|'), vec!["a", "", "b", ""]);
    assert_eq!(split_text("a\nb", '|'), vec!["a\nb"]);
}

#[test]
fn cut_text_agrees_with_the_standard_library() {
    for text in ["", "|", "a|b|c", "||", "é|€", "abc"] {
        let theirs: Vec<String> = text.split('|').map(|s| s.to_string()).collect();
        assert_eq!(split_text(text, '|'), theirs);
    }
}

#[test]
fn separated_items_are_read() {
    let sep = Sep::<u8, b'|'>::from_str("1|2|3").unwrap();
    assert_eq!(sep, Sep::from(vec![1, 2, 3]));
    let sep = Sep::<String, b'\n'>::from_str("a\nb").unwrap();
    assert_eq!(sep, Sep::from(vec!["a".to_string(), "b".to_string()]));
    let sep = Sep::<String, b','>::from_str("").unwrap();
    assert_eq!(sep, Sep::from(vec![String::new()]));
    let sep = Sep::<i64, b'|'>::from_str("-1|+2").unwrap();
    assert_eq!(sep.items(), &vec![-1, 2]);
}

#[test]
fn separated_items_that_cannot_be_read_give_the_error() {
    assert_eq!(Sep::<u8, b'|'>::from_str("1|x|3"), Err(NotANumber));
    assert_eq!(Sep::<u8, b'|'>::from_str(""), Err(NotANumber));
    assert_eq!(Sep::<u8, b'|'>::from_str("1|"), Err(NotANumber));
    assert_eq!(Sep::<u8, b'|'>::from_str("256"), Err(NotANumber));
    assert_eq!(Sep::<u64, b'|'>::from_str("-1"), Err(NotANumber));
}

#[test]
fn written_items_are_read_back() {
    let items = vec![0i64, -5, 77, i64::MIN];
    let text = Sep::<i64, b'|'>::from(items.clone()).to_string();
    assert_eq!(text, "0|-5|77|-9223372036854775808");
    assert_eq!(Sep::<i64, b'|'>::from_str(&text).unwrap().items(), &items);
}

#[test]
fn single_values_are_read_from_text() {
    assert_eq!(u8::from_text("255"), Ok(255));
    assert_eq!(u8::from_text("256"), Err(NotANumber));
    assert_eq!(u64::from_text("12"), Ok(12));
    assert_eq!(i64::from_text("-12"), Ok(-12));
    assert_eq!(String::from_text("a|b").unwrap(), "a|b");
}

#[test]
fn separated_items_are_parsed() {
    let sep: Sep<u8, b'|'> = "1|2|3".parse().unwrap();
    assert_eq!(sep, Sep::from(vec![1, 2, 3]));
    assert_eq!("1||3".parse::<Sep<u8, b'|'>>(), Err(NotANumber));
}
