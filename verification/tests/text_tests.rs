use ore_app::text::{decimal_string, displayed_text, landed_at_time_text, mnemonic_lines, parse_u64, split_on_spaces, texts_equal};

#[test]
fn split_on_spaces_matches_str_split() {
    for s in ["", "a", "a b", " a  b ", "one two three", "   "] {
        let expected: Vec<String> = s.split(' ').map(|p| p.to_string()).collect();
        assert_eq!(split_on_spaces(s), expected);
    }
}

#[test]
fn landed_at_time_text_takes_time_of_day() {
    assert_eq!(landed_at_time_text("2024-05-16 19:31:25 UTC".to_string()), "19:31:25");
    assert_eq!(landed_at_time_text("Err".to_string()), "Err");
    assert_eq!(landed_at_time_text("2024-05-16 19:31:25".to_string()), "2024-05-16 19:31:25");
}

#[test]
fn mnemonic_lines_four_words_each() {
    let phrase = "abandon ability able about above absent absorb abstract absurd abuse access accident";
    let (a, b, c) = mnemonic_lines(phrase);
    assert_eq!(a, "abandon     ability     able     about     ");
    assert_eq!(b, "above     absent     absorb     abstract     ");
    assert_eq!(c, "absurd     abuse     access     accident     ");
}

#[test]
fn displayed_text_masks_bytes() {
    assert_eq!(displayed_text(&"secret".to_string(), true), "******");
    assert_eq!(displayed_text(&"pé".to_string(), true), "***");
    assert_eq!(displayed_text(&"secret".to_string(), false), "secret");
    assert_eq!(displayed_text(&"".to_string(), true), "");
}

#[test]
fn parse_u64_accepts_what_std_accepts() {
    for s in ["0", "42", "+7", "0007", "18446744073709551615", "", "+", "-1", "1a", " 1", "18446744073709551616", "99999999999999999999", "++1"] {
        assert_eq!(parse_u64(s), s.parse::<u64>().ok(), "input {:?}", s);
    }
}

#[test]
fn parse_u64_exact_values() {
    assert_eq!(parse_u64("3000"), Some(3000));
    assert_eq!(parse_u64("18446744073709551615"), Some(u64::MAX));
    assert_eq!(parse_u64("18446744073709551616"), None);
}

#[test]
fn decimal_string_writes_digits() {
    assert_eq!(decimal_string(0), "0");
    assert_eq!(decimal_string(10), "10");
    assert_eq!(decimal_string(1234567890), "1234567890");
    assert_eq!(decimal_string(u64::MAX), u64::MAX.to_string());
}

#[test]
fn decimal_string_round_trips() {
    for n in [0u64, 1, 9, 10, 99, 100, 65535, 4294967296, u64::MAX - 1, u64::MAX] {
        assert_eq!(parse_u64(&decimal_string(n)), Some(n));
    }
}

#[test]
fn texts_equal_compares_characters() {
    assert!(texts_equal("Mine", "Mine"));
    assert!(!texts_equal("Mine", "Mint"));
    assert!(!texts_equal("Mine", "Mines"));
    assert!(texts_equal("", ""));
}
