use oadiscord::numbers::{i32_to_text, parse_i32};

#[test]
fn parse_i32_follows_from_str() {
    for text in ["0", "-0", "+5", "42", "-2147483648", "2147483647", "007", "", "-", "+", "1a", " 1", "2147483648", "-2147483649", "99999999999999999999", "+-1", "١"] {
        assert_eq!(parse_i32(text), text.parse::<i32>().ok(), "input {:?}", text);
    }
}

#[test]
fn i32_to_text_follows_to_string() {
    for n in [0, 7, -7, 10, 1234567, i32::MAX, i32::MIN, -10] {
        let text: String = i32_to_text(n).into_iter().collect();
        assert_eq!(text, n.to_string());
        assert_eq!(parse_i32(&text), Some(n));
    }
}
