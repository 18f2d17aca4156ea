use onebot_forward::template::replace_placeholders;
use onebot_forward::text::{i64_to_string, is_whitespace, parse_i64, words};

fn chars(s: &str) -> Vec<char> {
    s.chars().collect()
}

#[test]
fn decimal_text() {
    for x in [0i64, 7, -7, 10, 1234567890, i64::MAX, i64::MIN] {
        assert_eq!(i64_to_string(x), x.to_string());
    }
}

#[test]
fn decimal_round_trip() {
    for x in [0i64, 1, -1, 42, i64::MAX, i64::MIN, -9_000_000_000] {
        assert_eq!(parse_i64(&chars(&i64_to_string(x))), Some(x));
    }
}

#[test]
fn parse_like_from_str() {
    for t in ["", "+", "-", "12a", "1 2", "0x10", "9223372036854775808", "-9223372036854775809", "007", "+5", "-0", "١"] {
        assert_eq!(parse_i64(&chars(t)), t.parse::<i64>().ok(), "{:?}", t);
    }
}

#[test]
fn whitespace_like_std() {
    for c in [' ', '\t', '\n', '\u{3000}', '\u{a0}', '\u{2028}', 'a', '名', '\u{200b}', '\u{1680}', '\u{85}'] {
        assert_eq!(is_whitespace(c), c.is_whitespace(), "{:?}", c);
    }
}

#[test]
fn words_like_split_whitespace() {
    for s in ["", "   ", "a", " a  bb\tccc\n", "黑名单\u{3000}添加群 1", "x y"] {
        let expected: Vec<Vec<char>> = s.split_whitespace().map(|w| w.chars().collect()).collect();
        assert_eq!(words(s), expected, "{:?}", s);
    }
}

#[test]
fn placeholders_replaced() {
    let body = "OneBot 掉线通知：\n\n({bot_id}) 掉线了，请及时处理。";
    assert_eq!(
        replace_placeholders(body, &[("bot_id", "123456")]),
        "OneBot 掉线通知：\n\n(123456) 掉线了，请及时处理。"
    );
}

#[test]
fn placeholders_unknown_and_unbalanced() {
    let map = [("a", "X"), ("b", "Y"), ("a", "Z")];
    assert_eq!(replace_placeholders("{a}{b}{c}", &map), "XY{c}");
    assert_eq!(replace_placeholders("{{a}", &map), "{X");
    assert_eq!(replace_placeholders("}{a", &map), "}{a");
    assert_eq!(replace_placeholders("{x{a}}", &map), "{xX}");
    assert_eq!(replace_placeholders("{a}}{b}", &map), "X}Y");
    assert_eq!(replace_placeholders("no braces", &map), "no braces");
    assert_eq!(replace_placeholders("{a}", &[]), "{a}");
    assert_eq!(replace_placeholders("", &map), "");
}

#[test]
fn placeholders_over_concatenation() {
    let map = [("a", "X"), ("b", "Y")];
    for (a, b) in [("{a}-", "{b}"), ("x}", "{a}"), ("", "{a}"), ("{a}}", "}{b}")] {
        let joined = format!("{}{}", a, b);
        assert_eq!(
            replace_placeholders(&joined, &map),
            replace_placeholders(a, &map) + &replace_placeholders(b, &map)
        );
    }
}
