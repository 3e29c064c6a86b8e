use frontend::decimal::parse;

fn by_std(text: &str) -> Option<i64> {
    text.parse::<i64>().ok()
}

#[test]
fn parse_reads_signed_decimals() {
    assert_eq!(parse("0"), Some(0));
    assert_eq!(parse("2"), Some(2));
    assert_eq!(parse("-3"), Some(-3));
    assert_eq!(parse("+7"), Some(7));
    assert_eq!(parse("-0"), Some(0));
    assert_eq!(parse("+0"), Some(0));
    assert_eq!(parse("007"), Some(7));
    assert_eq!(parse("-0012"), Some(-12));
    assert_eq!(parse("1234567890"), Some(1234567890));
}

#[test]
fn parse_refuses_what_is_no_decimal() {
    for text in [
        "", "+", "-", "+-1", "--1", "++1", "1-", "1+", " 1", "1 ", "1 2", "1_000", "1.0", "1e3",
        "0x10", "one", "\u{661}", "1\u{661}", "\u{ff11}", "\u{e9}", "-\u{e9}", "1\n", "\t1", "\u{2212}1",
    ] {
        assert_eq!(parse(text), None, "{:?}", text);
        assert_eq!(by_std(text), None, "{:?}", text);
    }
}

#[test]
fn parse_holds_what_64_bits_hold() {
    assert_eq!(parse("9223372036854775807"), Some(i64::MAX));
    assert_eq!(parse("-9223372036854775808"), Some(i64::MIN));
    assert_eq!(parse("+9223372036854775807"), Some(i64::MAX));
    assert_eq!(parse("9223372036854775808"), None);
    assert_eq!(parse("-9223372036854775809"), None);
    assert_eq!(parse("9223372036854775810"), None);
    assert_eq!(parse("92233720368547758070"), None);
    assert_eq!(parse("-92233720368547758080"), None);
    assert_eq!(parse("99999999999999999999999999"), None);
    assert_eq!(parse("000000000000000000000000000000009223372036854775807"), Some(i64::MAX));
    assert_eq!(parse("-000000000000000000000000000000009223372036854775808"), Some(i64::MIN));
}

#[test]
fn parse_agrees_with_std_on_numbers() {
    let mut number: i64 = 1;
    for step in 0..200 {
        number = number.wrapping_mul(6364136223846793005).wrapping_add(1442695040888963407);
        let shown = number >> (step % 64);
        for text in [
            format!("{}", shown),
            format!("+{}", shown),
            format!("-{}", shown),
            format!("{}0", shown),
            format!("{}9", shown),
            format!("0{}", shown),
        ] {
            assert_eq!(parse(&text), by_std(&text), "{:?}", text);
        }
    }
}

#[test]
fn parse_agrees_with_std_on_short_texts() {
    let letters = ['0', '1', '9', '+', '-', ' ', 'a', '.', '\u{e9}'];
    for a in letters {
        assert_eq!(parse(&a.to_string()), by_std(&a.to_string()));
        for b in letters {
            let text: String = [a, b].iter().collect();
            assert_eq!(parse(&text), by_std(&text), "{:?}", text);
            for c in letters {
                let text: String = [a, b, c].iter().collect();
                assert_eq!(parse(&text), by_std(&text), "{:?}", text);
            }
        }
    }
}
