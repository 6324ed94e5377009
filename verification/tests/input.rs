use dopewars::input::parse_amount;

fn by_std(text: &str) -> i32 {
    text.parse::<i32>().unwrap_or(0)
}

#[test]
fn plain_numbers() {
    assert_eq!(parse_amount("0"), 0);
    assert_eq!(parse_amount("42"), 42);
    assert_eq!(parse_amount("+42"), 42);
    assert_eq!(parse_amount("-42"), -42);
    assert_eq!(parse_amount("007"), 7);
    assert_eq!(parse_amount("2147483647"), i32::MAX);
    assert_eq!(parse_amount("-2147483648"), i32::MIN);
}

#[test]
fn anything_else_counts_as_zero() {
    for text in [
        "", "-", "+", " 5", "5 ", "5x", "x5", "1.5", "--5", "+-5", "2147483648", "-2147483649",
        "99999999999999999999", "٣", "1_000",
    ] {
        assert_eq!(parse_amount(text), 0, "text {:?}", text);
        assert_eq!(by_std(text), 0, "text {:?}", text);
    }
}

#[test]
fn agrees_with_std_parse() {
    let mut texts: Vec<String> = Vec::new();
    for n in [-1_000_001i64, -99, -1, 0, 1, 9, 10, 123, 99_999, 2_147_483_646, 2_147_483_647, 2_147_483_648, 4_294_967_296] {
        texts.push(n.to_string());
        texts.push(format!("+{}", n));
        texts.push(format!("{}a", n));
        texts.push(format!("0{}", n));
    }
    for t in &texts {
        assert_eq!(parse_amount(t), by_std(t), "text {:?}", t);
    }
    for a in 0u8..128 {
        for b in 0u8..128 {
            let t: String = [a as char, b as char].iter().collect();
            assert_eq!(parse_amount(&t), by_std(&t), "text {:?}", t);
        }
    }
}
