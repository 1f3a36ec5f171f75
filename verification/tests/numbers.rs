use election_results::num::{parse_u64, parse_u16, parse_usize, parse_decimal, u64_to_chars,
    decimal_to_chars, Decimal};

fn chars_of(s: &str) -> Vec<char> {
    s.chars().collect()
}

#[test]
fn parse_u64_plain_and_signed() {
    assert_eq!(parse_u64(&chars_of("42")), Some(42));
    assert_eq!(parse_u64(&chars_of("+42")), Some(42));
    assert_eq!(parse_u64(&chars_of("0")), Some(0));
    assert_eq!(parse_u64(&chars_of("18446744073709551615")), Some(u64::MAX));
}

#[test]
fn parse_u64_rejects_bad_numerals() {
    assert_eq!(parse_u64(&chars_of("")), None);
    assert_eq!(parse_u64(&chars_of("+")), None);
    assert_eq!(parse_u64(&chars_of("-1")), None);
    assert_eq!(parse_u64(&chars_of("1 2")), None);
    assert_eq!(parse_u64(&chars_of("abc")), None);
    assert_eq!(parse_u64(&chars_of("18446744073709551616")), None);
}

#[test]
fn parse_u16_bounds() {
    assert_eq!(parse_u16(&chars_of("65535")), Some(u16::MAX));
    assert_eq!(parse_u16(&chars_of("65536")), None);
}

#[test]
fn parse_usize_reads_a_count() {
    assert_eq!(parse_usize(&chars_of("123")), Some(123));
    assert_eq!(parse_usize(&chars_of("12.5")), None);
}

#[test]
fn parse_decimal_forms() {
    assert_eq!(
        parse_decimal(&chars_of("-1.25")),
        Some(Decimal { negative: true, mantissa: 125, scale: 2 })
    );
    assert_eq!(
        parse_decimal(&chars_of("1.50")),
        Some(Decimal { negative: false, mantissa: 150, scale: 2 })
    );
    assert_eq!(
        parse_decimal(&chars_of(".5")),
        Some(Decimal { negative: false, mantissa: 5, scale: 1 })
    );
    assert_eq!(
        parse_decimal(&chars_of("5.")),
        Some(Decimal { negative: false, mantissa: 5, scale: 0 })
    );
    assert_eq!(
        parse_decimal(&chars_of("+0.0")),
        Some(Decimal { negative: false, mantissa: 0, scale: 1 })
    );
}

#[test]
fn parse_decimal_rejects_bad_numerals() {
    assert_eq!(parse_decimal(&chars_of("abc")), None);
    assert_eq!(parse_decimal(&chars_of("1.2.3")), None);
    assert_eq!(parse_decimal(&chars_of("")), None);
    assert_eq!(parse_decimal(&chars_of("-")), None);
    assert_eq!(parse_decimal(&chars_of(".")), None);
}

#[test]
fn render_u64_digits() {
    let z: String = u64_to_chars(0).into_iter().collect();
    assert_eq!(z, "0");
    let n: String = u64_to_chars(90210).into_iter().collect();
    assert_eq!(n, "90210");
}

#[test]
fn render_decimal_pads_fraction() {
    let d = Decimal { negative: false, mantissa: 105, scale: 2 };
    let s: String = decimal_to_chars(&d).into_iter().collect();
    assert_eq!(s, "1.05");
    let d2 = Decimal { negative: true, mantissa: 5, scale: 3 };
    let s2: String = decimal_to_chars(&d2).into_iter().collect();
    assert_eq!(s2, "-0.005");
}
