use bitmax::fixed9::ParseError;
use bitmax::Fixed9;

fn p(s: &str) -> Fixed9 {
    Fixed9::parse(s).unwrap()
}

#[test]
fn format_gives_canonical_text() {
    assert_eq!(p("1.5").format(), "1.500000000");
    assert_eq!(p("-0.5").format(), "-0.500000000");
    assert_eq!(p("123").format(), "123.000000000");
    assert_eq!(p("0.000000001").format(), "0.000000001");
    assert_eq!(p("007.25").format(), "7.250000000");
    assert_eq!(p("12.").format(), "12.000000000");
    assert_eq!(Fixed9(i64::MIN).format(), "-9223372036.854775808");
    assert_eq!(Fixed9(i64::MAX).format(), "9223372036.854775807");
}

#[test]
fn round_trip_of_canonical_texts() {
    for s in ["0.000000000", "1.100000000", "-42.000000007", "9223372036.854775807"] {
        assert_eq!(p(s).format(), s);
    }
}

#[test]
fn parse_truncates_past_nine_digits() {
    assert_eq!(p("1.1234567891"), p("1.123456789"));
    assert_eq!(p("1.1234567899").0, 1_123_456_789);
}

#[test]
fn parse_pads_short_fractions() {
    assert_eq!(p("0.1").0, 100_000_000);
    assert_eq!(p("2.05").0, 2_050_000_000);
}

#[test]
fn addition_is_exact() {
    assert_eq!(p("0.1").add(p("0.2")), p("0.3"));
}

#[test]
fn negative_is_additive_inverse() {
    assert_eq!(p("-0.5").0, -p("0.5").0);
    assert_eq!(p("-0.5").add(p("0.5")), Fixed9(0));
    assert_eq!(p("-1.5").0, -1_500_000_000);
}

#[test]
fn parse_rejects_malformed_text() {
    for s in ["", "-", ".5", "abc", "1.2.3", "1.x", "+1", "1e5", " 1", "--1"] {
        assert_eq!(Fixed9::parse(s), Err(ParseError), "{}", s);
    }
}

#[test]
fn parse_rejects_values_out_of_range() {
    assert_eq!(Fixed9::parse("9223372036.854775808"), Err(ParseError));
    assert_eq!(Fixed9::parse("99999999999"), Err(ParseError));
    assert_eq!(Fixed9::parse("100000000000000000000000"), Err(ParseError));
    assert_eq!(p("-9223372036.854775808"), Fixed9(i64::MIN));
    assert_eq!(p("9223372036.854775807"), Fixed9(i64::MAX));
}

#[test]
fn display_string_is_terse() {
    assert_eq!(Fixed9(1_500_000_000).display_string(), "1.500000000");
    assert_eq!(Fixed9(1_050_000_000).display_string(), "1.50000000");
    assert_eq!(Fixed9(-500_000_000).display_string(), "0.-500000000");
    assert_eq!(Fixed9(-1_500_000_000).display_string(), "-1.-500000000");
}

#[test]
fn decimal_rounds_toward_zero() {
    assert_eq!(Fixed9(1_999_999_999).decimal(), 1);
    assert_eq!(Fixed9(-1_500_000_000).decimal(), -1);
    assert_eq!(Fixed9(-500_000_000).decimal(), 0);
}

#[test]
fn arithmetic_operators() {
    assert_eq!(p("2.5").sub(p("0.75")), p("1.75"));
    assert_eq!(p("0.25").mul(3), p("0.75"));
    assert_eq!(p("-0.25").mul(-4), p("1"));
    let mut x = p("1");
    x.add_assign(p("0.5"));
    assert_eq!(x, p("1.5"));
    x.sub_assign(p("2"));
    assert_eq!(x, p("-0.5"));
    x.mul_assign(10);
    assert_eq!(x, p("-5"));
}

#[test]
fn ordering_follows_value() {
    assert!(p("-1") < p("-0.5"));
    assert!(p("0.000000001") > p("0"));
    assert_eq!(Fixed9::default(), p("0"));
}
