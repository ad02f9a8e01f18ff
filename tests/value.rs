use env2config::number::parse_decimal;
use env2config::value::EnvValue;

const SAMPLES: &[&str] = &[
    "", "+", "-", "0", "-0", "+0", "7", "+5", "-5", "007", "-007", "127", "128", "-128", "-129", "255", "256",
    "65535", "65536", "-32768", "-32769", "4294967295", "4294967296", "2147483647", "-2147483648", "-2147483649",
    "18446744073709551615", "18446744073709551616", "9223372036854775807", "-9223372036854775808",
    "340282366920938463463374607431768211455", "340282366920938463463374607431768211456",
    "170141183460469231731687303715884105727", "-170141183460469231731687303715884105728",
    "-170141183460469231731687303715884105729", "99999999999999999999999999999999999999999999",
    " 1", "1 ", "1_000", "12a", "0x10", "++1", "+-1", "-+1", "1.0", "１",
];

fn agrees<T: EnvValue + std::str::FromStr + PartialEq + std::fmt::Debug>() {
    for s in SAMPLES {
        assert_eq!(T::parse_text(s), s.parse::<T>().ok(), "text {:?}", s);
    }
}

#[test]
fn integers_read_as_std_reads_them() {
    agrees::<u8>();
    agrees::<u16>();
    agrees::<u32>();
    agrees::<u64>();
    agrees::<u128>();
    agrees::<i8>();
    agrees::<i16>();
    agrees::<i32>();
    agrees::<i64>();
    agrees::<i128>();
}

#[test]
fn booleans_read_exactly() {
    for s in ["true", "false", "True", "FALSE", "", "1", "0", " true", "yes"] {
        assert_eq!(bool::parse_text(s), s.parse::<bool>().ok(), "text {:?}", s);
    }
}

#[test]
fn strings_read_as_themselves() {
    assert_eq!(String::parse_text("a b,c"), Some("a b,c".to_string()));
    assert_eq!(String::parse_text(""), Some(String::new()));
}

#[test]
fn zero_values() {
    assert_eq!(i32::zero(), 0);
    assert!(!bool::zero());
    assert_eq!(String::zero(), "");
    assert!(u8::integer_type());
    assert!(!bool::integer_type());
    assert!(!String::integer_type());
}

#[test]
fn decimal_limits() {
    assert_eq!(parse_decimal("300", false, 255, 0), None);
    assert_eq!(parse_decimal("255", false, 255, 0), Some((false, 255)));
    assert_eq!(parse_decimal("-128", true, 127, 128), Some((true, 128)));
    assert_eq!(parse_decimal("-129", true, 127, 128), None);
    assert_eq!(parse_decimal("-1", false, 255, 0), None);
    assert_eq!(parse_decimal("+", true, 127, 128), None);
}
