use env2config::load::{lenient_list, lenient_parsed, lenient_scalar, source, strict_list, strict_parsed, strict_scalar, LoadError};

#[test]
fn host_takes_default_when_unset() {
    let host: String = lenient_scalar(None, "127.0.0.1");
    assert_eq!(host, "127.0.0.1");
}

#[test]
fn symbols_split_on_commas() {
    let lenient: Vec<String> = lenient_list("SYMBOLS", Some("A,B,C"), "").unwrap();
    assert_eq!(lenient, vec!["A".to_string(), "B".to_string(), "C".to_string()]);
    let strict: Vec<String> = strict_list("SYMBOLS", Some("A,B,C")).unwrap();
    assert_eq!(strict, vec!["A".to_string(), "B".to_string(), "C".to_string()]);
}

#[test]
fn port_reads_as_integer() {
    let lenient: i32 = lenient_scalar(Some("5544"), "");
    assert_eq!(lenient, 5544);
    let strict: i32 = strict_scalar("PORT", Some("5544")).unwrap();
    assert_eq!(strict, 5544);
}

#[test]
fn empty_piece_of_integer_list_is_zero() {
    let v: Vec<i32> = lenient_list("IDS", Some("1,,3"), "").unwrap();
    assert_eq!(v, vec![1, 0, 3]);
    let w: Vec<u8> = lenient_list("IDS", Some(""), "").unwrap();
    assert_eq!(w, vec![0]);
}

#[test]
fn strict_list_rejects_empty_piece() {
    let r: Result<Vec<i32>, LoadError> = strict_list("IDS", Some("1,,3"));
    match r {
        Err(LoadError::Malformed { var, text }) => {
            assert_eq!(var, "IDS");
            assert_eq!(text, "");
        }
        other => panic!("unexpected {:?}", other),
    }
}

#[test]
fn unset_without_default_is_zero() {
    let a: i32 = lenient_scalar(None, "");
    assert_eq!(a, 0);
    let b: bool = lenient_scalar(None, "");
    assert!(!b);
    let c: String = lenient_scalar(None, "");
    assert_eq!(c, "");
    let d: u128 = lenient_scalar(None, "");
    assert_eq!(d, 0);
}

#[test]
fn unset_with_default_reads_default() {
    let a: u16 = lenient_scalar(None, "42");
    assert_eq!(a, 42);
    let b: u16 = lenient_scalar(None, "abc");
    assert_eq!(b, 0);
    let c: bool = lenient_scalar(None, "true");
    assert!(c);
    let d: i8 = lenient_scalar(None, "-200");
    assert_eq!(d, 0);
}

#[test]
fn set_variable_wins_over_default() {
    let a: i64 = lenient_scalar(Some("-7"), "99");
    assert_eq!(a, -7);
    let b: i64 = lenient_scalar(Some("x"), "99");
    assert_eq!(b, 0);
}

#[test]
fn strict_unset_names_variable() {
    let r: Result<i32, LoadError> = strict_scalar("PORT", None);
    match r {
        Err(e) => {
            assert!(matches!(e, LoadError::Missing { ref var } if var == "PORT"));
            assert_eq!(e.diagnostic(), "Environment variable PORT not set");
        }
        Ok(v) => panic!("unexpected {}", v),
    }
    let l: Result<Vec<String>, LoadError> = strict_list("SYMBOLS", None);
    assert!(matches!(l, Err(LoadError::Missing { ref var }) if var == "SYMBOLS"));
}

#[test]
fn strict_scalar_rejects_bad_text() {
    let r: Result<u8, LoadError> = strict_scalar("LEVEL", Some("256"));
    match r {
        Err(e) => {
            assert!(matches!(e, LoadError::Malformed { ref var, ref text } if var == "LEVEL" && text == "256"));
            assert_eq!(e.diagnostic(), "failed to parse 256 from LEVEL");
        }
        Ok(v) => panic!("unexpected {}", v),
    }
}

#[test]
fn lenient_list_reports_first_bad_piece() {
    let r: Result<Vec<bool>, LoadError> = lenient_list("FLAGS", Some("true,yes,no"), "false");
    assert!(matches!(r, Err(LoadError::Malformed { ref text, .. }) if text == "yes"));
    let s: Result<Vec<u32>, LoadError> = lenient_list("N", Some("1,-2,x"), "");
    assert!(matches!(s, Err(LoadError::Malformed { ref text, .. }) if text == "-2"));
}

#[test]
fn lenient_list_takes_default_when_unset() {
    let v: Vec<i32> = lenient_list("IDS", None, "1,2,3").unwrap();
    assert_eq!(v, vec![1, 2, 3]);
    let b: Vec<bool> = lenient_list("FLAGS", None, "false").unwrap();
    assert_eq!(b, vec![false]);
    let s: Vec<String> = lenient_list("S", None, "").unwrap();
    assert_eq!(s, vec![String::new()]);
}

#[test]
fn every_list_type_reads_in_order() {
    let s: Vec<String> = strict_list("V", Some("x,,y z")).unwrap();
    assert_eq!(s, vec!["x".to_string(), String::new(), "y z".to_string()]);
    let b: Vec<bool> = strict_list("V", Some("true,false,true")).unwrap();
    assert_eq!(b, vec![true, false, true]);
    let a: Vec<u8> = strict_list("V", Some("0,255,+7")).unwrap();
    assert_eq!(a, vec![0, 255, 7]);
    let a: Vec<u16> = strict_list("V", Some("65535,1")).unwrap();
    assert_eq!(a, vec![65535, 1]);
    let a: Vec<u32> = strict_list("V", Some("4294967295,0")).unwrap();
    assert_eq!(a, vec![4294967295, 0]);
    let a: Vec<u64> = strict_list("V", Some("18446744073709551615")).unwrap();
    assert_eq!(a, vec![u64::MAX]);
    let a: Vec<u128> = strict_list("V", Some("340282366920938463463374607431768211455,3")).unwrap();
    assert_eq!(a, vec![u128::MAX, 3]);
    let a: Vec<i8> = strict_list("V", Some("-128,127,-0")).unwrap();
    assert_eq!(a, vec![-128, 127, 0]);
    let a: Vec<i16> = strict_list("V", Some("-32768,32767")).unwrap();
    assert_eq!(a, vec![-32768, 32767]);
    let a: Vec<i32> = strict_list("V", Some("1,2,3,4")).unwrap();
    assert_eq!(a, vec![1, 2, 3, 4]);
    let a: Vec<i64> = strict_list("V", Some("-9223372036854775808,9223372036854775807")).unwrap();
    assert_eq!(a, vec![i64::MIN, i64::MAX]);
    let a: Vec<i128> = strict_list("V", Some("-170141183460469231731687303715884105728,5")).unwrap();
    assert_eq!(a, vec![i128::MIN, 5]);
}

#[test]
fn integer_lists_round_trip_through_text() {
    let v: Vec<i128> = vec![i128::MIN, -1, 0, 1, i128::MAX];
    let text = v.iter().map(|x| x.to_string()).collect::<Vec<_>>().join(",");
    let back: Vec<i128> = strict_list("V", Some(&text)).unwrap();
    assert_eq!(back, v);
    let w: Vec<u8> = vec![0, 9, 10, 255];
    let text = w.iter().map(|x| x.to_string()).collect::<Vec<_>>().join(",");
    let back: Vec<u8> = lenient_list("W", Some(&text), "").unwrap();
    assert_eq!(back, w);
    let z: Vec<i16> = vec![-300];
    let text = z.iter().map(|x| x.to_string()).collect::<Vec<_>>().join(",");
    let back: Vec<i16> = lenient_list("Z", Some(&text), "").unwrap();
    assert_eq!(back, z);
}

#[test]
fn source_prefers_the_variable() {
    assert_eq!(source(Some("a"), "b"), "a");
    assert_eq!(source(Some(""), "b"), "");
    assert_eq!(source(None, "b"), "b");
}

#[test]
fn other_scalar_types_with_defaults() {
    let text = source(None, "2.5");
    let x: f64 = lenient_parsed(text.parse::<f64>().ok(), Default::default());
    assert_eq!(x, 2.5);
    let bad = source(Some("two"), "2.5");
    let fallback: f64 = lenient_parsed(bad.parse::<f64>().ok(), Default::default());
    assert_eq!(fallback, 0.0);
    let n: usize = lenient_parsed(source(Some("12"), "").parse::<usize>().ok(), Default::default());
    assert_eq!(n, 12);
    let c: char = lenient_parsed(source(None, "").parse::<char>().ok(), Default::default());
    assert_eq!(c, '\0');
}

#[test]
fn other_scalar_types_read_strictly() {
    let r: Result<f64, LoadError> = strict_parsed("RATIO", Some("0.5"), "0.5".parse::<f64>().ok());
    assert_eq!(r.unwrap(), 0.5);
    let m: Result<usize, LoadError> = strict_parsed("N", None, None);
    match m {
        Err(e) => assert_eq!(e.diagnostic(), "Environment variable N not set"),
        Ok(v) => panic!("unexpected {}", v),
    }
    let b: Result<char, LoadError> = strict_parsed("C", Some("ab"), "ab".parse::<char>().ok());
    assert!(matches!(b, Err(LoadError::Malformed { ref var, ref text }) if var == "C" && text == "ab"));
}
