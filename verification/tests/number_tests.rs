use scriptlint::date::Date;
use scriptlint::report::{ErrorKey, Severity, Sink};
use scriptlint::token::{FileKind, Loc, Token};

fn n_tok(s: &str) -> Token {
    Token::new(s, Loc { idx: 0, kind: FileKind::Mod, line: 1, column: 1, link: None })
}

const SAMPLES: [&str; 74] = [
    "", "0", "1", "-1", "+1", "--1", "+-1", "-", "+", "42", "007", "-0", "+0", "1a", "a1", " 1", "1 ", "1_000",
    "9223372036854775807", "9223372036854775808", "-9223372036854775808", "-9223372036854775809",
    "99999999999999999999999999", "-99999999999999999999999999", "0000000000000000000000000000001",
    "1.5", "-1.5", "+1.5", ".5", "5.", ".", "-.", "-.5", "1.2.3", "1e5", "1E5", "1e+5", "1e-5", "1e", "e5",
    "1.e5", ".5e5", ".e5", "1e5.0", "1e+", "1e-", "1ee5", "inf", "INF", "Inf", "-inf", "+inf", "infinity",
    "INFINITY", "-Infinity", "infinit", "infinityy", "nan", "NaN", "-nan", "+NAN", "nano", "na", "yes", "no",
    "0x10", "1,5", "١٢٣", "１２３", "1.123456", "1.12345", "3.14159265", "١.٥", "1.5e3.2",
];

#[test]
fn integers_are_what_std_reads() {
    for s in SAMPLES {
        let t = n_tok(s);
        assert_eq!(t.get_integer(), s.parse::<i64>().ok(), "{:?}", s);
        assert_eq!(t.is_integer(), s.parse::<i64>().is_ok(), "{:?}", s);
    }
}

#[test]
fn numbers_are_what_std_reads() {
    for s in SAMPLES {
        let t = n_tok(s);
        assert_eq!(t.is_number(), s.parse::<f64>().is_ok(), "{:?}", s);
    }
}

#[test]
fn get_integer_reads_exact_values() {
    assert_eq!(n_tok("42").get_integer(), Some(42));
    assert_eq!(n_tok("-17").get_integer(), Some(-17));
    assert_eq!(n_tok("+8").get_integer(), Some(8));
    assert_eq!(n_tok("9223372036854775807").get_integer(), Some(i64::MAX));
    assert_eq!(n_tok("-9223372036854775808").get_integer(), Some(i64::MIN));
    assert_eq!(n_tok("9223372036854775808").get_integer(), None);
    assert_eq!(n_tok("1.0").get_integer(), None);
}

#[test]
fn expect_integer_reports_what_is_no_integer() {
    let mut sink = Sink::new();
    assert_eq!(n_tok("12").expect_integer(&mut sink), Some(12));
    assert_eq!(sink.len(), 0);
    assert_eq!(n_tok("twelve").expect_integer(&mut sink), None);
    assert_eq!(sink.len(), 1);
    assert_eq!(sink.get(0).severity, Severity::Error);
    assert_eq!(sink.get(0).key, ErrorKey::Validation);
    assert_eq!(sink.get(0).msg, "expected integer");
}

#[test]
fn check_number_allows_five_decimals() {
    let mut sink = Sink::new();
    n_tok("1.12345").check_number(&mut sink);
    n_tok("12345678").check_number(&mut sink);
    n_tok("0.5").check_number(&mut sink);
    n_tok(".12345").check_number(&mut sink);
    assert_eq!(sink.len(), 0);
    n_tok("1.123456").check_number(&mut sink);
    assert_eq!(sink.len(), 1);
    assert_eq!(sink.get(0).severity, Severity::Error);
    assert_eq!(sink.get(0).key, ErrorKey::Validation);
    assert_eq!(sink.get(0).msg, "only 5 decimals are supported");
    assert_eq!(
        sink.get(0).info.as_deref(),
        Some("if you give more decimals, you get an error and the number is read as 0")
    );
    n_tok("-0.0000001").check_number(&mut sink);
    assert_eq!(sink.len(), 2);
}

#[test]
fn dates_are_read() {
    assert_eq!(Date::parse("1066.9.15"), Some(Date { year: 1066, month: 9, day: 15 }));
    assert_eq!(Date::parse("1066.9"), Some(Date { year: 1066, month: 9, day: 1 }));
    assert_eq!(Date::parse("1066"), Some(Date { year: 1066, month: 1, day: 1 }));
    assert_eq!(Date::parse("1066.12.31"), Some(Date { year: 1066, month: 12, day: 31 }));
    assert_eq!(Date::parse("-300.1.1"), Some(Date { year: -300, month: 1, day: 1 }));
    assert_eq!(Date::parse("32767.1.1"), Some(Date { year: 32767, month: 1, day: 1 }));
    assert_eq!(Date::parse("1066.9.15."), Some(Date { year: 1066, month: 9, day: 15 }));
    assert_eq!(Date::parse("1066."), Some(Date { year: 1066, month: 1, day: 1 }));
}

#[test]
fn dates_are_refused() {
    for s in [
        "", ".", "..", "1066.13.1", "1066.0.1", "1066.1.0", "1066.1.32", "1066.1.1.1", "1066..1", "a.b.c",
        "32768.1.1", "1066.1.1..", "1066/1/1", " 1066.1.1", "1066.-1.1",
    ] {
        assert_eq!(Date::parse(s), None, "{:?}", s);
    }
}

#[test]
fn token_dates() {
    let mut sink = Sink::new();
    assert!(n_tok("867.1.1").is_date());
    assert!(!n_tok("867.1.1.1").is_date());
    assert_eq!(n_tok("867.1.1").get_date(), Some(Date { year: 867, month: 1, day: 1 }));
    assert_eq!(n_tok("867.1.1").expect_date(&mut sink), Some(Date { year: 867, month: 1, day: 1 }));
    assert_eq!(sink.len(), 0);
    assert_eq!(n_tok("867.1.1.").expect_date(&mut sink), Some(Date { year: 867, month: 1, day: 1 }));
    assert_eq!(sink.len(), 1);
    assert_eq!(sink.get(0).severity, Severity::Untidy);
    assert_eq!(sink.get(0).msg, "trailing dot on date");
    assert_eq!(n_tok("yesterday").expect_date(&mut sink), None);
    assert_eq!(sink.len(), 2);
    assert_eq!(sink.get(1).severity, Severity::Error);
    assert_eq!(sink.get(1).key, ErrorKey::Validation);
    assert_eq!(sink.get(1).msg, "expected date");
}

#[test]
fn decimals_are_counted_in_bytes() {
    let checks = |s: &str| {
        let mut sink = Sink::new();
        Token::new(s, Loc { idx: 0, kind: FileKind::Mod, line: 1, column: 1, link: None }).check_number(&mut sink);
        sink.len()
    };
    for s in ["0.12345", "0.123456", "12345678", "1234567.", ".12345", ".123456", "0.1234é", "0.123é", "é.12345", "ééééééé.1"] {
        let expected = match s.find('.') {
            Some(idx) => usize::from(s.len() - idx > 6),
            None => 0,
        };
        assert_eq!(checks(s), expected, "{s}");
    }
    // Six characters from the point on, but seven bytes.
    assert_eq!(checks("0.1234é"), 1);
    assert_eq!(checks("0.12345"), 0);
    assert_eq!(checks("0.123456"), 1);
    // Many bytes before the point do not count.
    assert_eq!(checks("ééééééé.1"), 0);
    let mut sink = Sink::new();
    Token::new("0.1234é", Loc { idx: 0, kind: FileKind::Mod, line: 4, column: 2, link: None }).check_number(&mut sink);
    assert_eq!(sink.get(0).key, ErrorKey::Validation);
    assert_eq!(sink.get(0).severity, Severity::Error);
    assert_eq!(sink.get(0).msg, "only 5 decimals are supported");
    assert_eq!(sink.get(0).loc.line, 4);
}
