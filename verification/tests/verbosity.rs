use verbosio::verbosity::{
    level_from_value, level_or_default, parse_level, Verbosity, DEFAULT_LEVEL, ENV_VARIABLE,
    SILENT,
};

#[test]
fn a_new_threshold_is_silent() {
    assert_eq!(Verbosity::new().get(), 0);
    assert_eq!(SILENT, 0);
}

#[test]
fn enable_stores_one() {
    let mut verbosity = Verbosity::new();
    verbosity.enable();
    assert_eq!(verbosity.get(), 1);
    assert_eq!(DEFAULT_LEVEL, 1);
}

#[test]
fn set_then_get_gives_the_level_back() {
    let mut verbosity = Verbosity::new();
    for level in 0..=255u8 {
        verbosity.set(level);
        assert_eq!(verbosity.get(), level);
    }
}

#[test]
fn set_replaces_the_previous_level() {
    let mut verbosity = Verbosity::at(7);
    verbosity.set(3);
    verbosity.set(200);
    assert_eq!(verbosity.get(), 200);
    verbosity.set(0);
    assert_eq!(verbosity.get(), 0);
}

#[test]
fn at_holds_the_level_given() {
    assert_eq!(Verbosity::at(0).get(), 0);
    assert_eq!(Verbosity::at(42).get(), 42);
    assert_eq!(Verbosity::at(255).get(), 255);
}

#[test]
fn levels_up_to_the_threshold_are_let_through() {
    for threshold in 0..=255u8 {
        let verbosity = Verbosity::at(threshold);
        for required in 0..=255u8 {
            assert_eq!(verbosity.should_emit(required), threshold >= required);
        }
    }
}

#[test]
fn a_silent_threshold_passes_only_level_zero() {
    let verbosity = Verbosity::new();
    assert!(verbosity.should_emit(0));
    assert!(!verbosity.should_emit(1));
    assert!(!verbosity.should_emit(255));
}

#[test]
fn a_message_without_level_asks_for_one() {
    assert_eq!(level_or_default(None), 1);
    assert_eq!(level_or_default(Some(0)), 0);
    assert_eq!(level_or_default(Some(9)), 9);
}

#[test]
fn parse_level_reads_plain_numbers() {
    assert_eq!(parse_level("0"), Some(0));
    assert_eq!(parse_level("3"), Some(3));
    assert_eq!(parse_level("42"), Some(42));
    assert_eq!(parse_level("255"), Some(255));
}

#[test]
fn parse_level_takes_a_plus_sign_and_leading_zeros() {
    assert_eq!(parse_level("+7"), Some(7));
    assert_eq!(parse_level("007"), Some(7));
    assert_eq!(parse_level("+000255"), Some(255));
    assert_eq!(parse_level("00000000000000000000001"), Some(1));
}

#[test]
fn parse_level_refuses_what_is_no_number() {
    assert_eq!(parse_level(""), None);
    assert_eq!(parse_level("+"), None);
    assert_eq!(parse_level("abc"), None);
    assert_eq!(parse_level("-1"), None);
    assert_eq!(parse_level("-0"), None);
    assert_eq!(parse_level("++1"), None);
    assert_eq!(parse_level("1+"), None);
    assert_eq!(parse_level(" 3"), None);
    assert_eq!(parse_level("3 "), None);
    assert_eq!(parse_level("3\n"), None);
    assert_eq!(parse_level("1.0"), None);
    assert_eq!(parse_level("0x10"), None);
    assert_eq!(parse_level("\u{0663}"), None);
    assert_eq!(parse_level("1\u{00e9}"), None);
    assert_eq!(parse_level("+\u{00e9}"), None);
}

#[test]
fn parse_level_refuses_what_does_not_fit() {
    assert_eq!(parse_level("256"), None);
    assert_eq!(parse_level("260"), None);
    assert_eq!(parse_level("999"), None);
    assert_eq!(parse_level("2550"), None);
    assert_eq!(parse_level("65536"), None);
    assert_eq!(parse_level("0000256"), None);
    assert_eq!(parse_level("99999999999999999999999999"), None);
}

#[test]
fn parse_level_agrees_with_the_standard_parser() {
    let mut samples: Vec<String> = Vec::new();
    for n in 0..1200u32 {
        samples.push(n.to_string());
        samples.push(format!("+{}", n));
        samples.push(format!("-{}", n));
        samples.push(format!("0{}", n));
        samples.push(format!("{} ", n));
        samples.push(format!("{}a", n));
    }
    let alphabet = ['0', '1', '2', '5', '6', '9', '+', '-', ' ', 'a', '/', ':'];
    for a in alphabet {
        samples.push(format!("{}", a));
        for b in alphabet {
            samples.push(format!("{}{}", a, b));
            for c in alphabet {
                samples.push(format!("{}{}{}", a, b, c));
            }
        }
    }
    for sample in samples {
        assert_eq!(parse_level(&sample), sample.parse::<u8>().ok(), "on {:?}", sample);
    }
}

#[test]
fn the_environment_value_three_gives_three() {
    assert_eq!(level_from_value(Some("3"), 0), 3);
    let mut verbosity = Verbosity::new();
    verbosity.set_from_value(Some("3"), 0);
    assert_eq!(verbosity.get(), 3);
}

#[test]
fn an_unset_or_unreadable_environment_value_gives_zero() {
    assert_eq!(level_from_value(None, 0), 0);
    assert_eq!(level_from_value(Some("abc"), 0), 0);
    assert_eq!(level_from_value(Some(""), 0), 0);
    let mut verbosity = Verbosity::at(5);
    verbosity.set_from_value(None, 0);
    assert_eq!(verbosity.get(), 0);
    verbosity.set(5);
    verbosity.set_from_value(Some("abc"), 0);
    assert_eq!(verbosity.get(), 0);
}

#[test]
fn the_default_stands_in_for_a_missing_value() {
    assert_eq!(level_from_value(None, 4), 4);
    assert_eq!(level_from_value(Some("nope"), 4), 4);
    assert_eq!(level_from_value(Some("300"), 4), 4);
    assert_eq!(level_from_value(Some("2"), 4), 2);
    assert_eq!(level_from_value(Some("0"), 4), 0);
}

#[test]
fn the_threshold_is_read_from_verbose() {
    assert_eq!(ENV_VARIABLE, "VERBOSE");
}
