use acpu_opp::error::{Field, ParseError};
use acpu_opp::matcher::{compile_pattern, Matchers};
use acpu_opp::row::{assign_level, capture_descriptor, read_descriptor, tokenize, Row};

fn matchers() -> Matchers {
    Matchers::new().unwrap()
}

fn row(frequency: u32, secondary_index: u8, perf_level: usize) -> Row {
    Row { frequency, is_pll8: false, secondary_index, perf_level, voltages: [0; 7] }
}

fn owned(tokens: &[&str]) -> Vec<String> {
    tokens.iter().map(|t| t.to_string()).collect()
}

fn descriptor(inner: &str) -> Option<Vec<Option<String>>> {
    Some(vec![Some(format!("L2({})", inner)), Some(inner.to_string())])
}

const PLL8_ROW: &str = "1, { 200000, PLL_8, 0, 0x00 }, L2(1), 900000";

#[test]
fn single_first_tier_row_is_read() {
    let m = matchers();
    let got = Row::try_parse_and_fixup_level(&m, 0, &[], PLL8_ROW);
    assert_eq!(
        got,
        Ok(Some(Row {
            frequency: 200000,
            is_pll8: true,
            secondary_index: 1,
            perf_level: 1,
            voltages: [900000, 0, 0, 0, 0, 0, 0],
        }))
    );
}

#[test]
fn zero_flag_gives_no_row() {
    let m = matchers();
    let got = Row::try_parse_and_fixup_level(&m, 0, &[], "0, { 200000, PLL_8, 0, 0x00 }, L2(1), 900000");
    assert_eq!(got, Ok(None));
}

#[test]
fn zero_flag_skips_whatever_follows() {
    let m = matchers();
    assert_eq!(Row::try_parse_and_fixup_level(&m, 0, &[], "0"), Ok(None));
    assert_eq!(Row::try_parse_and_fixup_level(&m, 9, &[], "0, { junk } }"), Ok(None));
    assert_eq!(Row::from_tokens(3, &[], &owned(&["0", "x", "y"]), &None), Ok(None));
    assert_eq!(Row::from_tokens(3, &[], &owned(&["000"]), &None), Ok(None));
}

#[test]
fn token_order_is_flag_frequency_source_selector_value_descriptor_voltage() {
    let tokens = owned(&["1", "384000", "HFPLL", "2", "0x20", "L2(5)", "975000"]);
    let got = Row::from_tokens(2, &[], &tokens, &descriptor("5"));
    assert_eq!(
        got,
        Ok(Some(Row {
            frequency: 384000,
            is_pll8: false,
            secondary_index: 5,
            perf_level: 1,
            voltages: [0, 0, 975000, 0, 0, 0, 0],
        }))
    );
}

#[test]
fn voltage_lands_in_the_slot_of_the_tier() {
    let m = matchers();
    for tier in 0u8..7 {
        let got = Row::try_parse_and_fixup_level(&m, tier, &[], PLL8_ROW).unwrap().unwrap();
        for slot in 0..7 {
            let expected = if slot == tier as usize { 900000 } else { 0 };
            assert_eq!(got.voltages[slot], expected);
        }
    }
}

#[test]
fn only_the_sentinel_marks_the_shared_pll() {
    let m = matchers();
    let other = Row::try_parse_and_fixup_level(&m, 0, &[], "1, { 200000, PLL_80, 0, 0x00 }, L2(1), 900000");
    assert!(!other.unwrap().unwrap().is_pll8);
    let lower = Row::try_parse_and_fixup_level(&m, 0, &[], "1, { 200000, pll_8, 0, 0x00 }, L2(1), 900000");
    assert!(!lower.unwrap().unwrap().is_pll8);
    let hit = Row::try_parse_and_fixup_level(&m, 0, &[], PLL8_ROW);
    assert!(hit.unwrap().unwrap().is_pll8);
}

#[test]
fn missing_fields_are_named() {
    let m = matchers();
    let cases = [
        ("", Field::ScalingFlag),
        ("1", Field::Frequency),
        ("1, { 200000", Field::ClockSource),
        ("1, { 200000, PLL_8", Field::SourceSelector),
        ("1, { 200000, PLL_8, 0", Field::SourceValue),
        ("1, { 200000, PLL_8, 0, 0x00 }", Field::Descriptor),
        ("1, { 200000, PLL_8, 0, 0x00 }, L2(1)", Field::Voltage),
    ];
    for (text, field) in cases {
        assert_eq!(
            Row::try_parse_and_fixup_level(&m, 0, &[], text),
            Err(ParseError::MissingField(field)),
            "{:?}",
            text
        );
    }
}

#[test]
fn unreadable_numbers_are_named() {
    let m = matchers();
    let cases = [
        ("abc", Field::ScalingFlag),
        ("256, { 200000", Field::ScalingFlag),
        ("0x1, { 200000", Field::ScalingFlag),
        ("1, { PLL_8", Field::Frequency),
        ("1, { \u{0661}\u{0662}, PLL_8", Field::Frequency),
        ("1, { 4294967296, PLL_8, 0, 0x00 }, L2(1), 900000", Field::Frequency),
        ("1, { 200000, PLL_8, 0, 0x00 }, L2(1), 0x10", Field::Voltage),
        ("1, { 200000, PLL_8, 0, 0x00 }, L2(1), volts", Field::Voltage),
    ];
    for (text, field) in cases {
        assert_eq!(
            Row::try_parse_and_fixup_level(&m, 0, &[], text),
            Err(ParseError::NumericParseError(field)),
            "{:?}",
            text
        );
    }
}

#[test]
fn descriptor_without_inner_value_is_malformed() {
    let m = matchers();
    let cases = [
        "1, { 200000, PLL_8, 0, 0x00 }, FOO(1), 900000",
        "1, { 200000, PLL_8, 0, 0x00 }, L2(), 900000",
        "1, { 200000, PLL_8, 0, 0x00 }, L2(x), 900000",
        "1, { 200000, PLL_8, 0, 0x00 }, L2(300), 900000",
        "1, { 200000, PLL_8, 0, 0x00 }, L2, 900000",
        "1, { 200000, PLL_8, 0, 0x00 }, L2(\u{0663}), 900000",
    ];
    for text in cases {
        assert_eq!(
            Row::try_parse_and_fixup_level(&m, 0, &[], text),
            Err(ParseError::MalformedDescriptor),
            "{:?}",
            text
        );
    }
}

#[test]
fn descriptor_is_checked_before_the_voltage() {
    let tokens = owned(&["1", "200000", "PLL_8", "0", "0x00", "FOO(1)"]);
    assert_eq!(Row::from_tokens(0, &[], &tokens, &None), Err(ParseError::MalformedDescriptor));
}

#[test]
fn tier_outside_the_slots_is_unknown() {
    let m = matchers();
    assert_eq!(Row::try_parse_and_fixup_level(&m, 7, &[], PLL8_ROW), Err(ParseError::UnknownTier));
    assert_eq!(Row::try_parse_and_fixup_level(&m, 255, &[], PLL8_ROW), Err(ParseError::UnknownTier));
}

#[test]
fn read_descriptor_takes_the_first_group() {
    assert_eq!(read_descriptor(&descriptor("7")), Some(7));
    assert_eq!(read_descriptor(&descriptor("255")), Some(255));
    assert_eq!(read_descriptor(&descriptor("256")), None);
    assert_eq!(read_descriptor(&None), None);
    assert_eq!(read_descriptor(&Some(vec![Some("L2(1)".to_string())])), None);
    assert_eq!(read_descriptor(&Some(vec![Some("L2(1)".to_string()), None])), None);
}

#[test]
fn first_row_gets_level_one() {
    assert_eq!(assign_level(&[], 0), 1);
    assert_eq!(assign_level(&[], 200), 1);
}

#[test]
fn shared_secondary_index_shares_the_level() {
    let dt = [row(100, 0, 1), row(200, 5, 2), row(300, 5, 2), row(400, 9, 3)];
    assert_eq!(assign_level(&dt, 0), 1);
    assert_eq!(assign_level(&dt, 5), 2);
    assert_eq!(assign_level(&dt, 9), 3);
}

#[test]
fn unseen_secondary_index_gets_the_next_level() {
    let dt = [row(100, 0, 1), row(200, 5, 2), row(300, 5, 2)];
    assert_eq!(assign_level(&dt, 7), 3);
    let m = matchers();
    let got = Row::try_parse_and_fixup_level(&m, 0, &dt, "1, { 400000, HFPLL, 2, 0x20 }, L2(7), 1000000");
    assert_eq!(got.unwrap().unwrap().perf_level, 3);
}

#[test]
fn level_follows_the_last_row_not_the_highest() {
    let dt = [row(100, 4, 5), row(200, 1, 2)];
    assert_eq!(assign_level(&dt, 9), 3);
    assert_eq!(assign_level(&dt, 4), 5);
}

#[test]
fn levels_grow_one_by_one_over_a_table() {
    let m = matchers();
    let texts = [
        "1, { 384000, PLL_8, 0, 0x00 }, L2(0), 950000",
        "1, { 486000, HFPLL, 2, 0x24 }, L2(5), 975000",
        "1, { 594000, HFPLL, 1, 0x16 }, L2(5), 1000000",
        "1, { 702000, HFPLL, 1, 0x1A }, L2(9), 1025000",
    ];
    let mut dt: Vec<Row> = Vec::new();
    for t in texts {
        let r = Row::try_parse_and_fixup_level(&m, 0, &dt, t).unwrap().unwrap();
        dt.push(r);
    }
    let levels: Vec<usize> = dt.iter().map(|r| r.perf_level).collect();
    assert_eq!(levels, vec![1, 2, 2, 3]);
}

#[test]
fn hexadecimal_and_call_tokens_are_one_token_each() {
    let m = matchers();
    let got = Row::try_parse_and_fixup_level(&m, 1, &[], "{ 1, { 1026000, HFPLL, 1, 0x26 }, L2(12), 1150000 },");
    assert_eq!(
        got,
        Ok(Some(Row {
            frequency: 1026000,
            is_pll8: false,
            secondary_index: 12,
            perf_level: 1,
            voltages: [0, 1150000, 0, 0, 0, 0, 0],
        }))
    );
}

#[test]
fn fixed_patterns_compile() {
    assert!(Matchers::new().is_ok());
}

#[test]
fn rejected_pattern_is_reported() {
    assert_eq!(compile_pattern("(").err(), Some(ParseError::InvalidPattern));
    let ok = compile_pattern("a+b").unwrap();
    assert_eq!(ok.as_str(), "a+b");
}

#[test]
fn tokens_are_segmented_left_to_right() {
    let m = matchers();
    assert_eq!(
        tokenize(&m, "{ 1, { 384000, PLL_8, 0, 0x00 }, L2(0), 950000 },"),
        owned(&["1", "384000", "PLL_8", "0", "0x00", "L2(0)", "950000"])
    );
    assert_eq!(tokenize(&m, "0x1F foo(a, b) bar 12"), owned(&["0x1F", "foo(a, b)", "bar", "12"]));
    assert_eq!(tokenize(&m, ""), Vec::<String>::new());
    assert_eq!(tokenize(&m, " { , } ; "), Vec::<String>::new());
}

#[test]
fn descriptor_is_captured_from_the_sixth_token() {
    let m = matchers();
    let tokens = owned(&["1", "384000", "PLL_8", "0", "0x00", "L2(12)", "950000"]);
    assert_eq!(
        capture_descriptor(&m, &tokens),
        Some(vec![Some("L2(12)".to_string()), Some("12".to_string())])
    );
    let other = owned(&["1", "384000", "PLL_8", "0", "0x00", "FOO(12)", "950000"]);
    assert_eq!(capture_descriptor(&m, &other), None);
    let short = owned(&["L2(1)", "L2(2)", "L2(3)", "L2(4)", "L2(5)"]);
    assert_eq!(capture_descriptor(&m, &short), None);
}
