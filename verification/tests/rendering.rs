use acpu_opp::error::ParseError;
use acpu_opp::render::render_rows;
use acpu_opp::row::Row;
use acpu_opp::table::{emit_rows, ROW_CEILING};

fn pll8_row() -> Row {
    Row { frequency: 200000, is_pll8: true, secondary_index: 1, perf_level: 1, voltages: [900000, 0, 0, 0, 0, 0, 0] }
}

#[test]
fn node_of_one_tier_with_latency() {
    let expected = "opp-200000000 {\n\
\topp-hz = /bits/ 64 <200000000>;\n\
\topp-microvolt-speed0-pvs0 = <900000 900000 900000>;\n\
\topp-supported-hw = <0x4007>;\n\
\topp-level = <1>;\n\
\t/* give enough time to switch between PLL8 and HFPLL */\n\
\tclock-latency-ns = <244144>;\n\
};\n";
    assert_eq!(pll8_row().render(), expected);
}

#[test]
fn node_of_two_tiers() {
    let mut row = pll8_row();
    row.voltages[1] = 950000;
    let expected = "opp-200000000 {\n\
\topp-hz = /bits/ 64 <200000000>;\n\
\topp-microvolt-speed0-pvs0 = <900000 900000 900000>;\n\
\topp-microvolt-speed0-pvs1 = <950000 950000 950000>;\n\
\topp-supported-hw = <0x4007>;\n\
\topp-level = <1>;\n\
\t/* give enough time to switch between PLL8 and HFPLL */\n\
\tclock-latency-ns = <244144>;\n\
};\n";
    assert_eq!(row.render(), expected);
}

#[test]
fn other_clock_source_has_no_latency() {
    let row = Row { frequency: 384000, is_pll8: false, secondary_index: 5, perf_level: 2, voltages: [0, 0, 975000, 0, 1000000, 0, 0] };
    let expected = "opp-384000000 {\n\
\topp-hz = /bits/ 64 <384000000>;\n\
\topp-microvolt-speed0-pvs2 = <975000 975000 975000>;\n\
\topp-microvolt-speed0-pvs4 = <1000000 1000000 1000000>;\n\
\topp-supported-hw = <0x4007>;\n\
\topp-level = <2>;\n\
};\n";
    let text = row.render();
    assert_eq!(text, expected);
    assert!(!text.contains("clock-latency-ns"));
}

#[test]
fn hertz_is_a_thousand_times_the_frequency_beyond_32_bits() {
    let row = Row { frequency: u32::MAX, is_pll8: false, secondary_index: 0, perf_level: 1, voltages: [1, 0, 0, 0, 0, 0, 0] };
    let text = row.render();
    assert!(text.starts_with("opp-4294967295000 {\n\topp-hz = /bits/ 64 <4294967295000>;\n"));
}

#[test]
fn row_without_voltages_has_no_voltage_line() {
    let row = Row { frequency: 1, is_pll8: false, secondary_index: 0, perf_level: 1, voltages: [0; 7] };
    assert_eq!(
        row.render(),
        "opp-1000 {\n\topp-hz = /bits/ 64 <1000>;\n\topp-supported-hw = <0x4007>;\n\topp-level = <1>;\n};\n"
    );
}

#[test]
fn render_into_appends() {
    let mut out = String::from("/* head */\n");
    pll8_row().render_into(&mut out);
    assert_eq!(out, format!("/* head */\n{}", pll8_row().render()));
}

#[test]
fn rows_are_rendered_in_order_with_an_empty_line_after_each() {
    let a = pll8_row();
    let b = Row { frequency: 300000, is_pll8: false, secondary_index: 2, perf_level: 2, voltages: [5, 0, 0, 0, 0, 0, 0] };
    let text = render_rows(&vec![a, b]);
    assert_eq!(text, format!("{}\n{}\n", a.render(), b.render()));
    assert_eq!(render_rows(&vec![]), "");
}

#[test]
fn ceiling_is_twenty_rows() {
    assert_eq!(ROW_CEILING, 20);
    let row = pll8_row();
    let at = vec![row; 20];
    assert_eq!(emit_rows(&at), Ok(render_rows(&at)));
    let over = vec![row; 21];
    assert_eq!(emit_rows(&over), Err(ParseError::SanityLimitExceeded));
}
