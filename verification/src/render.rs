//! The devicetree text of an operating point.

use vstd::prelude::*;
use vstd::string::*;

use crate::decimal::{decimal_text, push_decimal};
use crate::error::ParseError;
use crate::row::{parse_row, views, Row, RowView, PLL8_SENTINEL};

verus! {

/// The frequency of a row in Hz: its table value times 1000.
pub open spec fn hertz(frequency: u32) -> nat {
    (frequency as nat) * 1000
}

/// Whether a tier's slot holds a voltage that was observed.
pub open spec fn populated(voltage: u32) -> bool {
    voltage != 0
}

/// The property line of one populated tier: the voltage three times over,
/// as the minimum, typical and maximum of the binding.
pub open spec fn voltage_line(tier: int, voltage: u32) -> Seq<char> {
    "\topp-microvolt-speed0-pvs"@ + decimal_text(tier as nat) + " = <"@ + decimal_text(
        voltage as nat,
    ) + " "@ + decimal_text(voltage as nat) + " "@ + decimal_text(voltage as nat) + ">;\n"@
}

/// The property lines of the populated tiers from `from` on, by ascending tier.
pub open spec fn voltage_lines(voltages: Seq<u32>, from: int) -> Seq<char>
    decreases voltages.len() - from,
{
    if from < 0 || from >= voltages.len() {
        Seq::empty()
    } else if populated(voltages[from]) {
        voltage_line(from, voltages[from]) + voltage_lines(voltages, from + 1)
    } else {
        voltage_lines(voltages, from + 1)
    }
}

/// What follows the level of a row fed by the shared PLL: the comment and
/// the switch latency.
pub open spec fn latency_annotation() -> Seq<char> {
    "\n\t/* give enough time to switch between PLL8 and HFPLL */\n\tclock-latency-ns = <244144>;"@
}

/// The node of a row up to and with its level: the name, which is the
/// frequency in Hz; `opp-hz`, which is that frequency again; a voltage
/// triple for each populated tier; the hardware mask; and `opp-level`,
/// which is the performance level.
pub open spec fn node_head(row: RowView) -> Seq<char> {
    "opp-"@ + decimal_text(hertz(row.frequency)) + " {\n\topp-hz = /bits/ 64 <"@ + decimal_text(
        hertz(row.frequency),
    ) + ">;\n"@ + voltage_lines(row.voltages, 0) + "\topp-supported-hw = <0x4007>;\n\topp-level = <"@
        + decimal_text(row.perf_level) + ">;"@
}

/// What closes a node.
pub open spec fn node_close() -> Seq<char> {
    "\n};\n"@
}

/// The node of one row: its head, then the latency annotation for a row
/// fed by the shared PLL and nothing for any other, then the closing.
pub open spec fn node_text(row: RowView) -> Seq<char> {
    if row.is_pll8 {
        node_head(row) + latency_annotation() + node_close()
    } else {
        node_head(row) + node_close()
    }
}

/// The first two lines of a node: its name and `opp-hz`.
pub open spec fn node_opening(frequency: u32) -> Seq<char> {
    "opp-"@ + decimal_text(hertz(frequency)) + " {\n\topp-hz = /bits/ 64 <"@ + decimal_text(
        hertz(frequency),
    ) + ">;\n"@
}

/// Every node opens with its name and `opp-hz`, and both give the row's
/// frequency times 1000.
pub proof fn node_opens_with_hertz(row: RowView)
    ensures
        node_opening(row.frequency).is_prefix_of(node_text(row)),
        hertz(row.frequency) == row.frequency * 1000,
{
    let opening = node_opening(row.frequency);
    let rest = voltage_lines(row.voltages, 0) + "\topp-supported-hw = <0x4007>;\n\topp-level = <"@
        + decimal_text(row.perf_level) + ">;"@ + (if row.is_pll8 {
        latency_annotation()
    } else {
        Seq::empty()
    }) + node_close();
    assert(node_text(row) =~= opening + rest);
    assert((opening + rest).subrange(0, opening.len() as int) =~= opening);
}

/// A row read from tokens carries the latency annotation in its node
/// exactly if its clock-source token is the sentinel.
pub proof fn latency_follows_clock_source(
    pvs: u8,
    rows: Seq<RowView>,
    tokens: Seq<Seq<char>>,
    descriptor: Option<Seq<Option<Seq<char>>>>,
    row: RowView,
)
    requires
        parse_row(pvs, rows, tokens, descriptor) == Ok::<Option<RowView>, ParseError>(Some(row)),
    ensures
        tokens.len() > 2,
        tokens[2] == PLL8_SENTINEL@ ==> node_text(row) == node_head(row) + latency_annotation()
            + node_close(),
        tokens[2] != PLL8_SENTINEL@ ==> node_text(row) == node_head(row) + node_close(),
{
}

/// The nodes of the rows from `from` on, in order, each followed by an
/// empty line.
pub open spec fn nodes_text(rows: Seq<RowView>, from: int) -> Seq<char>
    decreases rows.len() - from,
{
    if from < 0 || from >= rows.len() {
        Seq::empty()
    } else {
        node_text(rows[from]) + "\n"@ + nodes_text(rows, from + 1)
    }
}

/// Appends the property line of one tier to `out`.
fn push_voltage_line(out: &mut String, tier: usize, voltage: u32)
    ensures
        final(out)@ == old(out)@ + voltage_line(tier as int, voltage),
{
    out.append("\topp-microvolt-speed0-pvs");
    push_decimal(out, tier as u64);
    out.append(" = <");
    push_decimal(out, voltage as u64);
    out.append(" ");
    push_decimal(out, voltage as u64);
    out.append(" ");
    push_decimal(out, voltage as u64);
    out.append(">;\n");
    assert(final(out)@ =~= old(out)@ + voltage_line(tier as int, voltage));
}

impl Row {
    /// Appends the node of this row to `out`.
    pub fn render_into(&self, out: &mut String)
        ensures
            final(out)@ == old(out)@ + node_text(self@),
    {
        let hz: u64 = self.frequency as u64 * 1000;
        out.append("opp-");
        push_decimal(out, hz);
        out.append(" {\n\topp-hz = /bits/ 64 <");
        push_decimal(out, hz);
        out.append(">;\n");
        let ghost head = out@;
        let mut tier: usize = 0;
        while tier < 7
            invariant
                tier <= 7,
                self.voltages@.len() == 7,
                out@ + voltage_lines(self.voltages@, tier as int) == head + voltage_lines(
                    self.voltages@,
                    0,
                ),
            decreases 7 - tier,
        {
            let ghost before = out@;
            let voltage = self.voltages[tier];
            if voltage != 0 {
                push_voltage_line(out, tier, voltage);
                assert(out@ + voltage_lines(self.voltages@, tier + 1) =~= before + voltage_lines(
                    self.voltages@,
                    tier as int,
                ));
            }
            tier = tier + 1;
        }
        assert(out@ =~= head + voltage_lines(self.voltages@, 0));
        out.append("\topp-supported-hw = <0x4007>;\n\topp-level = <");
        push_decimal(out, self.perf_level as u64);
        out.append(">;");
        if self.is_pll8 {
            out.append(
                "\n\t/* give enough time to switch between PLL8 and HFPLL */\n\tclock-latency-ns = <244144>;",
            );
        }
        out.append("\n};\n");
        assert(final(out)@ =~= old(out)@ + node_text(self@));
    }

    /// The node of this row.
    pub fn render(&self) -> (s: String)
        ensures
            s@ == node_text(self@),
    {
        let mut out = String::new();
        self.render_into(&mut out);
        assert(out@ =~= node_text(self@));
        out
    }
}

/// The nodes of all rows, in order, each followed by an empty line.
pub fn render_rows(rows: &Vec<Row>) -> (s: String)
    ensures
        s@ == nodes_text(views(rows@), 0),
{
    let mut out = String::new();
    let mut i: usize = 0;
    assert(out@ + nodes_text(views(rows@), 0) =~= nodes_text(views(rows@), 0));
    while i < rows.len()
        invariant
            i <= rows@.len(),
            out@ + nodes_text(views(rows@), i as int) == nodes_text(views(rows@), 0),
        decreases rows@.len() - i,
    {
        let ghost before = out@;
        rows[i].render_into(&mut out);
        out.append("\n");
        assert(out@ + nodes_text(views(rows@), i + 1) =~= before + nodes_text(
            views(rows@),
            i as int,
        ));
        i = i + 1;
    }
    assert(out@ =~= nodes_text(views(rows@), 0));
    out
}

} // verus!
