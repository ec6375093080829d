//! Folding a later voltage tier into rows that the first tier established.

use vstd::prelude::*;

use crate::decimal::{parse_u32, parse_unsigned};
use crate::error::{Field, ParseError};
use crate::levels::levels_consistent;
use crate::matcher::{regex_find_all, texts, Matchers, TOKEN_PATTERN};
use crate::row::{
    first_position, lemma_first_position_is, lemma_first_position_none, tokenize, views, Row,
    RowView,
};

verus! {

/// The frequency of each row, in order.
pub open spec fn frequencies(rows: Seq<RowView>) -> Seq<int> {
    rows.map_values(|r: RowView| r.frequency as int)
}

/// `row` with the slot of `tier` set to `voltage` and nothing else changed.
pub open spec fn with_voltage(row: RowView, tier: int, voltage: u32) -> RowView {
    RowView { voltages: row.voltages.update(tier, voltage), ..row }
}

/// What merging one later-tier row into `rows` gives, from the row's
/// tokens. Only the frequency (token 1) is read to find the row it
/// annotates, the first of that frequency; where there is none the rows
/// stay as they are and nothing else is looked at. Where there is one, the
/// voltage (token 6) is read and written into the slot of `tier`.
pub open spec fn merge_row(tier: u8, rows: Seq<RowView>, tokens: Seq<Seq<char>>) -> Result<
    Seq<RowView>,
    ParseError,
> {
    if tokens.len() <= 1 {
        Err(ParseError::MissingField(Field::Frequency))
    } else {
        match parse_unsigned(tokens[1], u32::MAX as nat) {
            None => Err(ParseError::NumericParseError(Field::Frequency)),
            Some(frequency) => match first_position(frequencies(rows), frequency as int) {
                None => Ok(rows),
                Some(i) => if tokens.len() <= 6 {
                    Err(ParseError::MissingField(Field::Voltage))
                } else {
                    match parse_unsigned(tokens[6], u32::MAX as nat) {
                        None => Err(ParseError::NumericParseError(Field::Voltage)),
                        Some(voltage) => if tier >= 7 {
                            Err(ParseError::UnknownTier)
                        } else {
                            Ok(rows.update(i, with_voltage(rows[i], tier as int, voltage as u32)))
                        },
                    }
                },
            },
        }
    }
}

/// What merging one later-tier row into `rows` gives, from the row's text.
pub open spec fn merge_row_text(tier: u8, rows: Seq<RowView>, content: Seq<char>) -> Result<
    Seq<RowView>,
    ParseError,
> {
    merge_row(tier, rows, regex_find_all(TOKEN_PATTERN@, content))
}

/// The position of the first row of the given frequency.
pub fn find_frequency(dt: &Vec<Row>, frequency: u32) -> (r: Option<usize>)
    ensures
        r is Some <==> first_position(frequencies(views(dt@)), frequency as int) is Some,
        r matches Some(i) ==> first_position(frequencies(views(dt@)), frequency as int) == Some(
            i as int,
        ) && i < dt@.len(),
{
    let ghost keys = frequencies(views(dt@));
    let mut i: usize = 0;
    while i < dt.len()
        invariant
            i <= dt@.len(),
            keys == frequencies(views(dt@)),
            forall|j: int| 0 <= j < i ==> keys[j] != frequency as int,
        decreases dt@.len() - i,
    {
        if dt[i].frequency == frequency {
            proof {
                lemma_first_position_is(keys, frequency as int, i as int);
            }
            return Some(i);
        }
        i = i + 1;
    }
    proof {
        lemma_first_position_none(keys, frequency as int);
    }
    None
}

/// Merges one later-tier row, given as its tokens, into `dt`. On an error
/// `dt` is left as it was.
pub fn merge_tokens(tier: u8, dt: &mut Vec<Row>, tokens: &Vec<String>) -> (r: Result<
    (),
    ParseError,
>)
    ensures
        match merge_row(tier, views(old(dt)@), texts(tokens@)) {
            Ok(rows) => r is Ok && views(final(dt)@) == rows,
            Err(e) => r == Err::<(), ParseError>(e) && final(dt)@ == old(dt)@,
        },
{
    if tokens.len() <= 1 {
        return Err(ParseError::MissingField(Field::Frequency));
    }
    let frequency = match parse_u32(tokens[1].as_str()) {
        Some(v) => v,
        None => {
            return Err(ParseError::NumericParseError(Field::Frequency));
        },
    };
    let i = match find_frequency(dt, frequency) {
        Some(i) => i,
        None => {
            return Ok(());
        },
    };
    if tokens.len() <= 6 {
        return Err(ParseError::MissingField(Field::Voltage));
    }
    let voltage = match parse_u32(tokens[6].as_str()) {
        Some(v) => v,
        None => {
            return Err(ParseError::NumericParseError(Field::Voltage));
        },
    };
    if tier >= 7 {
        return Err(ParseError::UnknownTier);
    }
    let mut row = dt[i];
    row.voltages[tier as usize] = voltage;
    dt.set(i, row);
    assert(views(dt@) =~= views(old(dt)@).update(
        i as int,
        with_voltage(views(old(dt)@)[i as int], tier as int, voltage),
    ));
    Ok(())
}

/// Merges one later-tier row, given as its text, into `dt`. On an error
/// `dt` is left as it was.
pub fn merge_row_into(matchers: &Matchers, tier: u8, dt: &mut Vec<Row>, content: &str) -> (r:
    Result<(), ParseError>)
    requires
        matchers.wf(),
    ensures
        match merge_row_text(tier, views(old(dt)@), content@) {
            Ok(rows) => r is Ok && views(final(dt)@) == rows,
            Err(e) => r == Err::<(), ParseError>(e) && final(dt)@ == old(dt)@,
        },
{
    let tokens = tokenize(matchers, content);
    merge_tokens(tier, dt, &tokens)
}

/// Merging a row changes at most one voltage slot of one row: the count of
/// rows, and each row's frequency, clock-source mark, secondary index and
/// performance level stay, and so does every voltage outside the slot of
/// `tier`. A row whose frequency no existing row has changes nothing and
/// is no error.
pub proof fn merge_changes_one_slot(tier: u8, rows: Seq<RowView>, tokens: Seq<Seq<char>>)
    requires
        forall|j: int| 0 <= j < rows.len() ==> (#[trigger] rows[j]).voltages.len() == 7,
    ensures
        merge_row(tier, rows, tokens) matches Ok(merged) ==> {
            &&& merged.len() == rows.len()
            &&& forall|j: int|
                0 <= j < rows.len() ==> {
                    &&& (#[trigger] merged[j]).frequency == rows[j].frequency
                    &&& merged[j].is_pll8 == rows[j].is_pll8
                    &&& merged[j].secondary_index == rows[j].secondary_index
                    &&& merged[j].perf_level == rows[j].perf_level
                    &&& merged[j].voltages.len() == 7
                    &&& forall|k: int|
                        0 <= k < 7 && k != tier ==> merged[j].voltages[k] == rows[j].voltages[k]
                }
        },
        (tokens.len() > 1 && parse_unsigned(tokens[1], u32::MAX as nat) is Some
            && !frequencies(rows).contains(
            parse_unsigned(tokens[1], u32::MAX as nat).unwrap() as int,
        )) ==> merge_row(tier, rows, tokens) == Ok::<Seq<RowView>, ParseError>(rows),
{
    if tokens.len() > 1 {
        if let Some(f) = parse_unsigned(tokens[1], u32::MAX as nat) {
            let keys = frequencies(rows);
            if !keys.contains(f as int) {
                assert forall|j: int| 0 <= j < keys.len() implies keys[j] != f as int by {
                    if keys[j] == f as int {
                        assert(keys.contains(f as int));
                    }
                }
                lemma_first_position_none(keys, f as int);
            }
        }
    }
}

/// Merging leaves a consistent set consistent: no level and no secondary
/// index changes.
pub proof fn merging_keeps_levels_consistent(tier: u8, rows: Seq<RowView>, tokens: Seq<Seq<char>>)
    requires
        levels_consistent(rows),
    ensures
        merge_row(tier, rows, tokens) matches Ok(merged) ==> levels_consistent(merged),
{
    if let Ok(merged) = merge_row(tier, rows, tokens) {
        assert(merged.len() == rows.len());
        assert forall|i: int, j: int|
            0 <= i < merged.len() && 0 <= j < merged.len() && (
            #[trigger] merged[i]).secondary_index == (#[trigger] merged[j]).secondary_index implies merged[i].perf_level
            == merged[j].perf_level by {
            assert(merged[i].secondary_index == rows[i].secondary_index);
            assert(merged[j].secondary_index == rows[j].secondary_index);
            assert(merged[i].perf_level == rows[i].perf_level);
            assert(merged[j].perf_level == rows[j].perf_level);
        }
    }
}

} // verus!
