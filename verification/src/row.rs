//! One operating point, and how it is read from the tokens of a table row.

use vstd::prelude::*;

use crate::decimal::{parse_u32, parse_u8, parse_unsigned};
use crate::error::{Field, ParseError};
use crate::matcher::{
    capture_texts, captures, find_all, regex_captures, regex_find_all, texts, Matchers,
    DESCRIPTOR_PATTERN, TOKEN_PATTERN,
};

verus! {

/// The clock-source name that marks a row as fed by the shared PLL.
pub const PLL8_SENTINEL: &'static str = "PLL_8";

/// One operating point.
#[derive(Clone, Copy, Debug, PartialEq, Eq)]
pub struct Row {
    /// The frequency, in the unit the source table uses (kHz).
    pub frequency: u32,
    /// Whether the clock source is the shared PLL.
    pub is_pll8: bool,
    /// The index of the secondary clock domain.
    pub secondary_index: u8,
    /// The performance level, shared by rows of one secondary index.
    pub perf_level: usize,
    /// The voltage of each tier; zero where the tier was not observed.
    pub voltages: [u32; 7],
}

/// The mathematical content of a row.
pub struct RowView {
    pub frequency: u32,
    pub is_pll8: bool,
    pub secondary_index: u8,
    pub perf_level: nat,
    pub voltages: Seq<u32>,
}

impl View for Row {
    type V = RowView;

    open spec fn view(&self) -> RowView {
        RowView {
            frequency: self.frequency,
            is_pll8: self.is_pll8,
            secondary_index: self.secondary_index,
            perf_level: self.perf_level as nat,
            voltages: self.voltages@,
        }
    }
}

/// The contents of a run of rows.
pub open spec fn views(rows: Seq<Row>) -> Seq<RowView> {
    rows.map_values(|r: Row| r@)
}

/// The content of what reading a row gave.
pub open spec fn outcome_view(r: Result<Option<Row>, ParseError>) -> Result<
    Option<RowView>,
    ParseError,
> {
    match r {
        Ok(Some(row)) => Ok(Some(row@)),
        Ok(None) => Ok(None),
        Err(e) => Err(e),
    }
}

/// Seven slots, all zero but the one of `tier`, which holds `voltage`.
pub open spec fn single_tier(tier: int, voltage: u32) -> Seq<u32> {
    Seq::new(7, |i: int| if i == tier { voltage } else { 0u32 })
}

/// Whether `i` is the first position at which `keys` holds `key`.
pub open spec fn is_first(keys: Seq<int>, key: int, i: int) -> bool {
    &&& 0 <= i < keys.len()
    &&& keys[i] == key
    &&& forall|j: int| 0 <= j < i ==> keys[j] != key
}

/// The first position at which `keys` holds `key`, if it holds it at all.
pub open spec fn first_position(keys: Seq<int>, key: int) -> Option<int> {
    if exists|i: int| is_first(keys, key, i) {
        Some(choose|i: int| is_first(keys, key, i))
    } else {
        None
    }
}

/// A position that is first is the first position.
pub proof fn lemma_first_position_is(keys: Seq<int>, key: int, i: int)
    requires
        is_first(keys, key, i),
    ensures
        first_position(keys, key) == Some(i),
{
    let c = choose|c: int| is_first(keys, key, c);
    assert(is_first(keys, key, c));
    if c < i {
        assert(keys[c] != key);
    }
    if i < c {
        assert(keys[i] != key);
    }
}

/// A key that occurs nowhere has no first position.
pub proof fn lemma_first_position_none(keys: Seq<int>, key: int)
    requires
        forall|j: int| 0 <= j < keys.len() ==> keys[j] != key,
    ensures
        first_position(keys, key) is None,
{
}

/// The secondary index of each row, in order.
pub open spec fn secondary_indices(rows: Seq<RowView>) -> Seq<int> {
    rows.map_values(|r: RowView| r.secondary_index as int)
}

/// The performance level of a row that joins `rows` with the given
/// secondary index: the level of the first row that shares the index; else
/// 1 in an empty set; else one more than the level of the row created last.
pub open spec fn assigned_level(rows: Seq<RowView>, secondary_index: u8) -> nat {
    match first_position(secondary_indices(rows), secondary_index as int) {
        Some(i) => rows[i].perf_level,
        None => if rows.len() == 0 {
            1
        } else {
            rows.last().perf_level + 1
        },
    }
}

/// The secondary index that the captures of a descriptor token give: the
/// first group, read as a decimal number of 8 bits.
pub open spec fn descriptor_index(descriptor: Option<Seq<Option<Seq<char>>>>) -> Option<nat> {
    match descriptor {
        Some(groups) => if groups.len() > 1 {
            match groups[1] {
                Some(text) => parse_unsigned(text, u8::MAX as nat),
                None => None,
            }
        } else {
            None
        },
        None => None,
    }
}

/// What reading one first-tier row gives, from the row's tokens and the
/// captures of its descriptor token (token 5): the fields are taken in
/// order, and the first one that is missing or unreadable decides the error.
/// A scaling flag of zero ends the reading with no row, whatever follows it.
pub open spec fn parse_row(
    pvs: u8,
    rows: Seq<RowView>,
    tokens: Seq<Seq<char>>,
    descriptor: Option<Seq<Option<Seq<char>>>>,
) -> Result<Option<RowView>, ParseError> {
    if tokens.len() <= 0 {
        Err(ParseError::MissingField(Field::ScalingFlag))
    } else if parse_unsigned(tokens[0], u8::MAX as nat) is None {
        Err(ParseError::NumericParseError(Field::ScalingFlag))
    } else if parse_unsigned(tokens[0], u8::MAX as nat) == Some(0nat) {
        Ok(None)
    } else if tokens.len() <= 1 {
        Err(ParseError::MissingField(Field::Frequency))
    } else if parse_unsigned(tokens[1], u32::MAX as nat) is None {
        Err(ParseError::NumericParseError(Field::Frequency))
    } else if tokens.len() <= 2 {
        Err(ParseError::MissingField(Field::ClockSource))
    } else if tokens.len() <= 3 {
        Err(ParseError::MissingField(Field::SourceSelector))
    } else if tokens.len() <= 4 {
        Err(ParseError::MissingField(Field::SourceValue))
    } else if tokens.len() <= 5 {
        Err(ParseError::MissingField(Field::Descriptor))
    } else if descriptor_index(descriptor) is None {
        Err(ParseError::MalformedDescriptor)
    } else if tokens.len() <= 6 {
        Err(ParseError::MissingField(Field::Voltage))
    } else if parse_unsigned(tokens[6], u32::MAX as nat) is None {
        Err(ParseError::NumericParseError(Field::Voltage))
    } else if pvs >= 7 {
        Err(ParseError::UnknownTier)
    } else {
        let secondary_index = descriptor_index(descriptor).unwrap() as u8;
        Ok(
            Some(
                RowView {
                    frequency: parse_unsigned(tokens[1], u32::MAX as nat).unwrap() as u32,
                    is_pll8: tokens[2] == PLL8_SENTINEL@,
                    secondary_index,
                    perf_level: assigned_level(rows, secondary_index),
                    voltages: single_tier(
                        pvs as int,
                        parse_unsigned(tokens[6], u32::MAX as nat).unwrap() as u32,
                    ),
                },
            ),
        )
    }
}

/// The captures that belong to a row's tokens: those of the descriptor
/// pattern in token 5, where there is a token 5.
pub open spec fn descriptor_captures(tokens: Seq<Seq<char>>) -> Option<Seq<Option<Seq<char>>>> {
    if tokens.len() > 5 {
        regex_captures(DESCRIPTOR_PATTERN@, tokens[5])
    } else {
        None
    }
}

/// What reading one first-tier row gives, from the row's text.
pub open spec fn parse_row_text(pvs: u8, rows: Seq<RowView>, content: Seq<char>) -> Result<
    Option<RowView>,
    ParseError,
> {
    let tokens = regex_find_all(TOKEN_PATTERN@, content);
    parse_row(pvs, rows, tokens, descriptor_captures(tokens))
}

/// Segments the text of one row into its tokens, left to right. Nothing
/// is checked of the tokens here.
pub fn tokenize(matchers: &Matchers, content: &str) -> (tokens: Vec<String>)
    requires
        matchers.wf(),
    ensures
        texts(tokens@) == regex_find_all(TOKEN_PATTERN@, content@),
{
    find_all(&matchers.tokens, content)
}

/// The captures of the descriptor pattern in the descriptor token of a
/// row, where the row has that token.
pub fn capture_descriptor(matchers: &Matchers, tokens: &Vec<String>) -> (r: Option<
    Vec<Option<String>>,
>)
    requires
        matchers.wf(),
    ensures
        capture_texts(r) == descriptor_captures(texts(tokens@)),
{
    if tokens.len() > 5 {
        captures(&matchers.descriptor, tokens[5].as_str())
    } else {
        None
    }
}

/// The performance level for a row that joins `dt` with the given
/// secondary index.
pub fn assign_level(dt: &[Row], secondary_index: u8) -> (level: usize)
    requires
        dt@.len() > 0 ==> dt@.last().perf_level < usize::MAX,
    ensures
        level == assigned_level(views(dt@), secondary_index),
{
    let ghost keys = secondary_indices(views(dt@));
    let mut i: usize = 0;
    while i < dt.len()
        invariant
            i <= dt@.len(),
            keys == secondary_indices(views(dt@)),
            forall|j: int| 0 <= j < i ==> keys[j] != secondary_index as int,
        decreases dt@.len() - i,
    {
        if dt[i].secondary_index == secondary_index {
            proof {
                lemma_first_position_is(keys, secondary_index as int, i as int);
            }
            return dt[i].perf_level;
        }
        i = i + 1;
    }
    proof {
        lemma_first_position_none(keys, secondary_index as int);
    }
    if dt.len() == 0 {
        1
    } else {
        dt[dt.len() - 1].perf_level + 1
    }
}

impl Row {
    /// Builds a row from the tokens of its text and the captures of its
    /// descriptor token.
    pub fn from_tokens(
        pvs: u8,
        dt: &[Row],
        tokens: &Vec<String>,
        descriptor: &Option<Vec<Option<String>>>,
    ) -> (r: Result<Option<Row>, ParseError>)
        requires
            dt@.len() > 0 ==> dt@.last().perf_level < usize::MAX,
        ensures
            outcome_view(r) == parse_row(
                pvs,
                views(dt@),
                texts(tokens@),
                capture_texts(*descriptor),
            ),
    {
        if tokens.len() <= 0 {
            return Err(ParseError::MissingField(Field::ScalingFlag));
        }
        let flag = match parse_u8(tokens[0].as_str()) {
            Some(v) => v,
            None => {
                return Err(ParseError::NumericParseError(Field::ScalingFlag));
            },
        };
        if flag == 0 {
            return Ok(None);
        }
        if tokens.len() <= 1 {
            return Err(ParseError::MissingField(Field::Frequency));
        }
        let frequency = match parse_u32(tokens[1].as_str()) {
            Some(v) => v,
            None => {
                return Err(ParseError::NumericParseError(Field::Frequency));
            },
        };
        if tokens.len() <= 2 {
            return Err(ParseError::MissingField(Field::ClockSource));
        }
        let sentinel = PLL8_SENTINEL.to_owned();
        let is_pll8 = tokens[2] == sentinel;
        if tokens.len() <= 3 {
            return Err(ParseError::MissingField(Field::SourceSelector));
        }
        if tokens.len() <= 4 {
            return Err(ParseError::MissingField(Field::SourceValue));
        }
        if tokens.len() <= 5 {
            return Err(ParseError::MissingField(Field::Descriptor));
        }
        let secondary_index = match read_descriptor(descriptor) {
            Some(v) => v,
            None => {
                return Err(ParseError::MalformedDescriptor);
            },
        };
        if tokens.len() <= 6 {
            return Err(ParseError::MissingField(Field::Voltage));
        }
        let voltage = match parse_u32(tokens[6].as_str()) {
            Some(v) => v,
            None => {
                return Err(ParseError::NumericParseError(Field::Voltage));
            },
        };
        let perf_level = assign_level(dt, secondary_index);
        if pvs >= 7 {
            return Err(ParseError::UnknownTier);
        }
        let mut voltages: [u32; 7] = [0;7];
        voltages[pvs as usize] = voltage;
        assert(voltages@ =~= single_tier(pvs as int, voltage));
        Ok(Some(Row { frequency, is_pll8, secondary_index, perf_level, voltages }))
    }

    /// Reads one first-tier row from its text. A scaling flag of zero gives
    /// no row; otherwise the row carries the voltage in the slot of `pvs`
    /// and takes its performance level from the rows in `dt`.
    pub fn try_parse_and_fixup_level(matchers: &Matchers, pvs: u8, dt: &[Row], content: &str) -> (r:
        Result<Option<Row>, ParseError>)
        requires
            matchers.wf(),
            dt@.len() > 0 ==> dt@.last().perf_level < usize::MAX,
        ensures
            outcome_view(r) == parse_row_text(pvs, views(dt@), content@),
    {
        let tokens = tokenize(matchers, content);
        let descriptor = capture_descriptor(matchers, &tokens);
        Row::from_tokens(pvs, dt, &tokens, &descriptor)
    }
}

/// The secondary index that the captures of a descriptor token give.
pub fn read_descriptor(descriptor: &Option<Vec<Option<String>>>) -> (r: Option<u8>)
    ensures
        r is Some <==> descriptor_index(capture_texts(*descriptor)) is Some,
        r matches Some(v) ==> descriptor_index(capture_texts(*descriptor)) == Some(v as nat),
{
    match descriptor {
        Some(groups) => {
            if groups.len() > 1 {
                match &groups[1] {
                    Some(text) => parse_u8(text.as_str()),
                    None => None,
                }
            } else {
                None
            }
        },
        None => None,
    }
}

} // verus!
