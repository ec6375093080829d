//! From source text to rows: finding the table blocks and their tiers,
//! reading the first populated tier, merging the later ones, and emitting
//! the nodes once the row count has been checked.

use vstd::prelude::*;

use crate::decimal::{parse_u8, parse_unsigned};
use crate::error::ParseError;
use crate::levels::{
    joining_keeps_levels_bounded, joining_keeps_levels_consistent, levels_bounded,
    levels_consistent,
};
use crate::matcher::{
    all_capture_texts, captures, captures_all, find_all, group_texts, patterns_compile,
    regex_captures, regex_captures_all, regex_find_all, texts, Matchers, ROW_PATTERN,
    TABLE_PATTERN, TIER_MAP_PATTERN,
};
use crate::merge::{merge_row_into, merge_row_text, merging_keeps_levels_consistent};
use crate::render::{nodes_text, render_rows};
use crate::matcher::TOKEN_PATTERN;
use crate::row::{parse_row_text, views, Row, RowView};
use crate::tiers::{resolve_tier, tier_index};

verus! {

/// The most rows a run may accumulate.
pub const ROW_CEILING: usize = 20;

/// The tier designator that one entry of the side table gives, from the
/// entry's captures: the second group, provided the first (the speed bin)
/// is a number of 8 bits and the second and third took part in the match.
pub open spec fn designator_of(groups: Seq<Option<Seq<char>>>) -> Option<Seq<char>> {
    if groups.len() > 3 && groups[1] is Some && parse_unsigned(
        groups[1].unwrap(),
        u8::MAX as nat,
    ) is Some && groups[2] is Some && groups[3] is Some {
        groups[2]
    } else {
        None
    }
}

/// The tier designators that the entries of the side table give, in order;
/// an entry that gives none is passed over.
pub open spec fn designators(entries: Seq<Seq<Option<Seq<char>>>>) -> Seq<Seq<char>>
    decreases entries.len(),
{
    if entries.len() == 0 {
        Seq::empty()
    } else {
        match designator_of(entries.last()) {
            Some(d) => designators(entries.drop_last()).push(d),
            None => designators(entries.drop_last()),
        }
    }
}

/// The row list of a table block, from the block's captures: the first group.
pub open spec fn captured_body(groups: Seq<Option<Seq<char>>>) -> Option<Seq<char>> {
    if groups.len() > 1 {
        groups[1]
    } else {
        None
    }
}

/// The rows that reading a first tier gives: the rows of `texts` from
/// `from` on are read in order, each against the rows before it, and join
/// `rows` unless their scaling flag is zero. The first error ends the reading.
pub open spec fn build_rows(tier: u8, rows: Seq<RowView>, texts: Seq<Seq<char>>, from: int) -> Result<
    Seq<RowView>,
    ParseError,
>
    decreases texts.len() - from,
{
    if from < 0 || from >= texts.len() {
        Ok(rows)
    } else {
        match parse_row_text(tier, rows, texts[from]) {
            Err(e) => Err(e),
            Ok(None) => build_rows(tier, rows, texts, from + 1),
            Ok(Some(row)) => build_rows(tier, rows.push(row), texts, from + 1),
        }
    }
}

/// The rows that merging a later tier gives: the rows of `texts` from
/// `from` on are merged in order. The first error ends the merging.
pub open spec fn merge_rows(tier: u8, rows: Seq<RowView>, texts: Seq<Seq<char>>, from: int) -> Result<
    Seq<RowView>,
    ParseError,
>
    decreases texts.len() - from,
{
    if from < 0 || from >= texts.len() {
        Ok(rows)
    } else {
        match merge_row_text(tier, rows, texts[from]) {
            Err(e) => Err(e),
            Ok(next) => merge_rows(tier, next, texts, from + 1),
        }
    }
}

/// What one table block does to the rows accumulated so far. The block
/// must match the table shape, its designator must name a tier, and its
/// row list must have been captured, checked in this order. While no row
/// exists the block is read as the first tier; afterwards it is merged.
pub open spec fn apply_block(rows: Seq<RowView>, block: Seq<char>, designator: Seq<char>) -> Result<
    Seq<RowView>,
    ParseError,
> {
    match regex_captures(TABLE_PATTERN@, block) {
        None => Err(ParseError::StructuralMismatch),
        Some(groups) => match tier_index(designator) {
            None => Err(ParseError::UnknownTier),
            Some(tier) => match captured_body(groups) {
                None => Err(ParseError::StructuralMismatch),
                Some(body) => if rows.len() == 0 {
                    build_rows(tier, rows, regex_find_all(ROW_PATTERN@, body), 0)
                } else {
                    merge_rows(tier, rows, regex_find_all(ROW_PATTERN@, body), 0)
                },
            },
        },
    }
}

/// What the blocks from `from` on do to the rows, each block paired with
/// the designator at its own position; blocks beyond the last designator
/// are not looked at.
pub open spec fn apply_blocks(
    rows: Seq<RowView>,
    blocks: Seq<Seq<char>>,
    tiers: Seq<Seq<char>>,
    from: int,
) -> Result<Seq<RowView>, ParseError>
    decreases blocks.len() - from,
{
    if from < 0 || from >= blocks.len() || from >= tiers.len() {
        Ok(rows)
    } else {
        match apply_block(rows, blocks[from], tiers[from]) {
            Err(e) => Err(e),
            Ok(next) => apply_blocks(next, blocks, tiers, from + 1),
        }
    }
}

/// The rows that a source text gives. A text without any table block is
/// a structural mismatch.
pub open spec fn accumulate(content: Seq<char>) -> Result<Seq<RowView>, ParseError> {
    let blocks = regex_find_all(TABLE_PATTERN@, content);
    let tiers = designators(regex_captures_all(TIER_MAP_PATTERN@, content));
    if blocks.len() == 0 {
        Err(ParseError::StructuralMismatch)
    } else {
        apply_blocks(Seq::empty(), blocks, tiers, 0)
    }
}

/// The output for a run of rows: their nodes, unless there are more rows
/// than the ceiling allows.
pub open spec fn emit(rows: Seq<RowView>) -> Result<Seq<char>, ParseError> {
    if rows.len() > ROW_CEILING {
        Err(ParseError::SanityLimitExceeded)
    } else {
        Ok(nodes_text(rows, 0))
    }
}

/// The output for a source text.
pub open spec fn document(content: Seq<char>) -> Result<Seq<char>, ParseError> {
    match accumulate(content) {
        Err(e) => Err(e),
        Ok(rows) => emit(rows),
    }
}

/// Once all tiers are merged, more rows than the ceiling are fatal, and
/// no output comes with the error.
pub proof fn over_ceiling_is_fatal(content: Seq<char>, rows: Seq<RowView>)
    requires
        accumulate(content) == Ok::<Seq<RowView>, ParseError>(rows),
    ensures
        rows.len() > ROW_CEILING ==> document(content) == Err::<Seq<char>, ParseError>(
            ParseError::SanityLimitExceeded,
        ),
        rows.len() <= ROW_CEILING ==> document(content) == Ok::<Seq<char>, ParseError>(
            nodes_text(rows, 0),
        ),
{
}

/// Whether a result holds the text, or the error, that `expected` names.
pub open spec fn is_text(r: Result<String, ParseError>, expected: Result<Seq<char>, ParseError>) -> bool {
    match expected {
        Ok(t) => r matches Ok(s) && s@ == t,
        Err(e) => r == Err::<String, ParseError>(e),
    }
}

/// Whether a result holds the rows, or the error, that `expected` names.
pub open spec fn is_rows(r: Result<Vec<Row>, ParseError>, expected: Result<Seq<RowView>, ParseError>) -> bool {
    match expected {
        Ok(rows) => r matches Ok(v) && views(v@) == rows,
        Err(e) => r == Err::<Vec<Row>, ParseError>(e),
    }
}

/// The tier designator of one entry of the side table.
pub fn entry_designator(groups: &Vec<Option<String>>) -> (r: Option<String>)
    ensures
        match designator_of(group_texts(groups@)) {
            Some(d) => r matches Some(s) && s@ == d,
            None => r is None,
        },
{
    if groups.len() <= 3 {
        return None;
    }
    match &groups[1] {
        Some(speed) => {
            if parse_u8(speed.as_str()).is_none() {
                return None;
            }
        },
        None => {
            return None;
        },
    }
    if groups[3].is_none() {
        return None;
    }
    match &groups[2] {
        Some(name) => Some(name.clone()),
        None => None,
    }
}

/// The tier designators of the side table, from the captures of its entries.
pub fn tier_designators(entries: &Vec<Vec<Option<String>>>) -> (r: Vec<String>)
    ensures
        texts(r@) == designators(all_capture_texts(entries@)),
{
    let ghost all = all_capture_texts(entries@);
    let mut out: Vec<String> = Vec::new();
    let mut i: usize = 0;
    assert(all.take(0) =~= Seq::empty());
    assert(texts(out@) =~= Seq::empty());
    while i < entries.len()
        invariant
            i <= entries@.len(),
            all == all_capture_texts(entries@),
            texts(out@) == designators(all.take(i as int)),
        decreases entries@.len() - i,
    {
        let ghost before = out@;
        assert(all.take(i + 1).drop_last() =~= all.take(i as int));
        assert(all.take(i + 1).last() == group_texts(entries@[i as int]@));
        match entry_designator(&entries[i]) {
            Some(d) => {
                out.push(d);
                assert(texts(out@) =~= texts(before).push(d@));
            },
            None => {},
        }
        i = i + 1;
    }
    assert(all.take(entries@.len() as int) =~= all);
    out
}

/// The row list of a table block, from the block's captures.
pub fn block_body(groups: &Vec<Option<String>>) -> (r: Option<String>)
    ensures
        match captured_body(group_texts(groups@)) {
            Some(b) => r matches Some(s) && s@ == b,
            None => r is None,
        },
{
    if groups.len() > 1 {
        match &groups[1] {
            Some(body) => Some(body.clone()),
            None => None,
        }
    } else {
        None
    }
}

/// Reads the rows of a first tier, from the text of each row. The rows
/// that come out share a level exactly where they share a secondary index.
pub fn parse_table(matchers: &Matchers, tier: u8, row_texts: &Vec<String>) -> (r: Result<
    Vec<Row>,
    ParseError,
>)
    requires
        matchers.wf(),
    ensures
        is_rows(r, build_rows(tier, Seq::empty(), texts(row_texts@), 0)),
        r matches Ok(v) ==> levels_consistent(views(v@)) && levels_bounded(views(v@)),
{
    let ghost all = texts(row_texts@);
    let mut dt: Vec<Row> = Vec::new();
    let mut i: usize = 0;
    assert(views(dt@) =~= Seq::empty());
    while i < row_texts.len()
        invariant
            i <= row_texts@.len(),
            matchers.wf(),
            all == texts(row_texts@),
            dt@.len() <= i,
            levels_consistent(views(dt@)),
            levels_bounded(views(dt@)),
            build_rows(tier, views(dt@), all, i as int) == build_rows(tier, Seq::empty(), all, 0),
        decreases row_texts@.len() - i,
    {
        let ghost before = views(dt@);
        assert(dt@.len() > 0 ==> before[dt@.len() - 1].perf_level <= dt@.len());
        match Row::try_parse_and_fixup_level(matchers, tier, dt.as_slice(), row_texts[i].as_str()) {
            Err(e) => {
                return Err(e);
            },
            Ok(None) => {},
            Ok(Some(row)) => {
                proof {
                    joining_keeps_levels_consistent(before, row@);
                    joining_keeps_levels_bounded(before, row@);
                }
                dt.push(row);
                assert(views(dt@) =~= before.push(row@));
            },
        }
        i = i + 1;
    }
    Ok(dt)
}

/// Merges the rows of a later tier into `dt`, from the text of each row.
pub fn merge_table(matchers: &Matchers, tier: u8, dt: &mut Vec<Row>, row_texts: &Vec<String>) -> (r:
    Result<(), ParseError>)
    requires
        matchers.wf(),
    ensures
        match merge_rows(tier, views(old(dt)@), texts(row_texts@), 0) {
            Ok(rows) => r is Ok && views(final(dt)@) == rows,
            Err(e) => r == Err::<(), ParseError>(e),
        },
        levels_consistent(views(old(dt)@)) && r is Ok ==> levels_consistent(views(final(dt)@)),
{
    let ghost all = texts(row_texts@);
    let mut i: usize = 0;
    while i < row_texts.len()
        invariant
            i <= row_texts@.len(),
            matchers.wf(),
            all == texts(row_texts@),
            levels_consistent(views(old(dt)@)) ==> levels_consistent(views(dt@)),
            merge_rows(tier, views(dt@), all, i as int) == merge_rows(
                tier,
                views(old(dt)@),
                all,
                0,
            ),
        decreases row_texts@.len() - i,
    {
        proof {
            if levels_consistent(views(dt@)) {
                merging_keeps_levels_consistent(
                    tier,
                    views(dt@),
                    regex_find_all(TOKEN_PATTERN@, all[i as int]),
                );
            }
        }
        match merge_row_into(matchers, tier, dt, row_texts[i].as_str()) {
            Err(e) => {
                return Err(e);
            },
            Ok(()) => {},
        }
        i = i + 1;
    }
    Ok(())
}

/// Applies one table block, with the designator of its tier, to the rows
/// accumulated so far.
pub fn apply_table_block(matchers: &Matchers, dt: &mut Vec<Row>, block: &str, designator: &str) -> (r:
    Result<(), ParseError>)
    requires
        matchers.wf(),
    ensures
        match apply_block(views(old(dt)@), block@, designator@) {
            Ok(rows) => r is Ok && views(final(dt)@) == rows,
            Err(e) => r == Err::<(), ParseError>(e),
        },
        levels_consistent(views(old(dt)@)) && r is Ok ==> levels_consistent(views(final(dt)@)),
{
    let groups = match captures(&matchers.table, block) {
        Some(groups) => groups,
        None => {
            return Err(ParseError::StructuralMismatch);
        },
    };
    let tier = match resolve_tier(designator) {
        Ok(tier) => tier,
        Err(e) => {
            return Err(e);
        },
    };
    let body = match block_body(&groups) {
        Some(body) => body,
        None => {
            return Err(ParseError::StructuralMismatch);
        },
    };
    let row_texts = find_all(&matchers.row, body.as_str());
    if dt.len() == 0 {
        assert(views(dt@) =~= Seq::empty());
        match parse_table(matchers, tier, &row_texts) {
            Ok(rows) => {
                *dt = rows;
                Ok(())
            },
            Err(e) => Err(e),
        }
    } else {
        merge_table(matchers, tier, dt, &row_texts)
    }
}

/// Extracts the rows of a source text: every table block is paired with
/// the tier designator at its position in the side table; the first block
/// that yields rows establishes them, and each later one annotates them.
/// Rows that come out share a level wherever they share a secondary index.
pub fn extract_rows(matchers: &Matchers, content: &str) -> (r: Result<Vec<Row>, ParseError>)
    requires
        matchers.wf(),
    ensures
        is_rows(r, accumulate(content@)),
        r matches Ok(v) ==> levels_consistent(views(v@)),
{
    let blocks = find_all(&matchers.table, content);
    let entries = captures_all(&matchers.tier_map, content);
    let tiers = tier_designators(&entries);
    if blocks.len() == 0 {
        return Err(ParseError::StructuralMismatch);
    }
    let mut dt: Vec<Row> = Vec::new();
    let mut k: usize = 0;
    assert(views(dt@) =~= Seq::empty());
    while k < blocks.len() && k < tiers.len()
        invariant
            k <= blocks@.len(),
            k <= tiers@.len(),
            blocks@.len() > 0,
            matchers.wf(),
            levels_consistent(views(dt@)),
            texts(blocks@) == regex_find_all(TABLE_PATTERN@, content@),
            texts(tiers@) == designators(regex_captures_all(TIER_MAP_PATTERN@, content@)),
            apply_blocks(views(dt@), texts(blocks@), texts(tiers@), k as int) == apply_blocks(
                Seq::empty(),
                texts(blocks@),
                texts(tiers@),
                0,
            ),
        decreases blocks@.len() - k,
    {
        match apply_table_block(matchers, &mut dt, blocks[k].as_str(), tiers[k].as_str()) {
            Err(e) => {
                return Err(e);
            },
            Ok(()) => {},
        }
        k = k + 1;
    }
    Ok(dt)
}

/// Renders the rows, in the order they were created, unless there are more
/// of them than the ceiling allows: then nothing is rendered.
pub fn emit_rows(rows: &Vec<Row>) -> (r: Result<String, ParseError>)
    ensures
        is_text(r, emit(views(rows@))),
{
    if rows.len() > ROW_CEILING {
        Err(ParseError::SanityLimitExceeded)
    } else {
        Ok(render_rows(rows))
    }
}

/// Turns a source text into its nodes, with matchers already compiled.
/// Either the whole output comes back or an error and no output.
pub fn generate_with(matchers: &Matchers, content: &str) -> (r: Result<String, ParseError>)
    requires
        matchers.wf(),
    ensures
        is_text(r, document(content@)),
{
    match extract_rows(matchers, content) {
        Ok(rows) => emit_rows(&rows),
        Err(e) => Err(e),
    }
}

/// Turns a source text into its nodes.
pub fn generate(content: &str) -> (r: Result<String, ParseError>)
    ensures
        patterns_compile() ==> is_text(r, document(content@)),
        !patterns_compile() ==> r == Err::<String, ParseError>(ParseError::InvalidPattern),
{
    match Matchers::new() {
        Ok(matchers) => generate_with(&matchers, content),
        Err(e) => Err(e),
    }
}

} // verus!
