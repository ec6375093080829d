//! Performance levels: what holds of the levels that rows are given as
//! they join a row set.

use vstd::prelude::*;

use crate::decimal::parse_unsigned;
use crate::error::ParseError;
use crate::row::{
    assigned_level, first_position, is_first, lemma_first_position_none, parse_row,
    secondary_indices, RowView,
};

verus! {

/// Rows of one secondary index have one performance level.
pub open spec fn levels_consistent(rows: Seq<RowView>) -> bool {
    forall|i: int, j: int|
        0 <= i < rows.len() && 0 <= j < rows.len() && (#[trigger] rows[i]).secondary_index == (
        #[trigger] rows[j]).secondary_index ==> rows[i].perf_level == rows[j].perf_level
}

/// Levels start at 1 and no row's level exceeds its position counted from 1.
pub open spec fn levels_bounded(rows: Seq<RowView>) -> bool {
    forall|j: int| 0 <= j < rows.len() ==> 1 <= (#[trigger] rows[j]).perf_level <= j + 1
}

/// Where some row has the secondary index, there is a first one.
pub proof fn lemma_first_position_exists(keys: Seq<int>, key: int, j: int)
    requires
        0 <= j < keys.len(),
        keys[j] == key,
    ensures
        first_position(keys, key) matches Some(i) && is_first(keys, key, i) && i <= j,
    decreases j,
{
    if exists|k: int| 0 <= k < j && keys[k] == key {
        let k = choose|k: int| 0 <= k < j && keys[k] == key;
        lemma_first_position_exists(keys, key, k);
    } else {
        assert(is_first(keys, key, j));
        let c = choose|c: int| is_first(keys, key, c);
        assert(is_first(keys, key, c));
        if j < c {
            assert(keys[j] != key);
        }
    }
}

/// The level given to a joining row lies between 1 and the row's position
/// counted from 1.
pub proof fn lemma_assigned_level_bounds(rows: Seq<RowView>, secondary_index: u8)
    requires
        levels_bounded(rows),
    ensures
        1 <= assigned_level(rows, secondary_index) <= rows.len() + 1,
{
    let keys = secondary_indices(rows);
    match first_position(keys, secondary_index as int) {
        Some(i) => {
            assert(is_first(keys, secondary_index as int, i));
            assert(1 <= rows[i].perf_level <= i + 1);
        },
        None => {
            if rows.len() > 0 {
                assert(1 <= rows[rows.len() - 1].perf_level <= rows.len());
            }
        },
    }
}

/// A scaling flag of zero yields no row and no error, whatever else the
/// row holds.
pub proof fn zero_flag_yields_no_row(
    pvs: u8,
    rows: Seq<RowView>,
    tokens: Seq<Seq<char>>,
    descriptor: Option<Seq<Option<Seq<char>>>>,
)
    requires
        tokens.len() > 0,
        parse_unsigned(tokens[0], u8::MAX as nat) == Some(0nat),
    ensures
        parse_row(pvs, rows, tokens, descriptor) == Ok::<Option<RowView>, ParseError>(None),
{
}

/// A row that joins a consistent set takes the level of every row that
/// shares its secondary index.
pub proof fn shared_index_shares_level(
    pvs: u8,
    rows: Seq<RowView>,
    tokens: Seq<Seq<char>>,
    descriptor: Option<Seq<Option<Seq<char>>>>,
    row: RowView,
    j: int,
)
    requires
        levels_consistent(rows),
        parse_row(pvs, rows, tokens, descriptor) == Ok::<Option<RowView>, ParseError>(Some(row)),
        0 <= j < rows.len(),
        rows[j].secondary_index == row.secondary_index,
    ensures
        row.perf_level == rows[j].perf_level,
{
    let keys = secondary_indices(rows);
    lemma_first_position_exists(keys, row.secondary_index as int, j);
    let i = first_position(keys, row.secondary_index as int).unwrap();
    assert(rows[i].secondary_index == rows[j].secondary_index);
}

/// The first row of a set gets level 1.
pub proof fn first_row_gets_level_one(
    pvs: u8,
    tokens: Seq<Seq<char>>,
    descriptor: Option<Seq<Option<Seq<char>>>>,
    row: RowView,
)
    requires
        parse_row(pvs, Seq::empty(), tokens, descriptor) == Ok::<Option<RowView>, ParseError>(
            Some(row),
        ),
    ensures
        row.perf_level == 1,
{
    let keys = secondary_indices(Seq::<RowView>::empty());
    lemma_first_position_none(keys, row.secondary_index as int);
}

/// A row whose secondary index no row of a non-empty set has gets the
/// level of the row created last, plus one.
pub proof fn unseen_index_gets_next_level(
    pvs: u8,
    rows: Seq<RowView>,
    tokens: Seq<Seq<char>>,
    descriptor: Option<Seq<Option<Seq<char>>>>,
    row: RowView,
)
    requires
        rows.len() >= 1,
        parse_row(pvs, rows, tokens, descriptor) == Ok::<Option<RowView>, ParseError>(Some(row)),
        forall|j: int| 0 <= j < rows.len() ==> rows[j].secondary_index != row.secondary_index,
    ensures
        row.perf_level == rows.last().perf_level + 1,
{
    let keys = secondary_indices(rows);
    lemma_first_position_none(keys, row.secondary_index as int);
}

/// A consistent set stays consistent when a row joins it with the level
/// it is assigned.
pub proof fn joining_keeps_levels_consistent(rows: Seq<RowView>, row: RowView)
    requires
        levels_consistent(rows),
        row.perf_level == assigned_level(rows, row.secondary_index),
    ensures
        levels_consistent(rows.push(row)),
{
    let keys = secondary_indices(rows);
    let next = rows.push(row);
    assert forall|i: int, j: int|
        0 <= i < next.len() && 0 <= j < next.len() && (#[trigger] next[i]).secondary_index == (
        #[trigger] next[j]).secondary_index implies next[i].perf_level == next[j].perf_level by {
        if i < rows.len() && j < rows.len() {
            assert(rows[i].perf_level == rows[j].perf_level);
        } else if i < rows.len() {
            lemma_first_position_exists(keys, row.secondary_index as int, i);
            let f = first_position(keys, row.secondary_index as int).unwrap();
            assert(rows[f].secondary_index == rows[i].secondary_index);
        } else if j < rows.len() {
            lemma_first_position_exists(keys, row.secondary_index as int, j);
            let f = first_position(keys, row.secondary_index as int).unwrap();
            assert(rows[f].secondary_index == rows[j].secondary_index);
        }
    }
}

/// A bounded set stays bounded when a row joins it with the level it is
/// assigned.
pub proof fn joining_keeps_levels_bounded(rows: Seq<RowView>, row: RowView)
    requires
        levels_bounded(rows),
        row.perf_level == assigned_level(rows, row.secondary_index),
    ensures
        levels_bounded(rows.push(row)),
{
    lemma_assigned_level_bounds(rows, row.secondary_index);
    let next = rows.push(row);
    assert forall|j: int| 0 <= j < next.len() implies 1 <= (#[trigger] next[j]).perf_level <= j
        + 1 by {
        if j < rows.len() {
            assert(1 <= rows[j].perf_level <= j + 1);
        }
    }
}

} // verus!
