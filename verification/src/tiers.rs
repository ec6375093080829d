//! Tier designators: the names and numbers by which a table says which
//! voltage tier it belongs to.

use vstd::prelude::*;
use vstd::string::*;

use crate::decimal::{parse_u8, parse_unsigned};
use crate::error::ParseError;

verus! {

/// The voltage slot that a symbolic tier name stands for.
pub open spec fn macro_index(name: Seq<char>) -> Option<u8> {
    if name == "PVS_SLOW"@ {
        Some(0u8)
    } else if name == "PVS_NOMINAL"@ {
        Some(2u8)
    } else if name == "PVS_FAST"@ {
        Some(3u8)
    } else if name == "PVS_FASTER"@ {
        Some(4u8)
    } else {
        None
    }
}

/// The voltage slot that a tier designator stands for: a decimal number
/// below the number of slots is the slot itself, and one that is no
/// number of 8 bits is looked up as a symbolic name.
pub open spec fn tier_index(designator: Seq<char>) -> Option<u8> {
    match parse_unsigned(designator, u8::MAX as nat) {
        Some(n) => if n < 7 {
            Some(n as u8)
        } else {
            None
        },
        None => macro_index(designator),
    }
}

/// Whether two texts are the same.
pub fn same_text(a: &str, b: &str) -> (r: bool)
    ensures
        r == (a@ == b@),
{
    let n: usize = a.unicode_len();
    if n != b.unicode_len() {
        return false;
    }
    let mut i: usize = 0;
    while i < n
        invariant
            i <= n,
            n == a@.len(),
            n == b@.len(),
            forall|j: int| 0 <= j < i ==> a@[j] == b@[j],
        decreases n - i,
    {
        if a.get_char(i) != b.get_char(i) {
            return false;
        }
        i = i + 1;
    }
    assert(a@ =~= b@);
    true
}

/// Resolves a symbolic tier name to its voltage slot.
pub fn pvs_macro_to_index(ty: &str) -> (r: Result<u8, ParseError>)
    ensures
        r == match macro_index(ty@) {
            Some(i) => Ok::<u8, ParseError>(i),
            None => Err(ParseError::UnknownTier),
        },
        r matches Ok(i) ==> i < 7,
{
    if same_text(ty, "PVS_SLOW") {
        Ok(0)
    } else if same_text(ty, "PVS_NOMINAL") {
        Ok(2)
    } else if same_text(ty, "PVS_FAST") {
        Ok(3)
    } else if same_text(ty, "PVS_FASTER") {
        Ok(4)
    } else {
        Err(ParseError::UnknownTier)
    }
}

/// Resolves a tier designator, numeric or symbolic, to its voltage slot.
pub fn resolve_tier(designator: &str) -> (r: Result<u8, ParseError>)
    ensures
        r == match tier_index(designator@) {
            Some(i) => Ok::<u8, ParseError>(i),
            None => Err(ParseError::UnknownTier),
        },
        r matches Ok(i) ==> i < 7,
{
    match parse_u8(designator) {
        Some(n) => {
            if n < 7 {
                Ok(n)
            } else {
                Err(ParseError::UnknownTier)
            }
        },
        None => pvs_macro_to_index(designator),
    }
}

} // verus!
