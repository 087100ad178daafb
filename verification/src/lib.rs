//! Core of an event-sourced read-model pipeline: deterministic slice
//! partitioning of entity identities, command-handling aggregate state
//! machines, and idempotent projection offset bookkeeping.

pub mod claims;
pub mod offset_store;
pub mod offsets;
pub mod schema_def;
pub mod slicing;

use vstd::prelude::*;
use vstd::string::StrSliceExecFns;

verus! {

/// Total number of slices an entity identity can be assigned to.
///
/// Not configurable: changing the value would assign a different slice to a
/// persistence id than what was used before, invalidating every previously
/// computed slice assignment.
pub const NUMBER_OF_SLICES: u32 = 1024;

/// Character-wise string comparison.
pub(crate) fn str_eq(a: &str, b: &str) -> (r: bool)
    ensures
        r == (a@ == b@),
{
    let n = a.unicode_len();
    let m = b.unicode_len();
    if n != m {
        return false;
    }
    let mut i: usize = 0;
    while i < n
        invariant
            0 <= i <= n,
            n == a@.len(),
            n == b@.len(),
            forall|k: int| 0 <= k < i ==> a@[k] == b@[k],
        decreases n - i,
    {
        if a.get_char(i) != b.get_char(i) {
            return false;
        }
        i = i + 1;
    }
    proof {
        assert(a@ =~= b@);
    }
    true
}

/// An exact copy of an optional string; the values this library folds into
/// state are immutable.
pub(crate) fn dup_opt_string(value: &Option<String>) -> (r: Option<String>)
    ensures
        r == *value,
{
    match value {
        Some(s) => Some(s.clone()),
        None => None,
    }
}

} // verus!
