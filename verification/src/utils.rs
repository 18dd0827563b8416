//! What the queries share.

use vstd::prelude::*;

verus! {

/// Which part of a listing a query asks for.
#[derive(Debug, PartialEq, Eq)]
pub struct Pagination<K> {
    /// The key at which the listing starts. `None` starts at the first key.
    pub min: Option<K>,
    /// The key before which the listing ends. `None` ends after the last key.
    pub max: Option<K>,
    /// How many rows to leave out at the start. `None` leaves out none.
    pub skip: Option<u64>,
    /// How many rows to return at most. `None` returns up to ten.
    pub limit: Option<u64>,
}

/// The part of a list of `len` items that starts at `lower_limit` and ends
/// before `upper_limit`, as positions in the list: `None` where the part does
/// not lie within the list.
pub fn window(len: usize, lower_limit: u32, upper_limit: u32) -> (r: Option<(usize, usize)>)
    ensures
        lower_limit <= upper_limit <= len ==> r == Some((lower_limit as usize, upper_limit as usize)),
        !(lower_limit <= upper_limit <= len) ==> r is None,
{
    if lower_limit <= upper_limit && upper_limit as usize <= len {
        Some((lower_limit as usize, upper_limit as usize))
    } else {
        None
    }
}

} // verus!
