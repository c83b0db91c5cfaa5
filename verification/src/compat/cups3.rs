//! CUPS 3 counts and indexes with `size_t` and answers booleans with `bool`.

use vstd::prelude::*;

verus! {

/// A count as CUPS 3 reports it.
pub type CupsCount = usize;

pub fn count_to_usize(count: CupsCount) -> (length: usize)
    ensures
        length == count,
{
    count
}

pub fn usize_to_count(count: usize) -> (index: CupsCount)
    ensures
        index == count,
{
    count
}

pub fn cups_bool(value: bool) -> (truth: bool)
    ensures
        truth == value,
{
    value
}

/// An IPP boolean argument: a `bool` in CUPS 3.
pub fn ipp_boolean(value: bool) -> (argument: bool)
    ensures
        argument == value,
{
    value
}

} // verus!
