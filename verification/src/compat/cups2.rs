//! CUPS 2 counts and indexes with a C `int` and answers booleans with one.

use vstd::prelude::*;

verus! {

/// A count as CUPS 2 reports it.
pub type CupsCount = i32;

/// The length that a reported count stands for.
pub open spec fn length_of(count: CupsCount) -> usize {
    if count < 0 {
        0
    } else {
        count as usize
    }
}

/// An index as CUPS 2 takes it.
pub open spec fn index_of(count: usize) -> CupsCount {
    if count <= i32::MAX {
        count as i32
    } else {
        i32::MAX
    }
}

/// The length a reported count stands for. A negative count is no count.
pub fn count_to_usize(count: CupsCount) -> (length: usize)
    ensures
        length == length_of(count),
{
    if count < 0 {
        0
    } else {
        count as usize
    }
}

/// An index as CUPS 2 takes it. One that does not fit becomes the largest.
pub fn usize_to_count(count: usize) -> (index: CupsCount)
    ensures
        index == index_of(count),
{
    if count <= 0x7fff_ffff {
        count as i32
    } else {
        i32::MAX
    }
}

/// Any non-zero C `int` is true.
pub fn cups_bool(value: i32) -> (truth: bool)
    ensures
        truth == (value != 0),
{
    value != 0
}

/// An IPP boolean argument: a C `char` in CUPS 2.
pub fn ipp_boolean(value: bool) -> (argument: i8)
    ensures
        argument == (if value { 1int } else { 0int }),
{
    if value {
        1
    } else {
        0
    }
}

/// An index that CUPS 2 can take comes back as the same index, and no reported
/// count gives a length that CUPS 2 could not have meant.
pub proof fn law_index_round_trips(index: usize, count: CupsCount)
    ensures
        index <= i32::MAX ==> length_of(index_of(index)) == index,
        count >= 0 ==> index_of(length_of(count)) == count,
        length_of(count) <= i32::MAX,
{
}

/// A negative count stands for nothing, every other for itself. An index above
/// the largest `int` becomes the largest, and every other stays itself.
pub proof fn law_only_what_fits_is_kept(index: usize, count: CupsCount)
    ensures
        count <= 0 ==> length_of(count) == 0,
        count >= 0 ==> length_of(count) == count,
        index <= 2_147_483_647 ==> index_of(index) == index,
        index > 2_147_483_647 ==> index_of(index) == 2_147_483_647,
{
}

} // verus!
