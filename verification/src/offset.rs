//! Locating a sub-region inside a parent allocation by raw addresses.
//!
//! A caller who holds the start address of a parent value, the parent's size
//! in bytes, and the start address of a candidate sub-region can ask for the
//! byte offset of the sub-region within the parent. The offset exists exactly
//! when the sub-region's start lies inside the parent's extent; otherwise the
//! candidate is a containment violation.

use vstd::prelude::*;

verus! {

/// The single error condition of this library: a candidate sub-region does
/// not lie within the parent value's storage. The variants name the check
/// that failed.
#[derive(Clone, Copy, Debug, PartialEq, Eq)]
pub enum ContainmentError {
    /// The sub-region's start address is below the parent's start address.
    StartsBeforeParent,
    /// The sub-region's start address is at or past the end of the parent's
    /// extent.
    StartsPastParentEnd,
    /// The sub-region's start address is inside the parent, but the region
    /// itself runs past the end of the parent's extent.
    ExtendsPastParentEnd,
}

/// A sub-region's start address lies within the parent's extent: at or after
/// the parent's start, and strictly before the parent's end.
pub open spec fn start_contained(parent_addr: int, parent_size: int, field_addr: int) -> bool {
    parent_addr <= field_addr && field_addr - parent_addr < parent_size
}

/// Compute the byte offset of a sub-region within a parent value, given the
/// start address of each and the parent's size in bytes.
///
/// This validates only the sub-region's start address, mirroring the checks a
/// handle constructor makes from raw addresses: a start below the parent is
/// rejected, as is one at or past the parent's end. How far the sub-region
/// extends is not known here; a constructor that also knows the sub-region's
/// size can enforce full containment.
pub fn compute_offset(parent_addr: usize, parent_size: usize, field_addr: usize) -> (r: Result<
    usize,
    ContainmentError,
>)
    ensures
        match r {
            Ok(offset) => start_contained(parent_addr as int, parent_size as int, field_addr as int)
                && offset == field_addr - parent_addr,
            Err(e) => match e {
                ContainmentError::StartsBeforeParent => field_addr < parent_addr,
                ContainmentError::StartsPastParentEnd => field_addr >= parent_addr
                    && field_addr - parent_addr >= parent_size,
                ContainmentError::ExtendsPastParentEnd => false,
            },
        },
{
    if field_addr < parent_addr {
        return Err(ContainmentError::StartsBeforeParent);
    }
    let offset: usize = field_addr - parent_addr;
    if offset >= parent_size {
        return Err(ContainmentError::StartsPastParentEnd);
    }
    Ok(offset)
}

} // verus!
