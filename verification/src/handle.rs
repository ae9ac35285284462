//! The shared sub-region handle.

use crate::offset::ContainmentError;
use std::rc::Rc;
use vstd::prelude::*;
use vstd::slice::slice_subrange;
use vstd::std_specs::cmp::PartialEqSpec;

verus! {

/// A reference-counted handle to a sub-region of a parent allocation.
///
/// The parent's storage is held as a shared byte buffer; the handle records
/// the byte offset and length of one contiguous sub-region inside it,
/// validated once at construction. Every clone of the handle shares the same
/// parent buffer, so the parent stays alive as long as any handle does.
#[derive(Debug)]
pub struct Subrc {
    rc: Rc<Vec<u8>>,
    offset: usize,
    len: usize,
}

impl Subrc {
    /// The bytes of the whole parent value.
    pub closed spec fn parent(self) -> Seq<u8> {
        self.rc@
    }

    /// The byte offset of the sub-region within the parent.
    pub closed spec fn spec_offset(self) -> usize {
        self.offset
    }

    /// The length in bytes of the sub-region.
    pub closed spec fn spec_len(self) -> usize {
        self.len
    }

    /// The sub-region lies entirely within the parent's extent. Established
    /// once, at construction, and never changed afterwards: it is the type's
    /// invariant.
    pub open spec fn contained(self) -> bool {
        self.spec_offset() + self.spec_len() <= self.parent().len()
    }

    #[verifier::type_invariant]
    spec fn inv(self) -> bool {
        self.contained()
    }

    /// The bytes of the sub-region itself: the window of the parent starting
    /// at the stored offset.
    pub open spec fn region(self) -> Seq<u8> {
        self.parent().subrange(
            self.spec_offset() as int,
            self.spec_offset() + self.spec_len(),
        )
    }

    /// Validate a candidate sub-region of `rc`'s value and build a handle
    /// for it.
    ///
    /// Succeeds exactly when the sub-region's start lies strictly inside the
    /// parent's extent and the region does not run past the parent's end; the
    /// error otherwise names the first check that failed. On success the
    /// handle records the parent buffer, offset, and length verbatim.
    pub fn try_new(rc: Rc<Vec<u8>>, offset: usize, len: usize) -> (r: Result<
        Self,
        ContainmentError,
    >)
        ensures
            match r {
                Ok(h) => h.parent() == rc@ && h.spec_offset() == offset && h.spec_len() == len
                    && offset < rc@.len() && offset + len <= rc@.len(),
                Err(e) => match e {
                    ContainmentError::StartsBeforeParent => false,
                    ContainmentError::StartsPastParentEnd => offset >= rc@.len(),
                    ContainmentError::ExtendsPastParentEnd => offset < rc@.len() && offset + len
                        > rc@.len(),
                },
            },
    {
        let n: usize = rc.len();
        if offset >= n {
            return Err(ContainmentError::StartsPastParentEnd);
        }
        if len > n - offset {
            return Err(ContainmentError::ExtendsPastParentEnd);
        }
        Ok(Subrc { rc, offset, len })
    }

    /// Build a handle for a sub-region already known to be contained in
    /// `rc`'s value.
    ///
    /// A caller whose sub-region violates containment breaks this contract;
    /// outside verified code such a call terminates the program abnormally
    /// rather than yield a half-built handle.
    pub fn new(rc: Rc<Vec<u8>>, offset: usize, len: usize) -> (h: Self)
        requires
            offset < rc@.len(),
            offset + len <= rc@.len(),
        ensures
            h.parent() == rc@,
            h.spec_offset() == offset,
            h.spec_len() == len,
    {
        match Self::try_new(rc, offset, len) {
            Ok(h) => h,
            Err(_) => vstd::pervasive::unreached(),
        }
    }

    /// A reference to the sub-region's bytes. Performs no validation: the
    /// containment invariant was established at construction and never
    /// changes, so the stored offset is applied directly.
    pub fn get(&self) -> (r: &[u8])
        ensures
            self.contained(),
            r@ == self.region(),
            r@.len() == self.spec_len(),
    {
        proof {
            use_type_invariant(self);
        }
        let parent: &Vec<u8> = &self.rc;
        let n: usize = parent.len();
        proof {
            assert(self.offset + self.len <= n);
        }
        slice_subrange(parent.as_slice(), self.offset, self.offset + self.len)
    }

    /// The stored byte offset of the sub-region within the parent.
    pub fn offset(&self) -> (r: usize)
        ensures
            r == self.spec_offset(),
    {
        self.offset
    }

    /// The stored length in bytes of the sub-region.
    pub fn len(&self) -> (r: usize)
        ensures
            r == self.spec_len(),
    {
        self.len
    }
}

/// Two byte buffers hold the same bytes.
fn vecs_eq(a: &Vec<u8>, b: &Vec<u8>) -> (r: bool)
    ensures
        r == (a@ == b@),
{
    if a.len() != b.len() {
        return false;
    }
    let mut i: usize = 0;
    while i < a.len()
        invariant
            i <= a@.len(),
            a@.len() == b@.len(),
            forall|j: int| 0 <= j < i ==> a@[j] == b@[j],
        decreases a@.len() - i,
    {
        if a[i] != b[i] {
            return false;
        }
        i += 1;
    }
    proof {
        assert(a@ =~= b@);
    }
    true
}

/// Cloning a handle shares the parent allocation and copies the offset and
/// length verbatim; no re-validation occurs, and the clone is
/// indistinguishable from the original.
impl Clone for Subrc {
    fn clone(&self) -> (r: Self)
        ensures
            r.parent() == self.parent(),
            r.spec_offset() == self.spec_offset(),
            r.spec_len() == self.spec_len(),
    {
        proof {
            use_type_invariant(self);
        }
        Subrc { rc: Rc::clone(&self.rc), offset: self.offset, len: self.len }
    }
}

/// Handles compare by the parent's value, not its identity: two handles are
/// equal exactly when their parents hold equal bytes and their offsets and
/// lengths match.
impl PartialEq for Subrc {
    fn eq(&self, other: &Self) -> (r: bool) {
        self.offset == other.offset && self.len == other.len && vecs_eq(&self.rc, &other.rc)
    }
}

impl Eq for Subrc {}

impl vstd::std_specs::cmp::PartialEqSpecImpl for Subrc {
    open spec fn obeys_eq_spec() -> bool {
        true
    }

    open spec fn eq_spec(&self, other: &Self) -> bool {
        self.parent() == other.parent() && self.spec_offset() == other.spec_offset()
            && self.spec_len() == other.spec_len()
    }
}

/// Handles that compare equal expose the same sub-region, and locate it at
/// the same place within their parents: a clone, or an independent handle
/// over an equal parent, yields the very same bytes on access.
pub proof fn lemma_equal_handles_same_region(a: Subrc, b: Subrc)
    requires
        a.eq_spec(&b),
    ensures
        a.region() == b.region(),
        a.spec_offset() == b.spec_offset(),
{
}

/// Handle equality looks only at the parent's value, never its identity:
/// whether two handles compare equal is decided by their parents' bytes,
/// their offsets and their lengths alone. In particular, handles into two
/// distinct allocations holding equal bytes, at one offset and length,
/// compare equal.
pub proof fn lemma_eq_is_value_based(a: Subrc, b: Subrc)
    ensures
        a.eq_spec(&b) <==> (a.parent() == b.parent() && a.spec_offset() == b.spec_offset()
            && a.spec_len() == b.spec_len()),
{
}

/// Handles into one parent at different offsets never compare equal.
pub proof fn lemma_different_offsets_unequal(a: Subrc, b: Subrc)
    requires
        a.spec_offset() != b.spec_offset(),
    ensures
        !a.eq_spec(&b),
{
}

} // verus!
