//! Memory management: the handle that names a memory region.
use vstd::prelude::*;

verus! {

/// Globally unique handle that identifies a memory region.
#[derive(Debug, Eq, PartialEq, Clone, Copy)]
pub struct Handle(pub u64);

impl Handle {
    /// The handle that names no memory region.
    pub const INVALID: u64 = 0xffff_ffff_ffff_ffff;

    /// The handle whose low 32 bits are `w[0]` and whose high 32 bits are `w[1]`.
    pub open spec fn from_words(w: [u32; 2]) -> Handle {
        Handle(((w[1] as u64) << 32u64) | (w[0] as u64))
    }

    /// The two 32-bit halves of the handle, low half first.
    pub open spec fn words(self) -> [u32; 2] {
        [self.0 as u32, (self.0 >> 32u64) as u32]
    }
}

impl From<[u32; 2]> for Handle {
    fn from(value: [u32; 2]) -> (r: Self)
        ensures
            r == Handle::from_words(value),
    {
        Handle(((value[1] as u64) << 32u64) | (value[0] as u64))
    }
}

impl vstd::std_specs::convert::FromSpecImpl<[u32; 2]> for Handle {
    open spec fn obeys_from_spec() -> bool {
        true
    }

    open spec fn from_spec(w: [u32; 2]) -> Handle {
        Handle::from_words(w)
    }
}

impl From<Handle> for [u32; 2] {
    fn from(value: Handle) -> (r: [u32; 2])
        ensures
            r == value.words(),
    {
        [value.0 as u32, (value.0 >> 32u64) as u32]
    }
}

impl vstd::std_specs::convert::FromSpecImpl<Handle> for [u32; 2] {
    open spec fn obeys_from_spec() -> bool {
        true
    }

    open spec fn from_spec(h: Handle) -> [u32; 2] {
        h.words()
    }
}

/// Splitting a handle into halves and joining them again gives the handle back.
pub proof fn lemma_handle_roundtrip(h: Handle)
    ensures
        Handle::from_words(h.words()) == h,
{
    let x = h.0;
    assert(((((x >> 32u64) as u32) as u64) << 32u64) | ((x as u32) as u64) == x) by (bit_vector);
}

/// Joining two halves into a handle and splitting it again gives the halves back.
pub proof fn lemma_handle_words_roundtrip(w: [u32; 2])
    ensures
        Handle::from_words(w).words() == w,
{
    let lo = w[0];
    let hi = w[1];
    assert(((((hi as u64) << 32u64) | (lo as u64)) as u32) == lo) by (bit_vector);
    assert(((((hi as u64) << 32u64) | (lo as u64)) >> 32u64) as u32 == hi) by (bit_vector);
    assert(Handle::from_words(w).words()@ =~= w@);
}

} // verus!
