//! IPv6 addresses as eight 16-bit segments, and the prefix/suffix merge.
use vstd::prelude::*;

verus! {

/// Number of leading segments that form the routed prefix.
pub const PREFIX_SEGMENTS: usize = 4;

/// An IPv6 address, held as its eight 16-bit segments in network order.
#[derive(Clone, Copy, Debug, PartialEq, Eq)]
pub struct Address {
    pub segments: [u16; 8],
}

impl Address {
    /// The eight segments as a sequence.
    pub open spec fn view(&self) -> Seq<u16> {
        self.segments@
    }

    /// Builds an address from its eight segments.
    pub fn from_segments(segments: [u16; 8]) -> (r: Address)
        ensures
            r.view() == segments@,
    {
        Address { segments }
    }

    /// The eight segments of the address.
    pub fn segments(&self) -> (r: [u16; 8])
        ensures
            r@ == self.view(),
    {
        self.segments
    }

    /// Segment-wise equality of two addresses.
    pub fn same_as(&self, other: &Address) -> (r: bool)
        ensures
            r == (self.view() == other.view()),
    {
        let mut i: usize = 0;
        while i < 8
            invariant
                0 <= i <= 8,
                self.view().len() == 8,
                other.view().len() == 8,
                forall|j: int| 0 <= j < i ==> self.view()[j] == other.view()[j],
            decreases 8 - i,
        {
            if self.segments[i] != other.segments[i] {
                return false;
            }
            i = i + 1;
        }
        assert(self.view() =~= other.view());
        true
    }
}

/// The address whose first four segments are those of `prefix` and whose
/// last four are those of `suffix`.
pub open spec fn merged(prefix: Seq<u16>, suffix: Seq<u16>) -> Seq<u16> {
    prefix.subrange(0, PREFIX_SEGMENTS as int) + suffix.subrange(PREFIX_SEGMENTS as int, 8)
}

/// Combines the routed prefix (first 64 bits of `prefix`) with the interface
/// identifier (last 64 bits of `suffix`).
pub fn merge(prefix: &Address, suffix: &Address) -> (r: Address)
    ensures
        r.view() == merged(prefix.view(), suffix.view()),
{
    let p = prefix.segments;
    let s = suffix.segments;
    let r = Address { segments: [p[0], p[1], p[2], p[3], s[4], s[5], s[6], s[7]] };
    assert(r.view() =~= merged(prefix.view(), suffix.view()));
    r
}

/// For any two addresses, the merge has eight segments: the first four are
/// the prefix's first four and the last four are the suffix's last four.
pub proof fn lemma_merge_segments(prefix: Address, suffix: Address)
    ensures
        merged(prefix.view(), suffix.view()).len() == 8,
        forall|i: int| 0 <= i < 4 ==> #[trigger] merged(prefix.view(), suffix.view())[i] == prefix.view()[i],
        forall|i: int| 4 <= i < 8 ==> #[trigger] merged(prefix.view(), suffix.view())[i] == suffix.view()[i],
{
}

/// The merge depends on the segments of its two inputs alone: inputs with
/// equal segments give equal results.
pub proof fn lemma_merge_deterministic(prefix1: Address, suffix1: Address, prefix2: Address, suffix2: Address)
    requires
        prefix1.view() == prefix2.view(),
        suffix1.view() == suffix2.view(),
    ensures
        merged(prefix1.view(), suffix1.view()) == merged(prefix2.view(), suffix2.view()),
{
}

} // verus!
