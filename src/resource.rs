//! GPU resources: rectangles, discard regions and mapped byte ranges.

use vstd::prelude::*;

verus! {

/// Index of one mip level or array slice of a resource.
pub type Subresource = u32;

/// The native `RECT` structure.
#[derive(Clone, Copy, Debug, PartialEq, Eq, Structural)]
pub struct Rect {
    pub left: i32,
    pub top: i32,
    pub right: i32,
    pub bottom: i32,
}

/// Parts of a resource whose contents may be discarded: a set of
/// rectangles on a non-empty range of subresources.
#[derive(Debug, PartialEq, Eq)]
pub struct DiscardRegion {
    rects: Vec<Rect>,
    start: Subresource,
    end: Subresource,
}

/// The native `D3D12_DISCARD_REGION` structure, but for the pointer to the
/// rectangles, which the caller supplies.
#[derive(Clone, Copy, Debug, PartialEq, Eq, Structural)]
pub struct NativeDiscardRegion {
    pub num_rects: u32,
    pub first_subresource: u32,
    pub num_subresources: u32,
}

impl DiscardRegion {
    #[verifier::type_invariant]
    spec fn inv(self) -> bool {
        &&& self.start < self.end
        &&& self.rects@.len() <= u32::MAX
    }

    /// The rectangles to discard.
    pub closed spec fn spec_rects(&self) -> Seq<Rect> {
        self.rects@
    }

    /// First subresource of the range.
    pub closed spec fn spec_start(&self) -> Subresource {
        self.start
    }

    /// One past the last subresource of the range.
    pub closed spec fn spec_end(&self) -> Subresource {
        self.end
    }

    /// A region of `rects` on the subresources `subregions`; `None` where
    /// the range is empty (`start >= end`) or the rectangles are too many
    /// to count in 32 bits.
    pub fn new(rects: &[Rect], subregions: std::ops::Range<Subresource>) -> (r: Option<Self>)
        ensures
            r is Some <==> (subregions.start < subregions.end && rects@.len() <= u32::MAX),
            r matches Some(d) ==> {
                &&& d.spec_rects() == rects@
                &&& d.spec_start() == subregions.start
                &&& d.spec_end() == subregions.end
            },
    {
        if subregions.start >= subregions.end || rects.len() > u32::MAX as usize {
            return None;
        }
        let mut copy: Vec<Rect> = Vec::new();
        let mut i: usize = 0;
        while i < rects.len()
            invariant
                i <= rects@.len(),
                copy@ == rects@.subrange(0, i as int),
            decreases rects@.len() - i,
        {
            copy.push(rects[i]);
            i = i + 1;
        }
        assert(copy@ =~= rects@);
        Some(DiscardRegion { rects: copy, start: subregions.start, end: subregions.end })
    }

    /// The rectangles to discard.
    pub fn rects(&self) -> (r: &[Rect])
        ensures
            r@ == self.spec_rects(),
    {
        self.rects.as_slice()
    }

    /// First subresource of the range.
    pub fn start(&self) -> (r: Subresource)
        ensures
            r == self.spec_start(),
            r < self.spec_end(),
    {
        proof {
            use_type_invariant(self);
        }
        self.start
    }

    /// One past the last subresource of the range.
    pub fn end(&self) -> (r: Subresource)
        ensures
            r == self.spec_end(),
            self.spec_start() < r,
    {
        proof {
            use_type_invariant(self);
        }
        self.end
    }

    /// The native description of this region.
    pub fn to_native(&self) -> (r: NativeDiscardRegion)
        ensures
            r.num_rects == self.spec_rects().len(),
            r.first_subresource == self.spec_start(),
            r.num_subresources == self.spec_end() - self.spec_start(),
            r.num_subresources > 0,
    {
        proof {
            use_type_invariant(self);
        }
        NativeDiscardRegion {
            num_rects: self.rects.len() as u32,
            first_subresource: self.start,
            num_subresources: self.end - self.start,
        }
    }
}

/// The native `D3D12_RANGE` structure: the bytes `begin..end` of a mapped
/// subresource.
#[derive(Clone, Copy, Debug, PartialEq, Eq, Structural)]
pub struct ByteRange {
    pub begin: usize,
    pub end: usize,
}

impl ByteRange {
    /// The bytes `range.start..range.end`.
    pub fn from_range(range: std::ops::Range<usize>) -> (r: Self)
        ensures
            r.begin == range.start,
            r.end == range.end,
    {
        ByteRange { begin: range.start, end: range.end }
    }
}

} // verus!
