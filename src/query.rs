//! Query heaps.

use vstd::prelude::*;

verus! {

/// Kind of queries a query heap holds.
#[derive(Clone, Copy, Debug, PartialEq, Eq, Structural)]
pub enum QueryHeapType {
    Occlusion,
    Timestamp,
    PipelineStatistics,
    SOStatistics,
}

impl QueryHeapType {
    /// The native `D3D12_QUERY_HEAP_TYPE` value.
    pub open spec fn spec_to_native(self) -> i32 {
        match self {
            QueryHeapType::Occlusion => 0,
            QueryHeapType::Timestamp => 1,
            QueryHeapType::PipelineStatistics => 2,
            QueryHeapType::SOStatistics => 3,
        }
    }

    #[verifier::when_used_as_spec(spec_to_native)]
    pub fn to_native(self) -> (r: i32)
        ensures
            r == self.spec_to_native(),
    {
        match self {
            QueryHeapType::Occlusion => 0,
            QueryHeapType::Timestamp => 1,
            QueryHeapType::PipelineStatistics => 2,
            QueryHeapType::SOStatistics => 3,
        }
    }
}

/// Distinct query heap types have distinct native values.
pub proof fn lemma_query_heap_type_native_injective(a: QueryHeapType, b: QueryHeapType)
    ensures
        a.to_native() == b.to_native() ==> a == b,
{
}

/// The native `D3D12_QUERY_HEAP_DESC` structure, field for field.
#[derive(Clone, Copy, Debug, PartialEq, Eq, Structural)]
pub struct QueryHeapDesc {
    pub heap_type: i32,
    pub count: u32,
    pub node_mask: u32,
}

impl QueryHeapDesc {
    /// The native description of a heap of `count` queries.
    pub fn new(heap_ty: QueryHeapType, count: u32, node_mask: u32) -> (r: Self)
        ensures
            r.heap_type == heap_ty.to_native(),
            r.count == count,
            r.node_mask == node_mask,
    {
        QueryHeapDesc { heap_type: heap_ty.to_native(), count, node_mask }
    }
}

} // verus!
