//! Pipeline-state subobjects.

use vstd::prelude::*;

verus! {

/// Kind of a subobject in a pipeline-state stream.
#[derive(Clone, Copy, Debug, PartialEq, Eq, Structural)]
pub enum Subobject {
    RootSignature,
    VS,
    PS,
    DS,
    HS,
    GS,
    CS,
    StreamOutput,
    Blend,
    SampleMask,
    Rasterizer,
    DepthStencil,
    InputLayout,
    IBStripCut,
    PrimitiveTopology,
    RTFormats,
    DSFormat,
    SampleDesc,
    NodeMask,
    CachedPSO,
    Flags,
    DepthStencil1,
}

impl Subobject {
    /// The native `D3D12_PIPELINE_STATE_SUBOBJECT_TYPE` value.
    pub open spec fn spec_to_native(self) -> i32 {
        match self {
            Subobject::RootSignature => 0,
            Subobject::VS => 1,
            Subobject::PS => 2,
            Subobject::DS => 3,
            Subobject::HS => 4,
            Subobject::GS => 5,
            Subobject::CS => 6,
            Subobject::StreamOutput => 7,
            Subobject::Blend => 8,
            Subobject::SampleMask => 9,
            Subobject::Rasterizer => 10,
            Subobject::DepthStencil => 11,
            Subobject::InputLayout => 12,
            Subobject::IBStripCut => 13,
            Subobject::PrimitiveTopology => 14,
            Subobject::RTFormats => 15,
            Subobject::DSFormat => 16,
            Subobject::SampleDesc => 17,
            Subobject::NodeMask => 18,
            Subobject::CachedPSO => 19,
            Subobject::Flags => 20,
            Subobject::DepthStencil1 => 21,
        }
    }

    #[verifier::when_used_as_spec(spec_to_native)]
    pub fn to_native(self) -> (r: i32)
        ensures
            r == self.spec_to_native(),
    {
        match self {
            Subobject::RootSignature => 0,
            Subobject::VS => 1,
            Subobject::PS => 2,
            Subobject::DS => 3,
            Subobject::HS => 4,
            Subobject::GS => 5,
            Subobject::CS => 6,
            Subobject::StreamOutput => 7,
            Subobject::Blend => 8,
            Subobject::SampleMask => 9,
            Subobject::Rasterizer => 10,
            Subobject::DepthStencil => 11,
            Subobject::InputLayout => 12,
            Subobject::IBStripCut => 13,
            Subobject::PrimitiveTopology => 14,
            Subobject::RTFormats => 15,
            Subobject::DSFormat => 16,
            Subobject::SampleDesc => 17,
            Subobject::NodeMask => 18,
            Subobject::CachedPSO => 19,
            Subobject::Flags => 20,
            Subobject::DepthStencil1 => 21,
        }
    }
}

/// Distinct subobject kinds have distinct native values.
pub proof fn lemma_subobject_native_injective(a: Subobject, b: Subobject)
    ensures
        a.to_native() == b.to_native() ==> a == b,
{
}

/// Native `D3D12_PIPELINE_STATE_FLAGS` bits.
pub type PipelineStateFlags = i32;

/// One subobject of a pipeline-state stream: its native type tag followed
/// by its payload.
#[derive(Clone, Copy, Debug, PartialEq, Eq)]
pub struct PipelineStateSubobject<T> {
    subobject_type: i32,
    subobject: T,
}

impl<T> PipelineStateSubobject<T> {
    /// The native type tag of this subobject.
    pub closed spec fn spec_subobject_type(&self) -> i32 {
        self.subobject_type
    }

    /// The payload of this subobject.
    pub closed spec fn spec_subobject(&self) -> T {
        self.subobject
    }

    /// A subobject of kind `subobject_type` holding `subobject`.
    pub fn new(subobject_type: Subobject, subobject: T) -> (r: Self)
        ensures
            r.spec_subobject_type() == subobject_type.to_native(),
            r.spec_subobject() == subobject,
    {
        PipelineStateSubobject { subobject_type: subobject_type.to_native(), subobject }
    }

    /// The native type tag of this subobject.
    #[verifier::when_used_as_spec(spec_subobject_type)]
    pub fn subobject_type(&self) -> (r: i32)
        ensures
            r == self.spec_subobject_type(),
    {
        self.subobject_type
    }

    /// The payload of this subobject.
    pub fn subobject(&self) -> (r: &T)
        ensures
            *r == self.spec_subobject(),
    {
        &self.subobject
    }
}

} // verus!
