//! Typed descriptions of Direct3D 12 and DXGI objects.
//!
//! Every value here is a plain description of what is handed to the native
//! driver: enums that stand for native enumerations, and the descriptor
//! structures that the native entry points read, laid out field for field as
//! plain integers. Each conversion to a native value is stated as a spec
//! function and proved.

use vstd::prelude::*;

mod command_list;
mod descriptor;
mod dxgi;
mod heap;
mod pso;
mod query;
mod queue;
mod resource;
mod sync;

pub use crate::command_list::{
    lemma_cmd_list_type_native_injective, ClearFlags, CmdListType, CommandSignatureDesc,
    IndexBufferView, IndirectArgument, ResourceBarrier, ResourceBarrierFlags, ResourceStates,
    TransitionBarrier, RESOURCE_BARRIER_TYPE_TRANSITION,
};
pub use crate::descriptor::{
    lemma_descriptor_heap_type_native_injective, lemma_descriptor_range_type_native_injective,
    lemma_root_signature_version_native_injective, lemma_shader_visibility_native_injective,
    lemma_static_border_color_native_injective, Binding, CpuDescriptor, DescriptorHeapDesc,
    DescriptorHeapFlags, DescriptorHeapType, DescriptorRange, DescriptorRangeType, GpuDescriptor,
    RenderTargetViewDesc, RootParameter, RootParameterKind, RootSignatureFlags,
    RootSignatureVersion, ShaderVisibility, StaticBorderColor, ROOT_PARAMETER_TYPE_32BIT_CONSTANTS,
    ROOT_PARAMETER_TYPE_CBV, ROOT_PARAMETER_TYPE_DESCRIPTOR_TABLE, ROOT_PARAMETER_TYPE_SRV,
    ROOT_PARAMETER_TYPE_UAV, RTV_DIMENSION_TEXTURE2D,
};
pub use crate::dxgi::{
    lemma_alpha_mode_native_injective, lemma_scaling_native_injective,
    lemma_swap_effect_native_injective, native_bool, AlphaMode, DxgiLib, NativeSwapChainDesc,
    NativeSwapChainDesc1, Scaling, SwapEffect, SwapchainDesc, Usage, REFRESH_RATE_DENOMINATOR,
    REFRESH_RATE_NUMERATOR,
};
pub use crate::heap::{
    lemma_cpu_page_property_native_injective, lemma_heap_type_native_injective,
    lemma_memory_pool_native_injective, CpuPageProperty, HeapDesc, HeapFlags, HeapProperties,
    HeapType, MemoryPool,
};
pub use crate::pso::{
    lemma_subobject_native_injective, PipelineStateFlags, PipelineStateSubobject, Subobject,
};
pub use crate::query::{lemma_query_heap_type_native_injective, QueryHeapDesc, QueryHeapType};
pub use crate::queue::{lemma_priority_native_injective, CommandQueueDesc, CommandQueueFlags, Priority};
pub use crate::resource::{ByteRange, DiscardRegion, NativeDiscardRegion, Rect, Subresource};
pub use crate::sync::{WaitResult, WAIT_OBJECT_0, WAIT_TIMEOUT};

verus! {

/// Virtual address of GPU memory.
pub type GpuAddress = u64;

/// Mask selecting the GPU nodes an object belongs to.
pub type NodeMask = u32;

/// Index into the root signature.
pub type RootIndex = u32;

/// Draw vertex count.
pub type VertexCount = u32;

/// Draw vertex base offset.
pub type VertexOffset = i32;

/// Draw number of indices.
pub type IndexCount = u32;

/// Draw number of instances.
pub type InstanceCount = u32;

/// Number of work groups.
pub type WorkGroupCount = [u32; 3];

/// Native `DXGI_FORMAT` value.
pub type Format = u32;

/// Multisampling parameters of a texture or swap chain.
#[derive(Clone, Copy, Debug, PartialEq, Eq, Structural)]
pub struct SampleDesc {
    pub count: u32,
    pub quality: u32,
}

/// Capability level of a device.
#[derive(Clone, Copy, Debug, PartialEq, Eq, Structural)]
#[non_exhaustive]
pub enum FeatureLevel {
    L9_1,
    L9_2,
    L9_3,
    L10_0,
    L10_1,
    L11_0,
    L11_1,
    L12_0,
    L12_1,
}

impl FeatureLevel {
    /// The native `D3D_FEATURE_LEVEL` value.
    pub open spec fn spec_to_native(self) -> i32 {
        match self {
            FeatureLevel::L9_1 => 0x9100,
            FeatureLevel::L9_2 => 0x9200,
            FeatureLevel::L9_3 => 0x9300,
            FeatureLevel::L10_0 => 0xa000,
            FeatureLevel::L10_1 => 0xa100,
            FeatureLevel::L11_0 => 0xb000,
            FeatureLevel::L11_1 => 0xb100,
            FeatureLevel::L12_0 => 0xc000,
            FeatureLevel::L12_1 => 0xc100,
        }
    }

    #[verifier::when_used_as_spec(spec_to_native)]
    pub fn to_native(self) -> (r: i32)
        ensures
            r == self.spec_to_native(),
    {
        match self {
            FeatureLevel::L9_1 => 0x9100,
            FeatureLevel::L9_2 => 0x9200,
            FeatureLevel::L9_3 => 0x9300,
            FeatureLevel::L10_0 => 0xa000,
            FeatureLevel::L10_1 => 0xa100,
            FeatureLevel::L11_0 => 0xb000,
            FeatureLevel::L11_1 => 0xb100,
            FeatureLevel::L12_0 => 0xc000,
            FeatureLevel::L12_1 => 0xc100,
        }
    }

    /// The level whose native value is `code`, or `Err(())` where no level
    /// has that value.
    pub open spec fn spec_try_from_native(code: i32) -> Result<FeatureLevel, ()> {
        if code == 0x9100 {
            Ok(FeatureLevel::L9_1)
        } else if code == 0x9200 {
            Ok(FeatureLevel::L9_2)
        } else if code == 0x9300 {
            Ok(FeatureLevel::L9_3)
        } else if code == 0xa000 {
            Ok(FeatureLevel::L10_0)
        } else if code == 0xa100 {
            Ok(FeatureLevel::L10_1)
        } else if code == 0xb000 {
            Ok(FeatureLevel::L11_0)
        } else if code == 0xb100 {
            Ok(FeatureLevel::L11_1)
        } else if code == 0xc000 {
            Ok(FeatureLevel::L12_0)
        } else if code == 0xc100 {
            Ok(FeatureLevel::L12_1)
        } else {
            Err(())
        }
    }

    #[verifier::when_used_as_spec(spec_try_from_native)]
    pub fn try_from_native(code: i32) -> (r: Result<FeatureLevel, ()>)
        ensures
            r == FeatureLevel::spec_try_from_native(code),
    {
        match code {
            0x9100 => Ok(FeatureLevel::L9_1),
            0x9200 => Ok(FeatureLevel::L9_2),
            0x9300 => Ok(FeatureLevel::L9_3),
            0xa000 => Ok(FeatureLevel::L10_0),
            0xa100 => Ok(FeatureLevel::L10_1),
            0xb000 => Ok(FeatureLevel::L11_0),
            0xb100 => Ok(FeatureLevel::L11_1),
            0xc000 => Ok(FeatureLevel::L12_0),
            0xc100 => Ok(FeatureLevel::L12_1),
            _ => Err(()),
        }
    }
}

/// Distinct feature levels have distinct native values.
pub proof fn lemma_feature_level_native_injective(a: FeatureLevel, b: FeatureLevel)
    ensures
        a.to_native() == b.to_native() ==> a == b,
{
}

/// Reading back the native value of a level gives the level again, and a
/// native value that reads as a level is that level's native value.
pub proof fn lemma_feature_level_round_trip(level: FeatureLevel, code: i32)
    ensures
        FeatureLevel::try_from_native(level.to_native()) == Ok::<FeatureLevel, ()>(level),
        FeatureLevel::try_from_native(code) matches Ok(l) ==> l.to_native() == code,
        FeatureLevel::try_from_native(code) is Err <==> (forall|l: FeatureLevel| l.to_native() != code),
{
    match FeatureLevel::try_from_native(code) {
        Ok(l) => {
            assert(l.to_native() == code);
        },
        Err(_) => {
            assert forall|l: FeatureLevel| l.to_native() != code by {
                match l {
                    FeatureLevel::L9_1 => {},
                    FeatureLevel::L9_2 => {},
                    FeatureLevel::L9_3 => {},
                    FeatureLevel::L10_0 => {},
                    FeatureLevel::L10_1 => {},
                    FeatureLevel::L11_0 => {},
                    FeatureLevel::L11_1 => {},
                    FeatureLevel::L12_0 => {},
                    FeatureLevel::L12_1 => {},
                }
            }
        },
    }
}

/// Entry to the Direct3D 12 runtime.
#[derive(Debug)]
pub struct D3D12Lib {
    _disable_ctor: (),
}

impl D3D12Lib {
    /// Opens the runtime; this always succeeds.
    pub fn new() -> (r: Result<Self, libloading::Error>)
        ensures
            r is Ok,
    {
        Ok(D3D12Lib { _disable_ctor: () })
    }
}

/// The error type of `libloading`, reported when a library or a symbol
/// cannot be loaded.
#[verifier::external_type_specification]
#[verifier::external_body]
pub struct ExLoadError(libloading::Error);

} // verus!
