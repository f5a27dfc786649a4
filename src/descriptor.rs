//! Descriptor heaps, descriptor ranges and root-signature parameters.

use vstd::prelude::*;

verus! {

/// Native `D3D12_CPU_DESCRIPTOR_HANDLE`: address of a descriptor for the CPU.
#[derive(Clone, Copy, Debug, PartialEq, Eq, Structural)]
pub struct CpuDescriptor {
    pub ptr: usize,
}

/// Native `D3D12_GPU_DESCRIPTOR_HANDLE`: address of a descriptor for the GPU.
#[derive(Clone, Copy, Debug, PartialEq, Eq, Structural)]
pub struct GpuDescriptor {
    pub ptr: u64,
}

/// A shader register in a register space.
#[derive(Clone, Copy, Debug, PartialEq, Eq, Structural)]
pub struct Binding {
    pub space: u32,
    pub register: u32,
}

/// Kind of descriptors a descriptor heap holds.
#[derive(Clone, Copy, Debug, PartialEq, Eq, Structural)]
pub enum DescriptorHeapType {
    CbvSrvUav,
    Sampler,
    Rtv,
    Dsv,
}

impl DescriptorHeapType {
    /// The native `D3D12_DESCRIPTOR_HEAP_TYPE` value.
    pub open spec fn spec_to_native(self) -> i32 {
        match self {
            DescriptorHeapType::CbvSrvUav => 0,
            DescriptorHeapType::Sampler => 1,
            DescriptorHeapType::Rtv => 2,
            DescriptorHeapType::Dsv => 3,
        }
    }

    #[verifier::when_used_as_spec(spec_to_native)]
    pub fn to_native(self) -> (r: i32)
        ensures
            r == self.spec_to_native(),
    {
        match self {
            DescriptorHeapType::CbvSrvUav => 0,
            DescriptorHeapType::Sampler => 1,
            DescriptorHeapType::Rtv => 2,
            DescriptorHeapType::Dsv => 3,
        }
    }
}

/// Distinct descriptor heap types have distinct native values.
pub proof fn lemma_descriptor_heap_type_native_injective(a: DescriptorHeapType, b: DescriptorHeapType)
    ensures
        a.to_native() == b.to_native() ==> a == b,
{
}

/// Native `D3D12_DESCRIPTOR_HEAP_FLAGS` bits.
pub type DescriptorHeapFlags = i32;

/// The native `D3D12_DESCRIPTOR_HEAP_DESC` structure, field for field.
#[derive(Clone, Copy, Debug, PartialEq, Eq, Structural)]
pub struct DescriptorHeapDesc {
    pub heap_type: i32,
    pub num_descriptors: u32,
    pub flags: DescriptorHeapFlags,
    pub node_mask: u32,
}

impl DescriptorHeapDesc {
    /// The native description of a heap of `num_descriptors` descriptors.
    pub fn new(
        num_descriptors: u32,
        heap_type: DescriptorHeapType,
        flags: DescriptorHeapFlags,
        node_mask: u32,
    ) -> (r: Self)
        ensures
            r.heap_type == heap_type.to_native(),
            r.num_descriptors == num_descriptors,
            r.flags == flags,
            r.node_mask == node_mask,
    {
        DescriptorHeapDesc { heap_type: heap_type.to_native(), num_descriptors, flags, node_mask }
    }
}

/// Shader stages that can see a root parameter or a static sampler.
#[derive(Clone, Copy, Debug, PartialEq, Eq, Structural)]
pub enum ShaderVisibility {
    All,
    VS,
    DS,
    HS,
    GS,
    PS,
}

impl ShaderVisibility {
    /// The native `D3D12_SHADER_VISIBILITY` value.
    pub open spec fn spec_to_native(self) -> i32 {
        match self {
            ShaderVisibility::All => 0,
            ShaderVisibility::VS => 1,
            ShaderVisibility::HS => 2,
            ShaderVisibility::DS => 3,
            ShaderVisibility::GS => 4,
            ShaderVisibility::PS => 5,
        }
    }

    #[verifier::when_used_as_spec(spec_to_native)]
    pub fn to_native(self) -> (r: i32)
        ensures
            r == self.spec_to_native(),
    {
        match self {
            ShaderVisibility::All => 0,
            ShaderVisibility::VS => 1,
            ShaderVisibility::HS => 2,
            ShaderVisibility::DS => 3,
            ShaderVisibility::GS => 4,
            ShaderVisibility::PS => 5,
        }
    }
}

/// Distinct shader visibilities have distinct native values.
pub proof fn lemma_shader_visibility_native_injective(a: ShaderVisibility, b: ShaderVisibility)
    ensures
        a.to_native() == b.to_native() ==> a == b,
{
}

/// Kind of descriptors in a descriptor range.
#[derive(Clone, Copy, Debug, PartialEq, Eq, Structural)]
pub enum DescriptorRangeType {
    SRV,
    UAV,
    CBV,
    Sampler,
}

impl DescriptorRangeType {
    /// The native `D3D12_DESCRIPTOR_RANGE_TYPE` value.
    pub open spec fn spec_to_native(self) -> i32 {
        match self {
            DescriptorRangeType::SRV => 0,
            DescriptorRangeType::UAV => 1,
            DescriptorRangeType::CBV => 2,
            DescriptorRangeType::Sampler => 3,
        }
    }

    #[verifier::when_used_as_spec(spec_to_native)]
    pub fn to_native(self) -> (r: i32)
        ensures
            r == self.spec_to_native(),
    {
        match self {
            DescriptorRangeType::SRV => 0,
            DescriptorRangeType::UAV => 1,
            DescriptorRangeType::CBV => 2,
            DescriptorRangeType::Sampler => 3,
        }
    }
}

/// Distinct descriptor range types have distinct native values.
pub proof fn lemma_descriptor_range_type_native_injective(a: DescriptorRangeType, b: DescriptorRangeType)
    ensures
        a.to_native() == b.to_native() ==> a == b,
{
}

/// The native `D3D12_DESCRIPTOR_RANGE` structure, field for field.
#[derive(Clone, Copy, Debug, PartialEq, Eq, Structural)]
pub struct DescriptorRange {
    pub range_type: i32,
    pub num_descriptors: u32,
    pub base_shader_register: u32,
    pub register_space: u32,
    pub offset_in_descriptors_from_table_start: u32,
}

impl DescriptorRange {
    /// `count` descriptors of kind `ty` from `base_binding` on, placed
    /// `offset` descriptors into their table.
    pub fn new(ty: DescriptorRangeType, count: u32, base_binding: Binding, offset: u32) -> (r: Self)
        ensures
            r.range_type == ty.to_native(),
            r.num_descriptors == count,
            r.base_shader_register == base_binding.register,
            r.register_space == base_binding.space,
            r.offset_in_descriptors_from_table_start == offset,
    {
        DescriptorRange {
            range_type: ty.to_native(),
            num_descriptors: count,
            base_shader_register: base_binding.register,
            register_space: base_binding.space,
            offset_in_descriptors_from_table_start: offset,
        }
    }
}

/// Native `D3D12_ROOT_PARAMETER_TYPE` of a descriptor table.
pub const ROOT_PARAMETER_TYPE_DESCRIPTOR_TABLE: i32 = 0;

/// Native `D3D12_ROOT_PARAMETER_TYPE` of inline 32-bit constants.
pub const ROOT_PARAMETER_TYPE_32BIT_CONSTANTS: i32 = 1;

/// Native `D3D12_ROOT_PARAMETER_TYPE` of a single constant-buffer view.
pub const ROOT_PARAMETER_TYPE_CBV: i32 = 2;

/// Native `D3D12_ROOT_PARAMETER_TYPE` of a single shader-resource view.
pub const ROOT_PARAMETER_TYPE_SRV: i32 = 3;

/// Native `D3D12_ROOT_PARAMETER_TYPE` of a single unordered-access view.
pub const ROOT_PARAMETER_TYPE_UAV: i32 = 4;

/// What a root parameter binds: the payload of the native tagged union.
#[derive(Clone, Debug, PartialEq, Eq)]
pub enum RootParameterKind {
    Table(Vec<DescriptorRange>),
    Constants { binding: Binding, num: u32 },
    SingleCbv(Binding),
    SingleSrv(Binding),
    SingleUav(Binding),
}

impl RootParameterKind {
    /// The native `D3D12_ROOT_PARAMETER_TYPE` tag that goes with this payload.
    pub open spec fn spec_parameter_type(&self) -> i32 {
        match self {
            RootParameterKind::Table(_) => ROOT_PARAMETER_TYPE_DESCRIPTOR_TABLE,
            RootParameterKind::Constants { .. } => ROOT_PARAMETER_TYPE_32BIT_CONSTANTS,
            RootParameterKind::SingleCbv(_) => ROOT_PARAMETER_TYPE_CBV,
            RootParameterKind::SingleSrv(_) => ROOT_PARAMETER_TYPE_SRV,
            RootParameterKind::SingleUav(_) => ROOT_PARAMETER_TYPE_UAV,
        }
    }

    #[verifier::when_used_as_spec(spec_parameter_type)]
    pub fn parameter_type(&self) -> (r: i32)
        ensures
            r == self.spec_parameter_type(),
    {
        match self {
            RootParameterKind::Table(_) => ROOT_PARAMETER_TYPE_DESCRIPTOR_TABLE,
            RootParameterKind::Constants { .. } => ROOT_PARAMETER_TYPE_32BIT_CONSTANTS,
            RootParameterKind::SingleCbv(_) => ROOT_PARAMETER_TYPE_CBV,
            RootParameterKind::SingleSrv(_) => ROOT_PARAMETER_TYPE_SRV,
            RootParameterKind::SingleUav(_) => ROOT_PARAMETER_TYPE_UAV,
        }
    }
}

/// One parameter of a root signature: a native `D3D12_ROOT_PARAMETER`
/// whose tag always agrees with its payload.
#[derive(Clone, Debug, PartialEq, Eq)]
pub struct RootParameter {
    /// Native `D3D12_SHADER_VISIBILITY` value.
    pub shader_visibility: i32,
    pub kind: RootParameterKind,
}

impl RootParameter {
    /// The native `D3D12_ROOT_PARAMETER_TYPE` tag of this parameter.
    pub open spec fn spec_parameter_type(&self) -> i32 {
        self.kind.spec_parameter_type()
    }

    #[verifier::when_used_as_spec(spec_parameter_type)]
    pub fn parameter_type(&self) -> (r: i32)
        ensures
            r == self.spec_parameter_type(),
    {
        self.kind.parameter_type()
    }

    /// A descriptor table made of `ranges`, in order.
    pub fn descriptor_table(visibility: ShaderVisibility, ranges: &[DescriptorRange]) -> (r: Self)
        ensures
            r.shader_visibility == visibility.to_native(),
            r.kind matches RootParameterKind::Table(t) && t@ == ranges@,
            r.parameter_type() == ROOT_PARAMETER_TYPE_DESCRIPTOR_TABLE,
    {
        let mut table: Vec<DescriptorRange> = Vec::new();
        let mut i: usize = 0;
        while i < ranges.len()
            invariant
                i <= ranges@.len(),
                table@ == ranges@.subrange(0, i as int),
            decreases ranges@.len() - i,
        {
            table.push(ranges[i]);
            i = i + 1;
        }
        assert(table@ =~= ranges@);
        RootParameter { shader_visibility: visibility.to_native(), kind: RootParameterKind::Table(table) }
    }

    /// `num` inline 32-bit constants bound at `binding`.
    pub fn constants(visibility: ShaderVisibility, binding: Binding, num: u32) -> (r: Self)
        ensures
            r.shader_visibility == visibility.to_native(),
            r.kind == (RootParameterKind::Constants { binding, num }),
            r.parameter_type() == ROOT_PARAMETER_TYPE_32BIT_CONSTANTS,
    {
        RootParameter {
            shader_visibility: visibility.to_native(),
            kind: RootParameterKind::Constants { binding, num },
        }
    }

    /// A single view bound at `binding`, of the native kind `ty`; `None`
    /// where `ty` names no single-descriptor parameter type.
    pub fn descriptor(ty: i32, visibility: ShaderVisibility, binding: Binding) -> (r: Option<Self>)
        ensures
            r is Some <==> (ty == ROOT_PARAMETER_TYPE_CBV || ty == ROOT_PARAMETER_TYPE_SRV
                || ty == ROOT_PARAMETER_TYPE_UAV),
            r matches Some(p) ==> {
                &&& p.shader_visibility == visibility.to_native()
                &&& p.parameter_type() == ty
                &&& p.kind == (if ty == ROOT_PARAMETER_TYPE_CBV {
                    RootParameterKind::SingleCbv(binding)
                } else if ty == ROOT_PARAMETER_TYPE_SRV {
                    RootParameterKind::SingleSrv(binding)
                } else {
                    RootParameterKind::SingleUav(binding)
                })
            },
    {
        let kind = if ty == ROOT_PARAMETER_TYPE_CBV {
            RootParameterKind::SingleCbv(binding)
        } else if ty == ROOT_PARAMETER_TYPE_SRV {
            RootParameterKind::SingleSrv(binding)
        } else if ty == ROOT_PARAMETER_TYPE_UAV {
            RootParameterKind::SingleUav(binding)
        } else {
            return None;
        };
        Some(RootParameter { shader_visibility: visibility.to_native(), kind })
    }

    /// A single constant-buffer view bound at `binding`.
    pub fn cbv_descriptor(visibility: ShaderVisibility, binding: Binding) -> (r: Self)
        ensures
            r.shader_visibility == visibility.to_native(),
            r.kind == RootParameterKind::SingleCbv(binding),
            r.parameter_type() == ROOT_PARAMETER_TYPE_CBV,
    {
        RootParameter { shader_visibility: visibility.to_native(), kind: RootParameterKind::SingleCbv(binding) }
    }

    /// A single shader-resource view bound at `binding`.
    pub fn srv_descriptor(visibility: ShaderVisibility, binding: Binding) -> (r: Self)
        ensures
            r.shader_visibility == visibility.to_native(),
            r.kind == RootParameterKind::SingleSrv(binding),
            r.parameter_type() == ROOT_PARAMETER_TYPE_SRV,
    {
        RootParameter { shader_visibility: visibility.to_native(), kind: RootParameterKind::SingleSrv(binding) }
    }

    /// A single unordered-access view bound at `binding`.
    pub fn uav_descriptor(visibility: ShaderVisibility, binding: Binding) -> (r: Self)
        ensures
            r.shader_visibility == visibility.to_native(),
            r.kind == RootParameterKind::SingleUav(binding),
            r.parameter_type() == ROOT_PARAMETER_TYPE_UAV,
    {
        RootParameter { shader_visibility: visibility.to_native(), kind: RootParameterKind::SingleUav(binding) }
    }
}

/// Border color of a static sampler.
#[derive(Clone, Copy, Debug, PartialEq, Eq, Structural)]
pub enum StaticBorderColor {
    TransparentBlack,
    OpaqueBlack,
    OpaqueWhite,
}

impl StaticBorderColor {
    /// The native `D3D12_STATIC_BORDER_COLOR` value.
    pub open spec fn spec_to_native(self) -> i32 {
        match self {
            StaticBorderColor::TransparentBlack => 0,
            StaticBorderColor::OpaqueBlack => 1,
            StaticBorderColor::OpaqueWhite => 2,
        }
    }

    #[verifier::when_used_as_spec(spec_to_native)]
    pub fn to_native(self) -> (r: i32)
        ensures
            r == self.spec_to_native(),
    {
        match self {
            StaticBorderColor::TransparentBlack => 0,
            StaticBorderColor::OpaqueBlack => 1,
            StaticBorderColor::OpaqueWhite => 2,
        }
    }
}

/// Distinct border colors have distinct native values.
pub proof fn lemma_static_border_color_native_injective(a: StaticBorderColor, b: StaticBorderColor)
    ensures
        a.to_native() == b.to_native() ==> a == b,
{
}

/// Version of the root-signature layout.
#[derive(Clone, Copy, Debug, PartialEq, Eq, Structural)]
pub enum RootSignatureVersion {
    V1_0,
    V1_1,
}

impl RootSignatureVersion {
    /// The native `D3D_ROOT_SIGNATURE_VERSION` value.
    pub open spec fn spec_to_native(self) -> i32 {
        match self {
            RootSignatureVersion::V1_0 => 1,
            RootSignatureVersion::V1_1 => 2,
        }
    }

    #[verifier::when_used_as_spec(spec_to_native)]
    pub fn to_native(self) -> (r: i32)
        ensures
            r == self.spec_to_native(),
    {
        match self {
            RootSignatureVersion::V1_0 => 1,
            RootSignatureVersion::V1_1 => 2,
        }
    }
}

/// Distinct root-signature versions have distinct native values.
pub proof fn lemma_root_signature_version_native_injective(a: RootSignatureVersion, b: RootSignatureVersion)
    ensures
        a.to_native() == b.to_native() ==> a == b,
{
}

/// Native `D3D12_ROOT_SIGNATURE_FLAGS` bits.
pub type RootSignatureFlags = i32;

/// Native `D3D12_RTV_DIMENSION` of a 2D texture view.
pub const RTV_DIMENSION_TEXTURE2D: i32 = 4;

/// The native `D3D12_RENDER_TARGET_VIEW_DESC` structure of a 2D texture view.
#[derive(Clone, Copy, Debug, PartialEq, Eq, Structural)]
pub struct RenderTargetViewDesc {
    pub format: u32,
    pub view_dimension: i32,
    pub mip_slice: u32,
    pub plane_slice: u32,
}

impl RenderTargetViewDesc {
    /// A view of mip `mip_slice`, plane `plane_slice` of a 2D texture.
    pub fn texture_2d(format: u32, mip_slice: u32, plane_slice: u32) -> (r: Self)
        ensures
            r.format == format,
            r.view_dimension == RTV_DIMENSION_TEXTURE2D,
            r.mip_slice == mip_slice,
            r.plane_slice == plane_slice,
    {
        RenderTargetViewDesc { format, view_dimension: RTV_DIMENSION_TEXTURE2D, mip_slice, plane_slice }
    }
}

} // verus!
