//! Command-list types, indirect arguments and resource barriers.

use vstd::prelude::*;

use crate::{GpuAddress, RootIndex};

verus! {

/// Kind of work a command list records.
#[derive(Clone, Copy, Debug, PartialEq, Eq, Structural)]
pub enum CmdListType {
    Direct,
    Bundle,
    Compute,
    Copy,
}

impl CmdListType {
    /// The native `D3D12_COMMAND_LIST_TYPE` value.
    pub open spec fn spec_to_native(self) -> i32 {
        match self {
            CmdListType::Direct => 0,
            CmdListType::Bundle => 1,
            CmdListType::Compute => 2,
            CmdListType::Copy => 3,
        }
    }

    #[verifier::when_used_as_spec(spec_to_native)]
    pub fn to_native(self) -> (r: i32)
        ensures
            r == self.spec_to_native(),
    {
        match self {
            CmdListType::Direct => 0,
            CmdListType::Bundle => 1,
            CmdListType::Compute => 2,
            CmdListType::Copy => 3,
        }
    }
}

/// Distinct command-list types have distinct native values.
pub proof fn lemma_cmd_list_type_native_injective(a: CmdListType, b: CmdListType)
    ensures
        a.to_native() == b.to_native() ==> a == b,
{
}

/// Native `D3D12_CLEAR_FLAGS` bits.
pub type ClearFlags = i32;

/// One argument of an indirect command: the native
/// `D3D12_INDIRECT_ARGUMENT_DESC` with its tag and payload kept together.
#[derive(Clone, Copy, Debug, PartialEq, Eq, Structural)]
pub enum IndirectArgument {
    Draw,
    DrawIndexed,
    Dispatch,
    VertexBuffer { slot: u32 },
    Constant { root_index: RootIndex, dest_offset_words: u32, count: u32 },
    ConstantBufferView { root_index: RootIndex },
    ShaderResourceView { root_index: RootIndex },
    UnorderedAccessView { root_index: RootIndex },
}

impl IndirectArgument {
    /// The native `D3D12_INDIRECT_ARGUMENT_TYPE` tag of this argument.
    pub open spec fn spec_argument_type(self) -> i32 {
        match self {
            IndirectArgument::Draw => 0,
            IndirectArgument::DrawIndexed => 1,
            IndirectArgument::Dispatch => 2,
            IndirectArgument::VertexBuffer { .. } => 3,
            IndirectArgument::Constant { .. } => 5,
            IndirectArgument::ConstantBufferView { .. } => 6,
            IndirectArgument::ShaderResourceView { .. } => 7,
            IndirectArgument::UnorderedAccessView { .. } => 8,
        }
    }

    #[verifier::when_used_as_spec(spec_argument_type)]
    pub fn argument_type(self) -> (r: i32)
        ensures
            r == self.spec_argument_type(),
    {
        match self {
            IndirectArgument::Draw => 0,
            IndirectArgument::DrawIndexed => 1,
            IndirectArgument::Dispatch => 2,
            IndirectArgument::VertexBuffer { .. } => 3,
            IndirectArgument::Constant { .. } => 5,
            IndirectArgument::ConstantBufferView { .. } => 6,
            IndirectArgument::ShaderResourceView { .. } => 7,
            IndirectArgument::UnorderedAccessView { .. } => 8,
        }
    }

    /// Argument of an indirect draw.
    pub fn draw() -> (r: Self)
        ensures
            r == IndirectArgument::Draw,
            r.argument_type() == 0,
    {
        IndirectArgument::Draw
    }

    /// Argument of an indirect indexed draw.
    pub fn draw_indexed() -> (r: Self)
        ensures
            r == IndirectArgument::DrawIndexed,
            r.argument_type() == 1,
    {
        IndirectArgument::DrawIndexed
    }

    /// Argument of an indirect dispatch.
    pub fn dispatch() -> (r: Self)
        ensures
            r == IndirectArgument::Dispatch,
            r.argument_type() == 2,
    {
        IndirectArgument::Dispatch
    }

    /// Argument that sets the vertex buffer of `slot`.
    pub fn vertex_buffer(slot: u32) -> (r: Self)
        ensures
            r == (IndirectArgument::VertexBuffer { slot }),
            r.argument_type() == 3,
    {
        IndirectArgument::VertexBuffer { slot }
    }

    /// Argument that sets `count` root constants of `root_index`, from word
    /// `dest_offset_words` on.
    pub fn constant(root_index: RootIndex, dest_offset_words: u32, count: u32) -> (r: Self)
        ensures
            r == (IndirectArgument::Constant { root_index, dest_offset_words, count }),
            r.argument_type() == 5,
    {
        IndirectArgument::Constant { root_index, dest_offset_words, count }
    }

    /// Argument that sets the constant-buffer view of `root_index`.
    pub fn constant_buffer_view(root_index: RootIndex) -> (r: Self)
        ensures
            r == (IndirectArgument::ConstantBufferView { root_index }),
            r.argument_type() == 6,
    {
        IndirectArgument::ConstantBufferView { root_index }
    }

    /// Argument that sets the shader-resource view of `root_index`.
    pub fn shader_resource_view(root_index: RootIndex) -> (r: Self)
        ensures
            r == (IndirectArgument::ShaderResourceView { root_index }),
            r.argument_type() == 7,
    {
        IndirectArgument::ShaderResourceView { root_index }
    }

    /// Argument that sets the unordered-access view of `root_index`.
    pub fn unordered_access_view(root_index: RootIndex) -> (r: Self)
        ensures
            r == (IndirectArgument::UnorderedAccessView { root_index }),
            r.argument_type() == 8,
    {
        IndirectArgument::UnorderedAccessView { root_index }
    }
}

/// The native `D3D12_COMMAND_SIGNATURE_DESC` structure, with the
/// argument descriptions it points to.
#[derive(Clone, Debug, PartialEq, Eq)]
pub struct CommandSignatureDesc {
    pub byte_stride: u32,
    pub num_argument_descs: u32,
    pub arguments: Vec<IndirectArgument>,
    pub node_mask: u32,
}

impl CommandSignatureDesc {
    /// A signature of the given arguments, in order; the caller makes sure
    /// their number fits in 32 bits.
    pub fn new(arguments: &[IndirectArgument], stride: u32, node_mask: u32) -> (r: Self)
        requires
            arguments@.len() <= u32::MAX,
        ensures
            r.byte_stride == stride,
            r.num_argument_descs == arguments@.len(),
            r.arguments@ == arguments@,
            r.node_mask == node_mask,
    {
        let mut args: Vec<IndirectArgument> = Vec::new();
        let mut i: usize = 0;
        while i < arguments.len()
            invariant
                i <= arguments@.len(),
                args@ == arguments@.subrange(0, i as int),
            decreases arguments@.len() - i,
        {
            args.push(arguments[i]);
            i = i + 1;
        }
        assert(args@ =~= arguments@);
        CommandSignatureDesc {
            byte_stride: stride,
            num_argument_descs: arguments.len() as u32,
            arguments: args,
            node_mask,
        }
    }
}

/// The native `D3D12_INDEX_BUFFER_VIEW` structure, field for field.
#[derive(Clone, Copy, Debug, PartialEq, Eq, Structural)]
pub struct IndexBufferView {
    pub buffer_location: GpuAddress,
    pub size_in_bytes: u32,
    pub format: u32,
}

impl IndexBufferView {
    /// A view of `size` bytes of indices of `format` at `gpu_address`.
    pub fn new(gpu_address: GpuAddress, size: u32, format: u32) -> (r: Self)
        ensures
            r.buffer_location == gpu_address,
            r.size_in_bytes == size,
            r.format == format,
    {
        IndexBufferView { buffer_location: gpu_address, size_in_bytes: size, format }
    }
}

/// Native `D3D12_RESOURCE_BARRIER_TYPE` of a transition barrier.
pub const RESOURCE_BARRIER_TYPE_TRANSITION: i32 = 0;

/// Native `D3D12_RESOURCE_STATES` bits.
pub type ResourceStates = i32;

/// Native `D3D12_RESOURCE_BARRIER_FLAGS` bits.
pub type ResourceBarrierFlags = i32;

/// The native `D3D12_RESOURCE_TRANSITION_BARRIER` structure; `R` is the
/// handle of the resource that changes state.
#[derive(Clone, Debug, PartialEq, Eq)]
pub struct TransitionBarrier<R> {
    pub resource: R,
    pub subresource: u32,
    pub state_before: ResourceStates,
    pub state_after: ResourceStates,
}

/// The native `D3D12_RESOURCE_BARRIER` structure of a transition barrier.
#[derive(Clone, Debug, PartialEq, Eq)]
pub struct ResourceBarrier<R> {
    pub barrier_type: i32,
    pub flags: ResourceBarrierFlags,
    pub transition: TransitionBarrier<R>,
}

impl<R> ResourceBarrier<R> {
    /// A barrier that moves `subresource` of `resource` from `state_before`
    /// to `state_after`; it holds the very handle that was passed in.
    pub fn transition(
        resource: R,
        subresource: u32,
        state_before: ResourceStates,
        state_after: ResourceStates,
        flags: ResourceBarrierFlags,
    ) -> (r: Self)
        ensures
            r.barrier_type == RESOURCE_BARRIER_TYPE_TRANSITION,
            r.flags == flags,
            r.transition.resource == resource,
            r.transition.subresource == subresource,
            r.transition.state_before == state_before,
            r.transition.state_after == state_after,
    {
        ResourceBarrier {
            barrier_type: RESOURCE_BARRIER_TYPE_TRANSITION,
            flags,
            transition: TransitionBarrier { resource, subresource, state_before, state_after },
        }
    }
}

} // verus!
