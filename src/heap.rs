//! Heap types and heap descriptors.

use vstd::prelude::*;

verus! {

/// Kind of memory a heap is allocated from.
#[derive(Clone, Copy, Debug, PartialEq, Eq, Structural)]
pub enum HeapType {
    Default,
    Upload,
    Readback,
    Custom,
}

impl HeapType {
    /// The native `D3D12_HEAP_TYPE` value.
    pub open spec fn spec_to_native(self) -> i32 {
        match self {
            HeapType::Default => 1,
            HeapType::Upload => 2,
            HeapType::Readback => 3,
            HeapType::Custom => 4,
        }
    }

    #[verifier::when_used_as_spec(spec_to_native)]
    pub fn to_native(self) -> (r: i32)
        ensures
            r == self.spec_to_native(),
    {
        match self {
            HeapType::Default => 1,
            HeapType::Upload => 2,
            HeapType::Readback => 3,
            HeapType::Custom => 4,
        }
    }
}

/// Distinct heap types have distinct native values.
pub proof fn lemma_heap_type_native_injective(a: HeapType, b: HeapType)
    ensures
        a.to_native() == b.to_native() ==> a == b,
{
}

/// CPU page property of a custom heap.
#[derive(Clone, Copy, Debug, PartialEq, Eq, Structural)]
pub enum CpuPageProperty {
    Unknown,
    NotAvailable,
    WriteCombine,
    WriteBack,
}

impl CpuPageProperty {
    /// The native `D3D12_CPU_PAGE_PROPERTY` value.
    pub open spec fn spec_to_native(self) -> i32 {
        match self {
            CpuPageProperty::Unknown => 0,
            CpuPageProperty::NotAvailable => 1,
            CpuPageProperty::WriteCombine => 2,
            CpuPageProperty::WriteBack => 3,
        }
    }

    #[verifier::when_used_as_spec(spec_to_native)]
    pub fn to_native(self) -> (r: i32)
        ensures
            r == self.spec_to_native(),
    {
        match self {
            CpuPageProperty::Unknown => 0,
            CpuPageProperty::NotAvailable => 1,
            CpuPageProperty::WriteCombine => 2,
            CpuPageProperty::WriteBack => 3,
        }
    }
}

/// Distinct CPU page properties have distinct native values.
pub proof fn lemma_cpu_page_property_native_injective(a: CpuPageProperty, b: CpuPageProperty)
    ensures
        a.to_native() == b.to_native() ==> a == b,
{
}

/// Memory pool preferred by a custom heap.
#[derive(Clone, Copy, Debug, PartialEq, Eq, Structural)]
pub enum MemoryPool {
    Unknown,
    L0,
    L1,
}

impl MemoryPool {
    /// The native `D3D12_MEMORY_POOL` value.
    pub open spec fn spec_to_native(self) -> i32 {
        match self {
            MemoryPool::Unknown => 0,
            MemoryPool::L0 => 1,
            MemoryPool::L1 => 2,
        }
    }

    #[verifier::when_used_as_spec(spec_to_native)]
    pub fn to_native(self) -> (r: i32)
        ensures
            r == self.spec_to_native(),
    {
        match self {
            MemoryPool::Unknown => 0,
            MemoryPool::L0 => 1,
            MemoryPool::L1 => 2,
        }
    }
}

impl Default for MemoryPool {
    fn default() -> (r: Self)
        ensures
            r == MemoryPool::Unknown,
    {
        MemoryPool::Unknown
    }
}

/// Distinct memory pools have distinct native values.
pub proof fn lemma_memory_pool_native_injective(a: MemoryPool, b: MemoryPool)
    ensures
        a.to_native() == b.to_native() ==> a == b,
{
}

/// Native `D3D12_HEAP_FLAGS` bits.
pub type HeapFlags = i32;

/// The native `D3D12_HEAP_PROPERTIES` structure, field for field.
#[derive(Clone, Copy, Debug, PartialEq, Eq, Structural)]
pub struct HeapProperties {
    pub heap_type: i32,
    pub cpu_page_property: i32,
    pub memory_pool_preference: i32,
    pub creation_node_mask: u32,
    pub visible_node_mask: u32,
}

impl HeapProperties {
    /// The native properties of a heap of `heap_type`.
    pub fn new(
        heap_type: HeapType,
        cpu_page_property: CpuPageProperty,
        memory_pool_preference: MemoryPool,
        creation_node_mask: u32,
        visible_node_mask: u32,
    ) -> (r: Self)
        ensures
            r.heap_type == heap_type.to_native(),
            r.cpu_page_property == cpu_page_property.to_native(),
            r.memory_pool_preference == memory_pool_preference.to_native(),
            r.creation_node_mask == creation_node_mask,
            r.visible_node_mask == visible_node_mask,
    {
        HeapProperties {
            heap_type: heap_type.to_native(),
            cpu_page_property: cpu_page_property.to_native(),
            memory_pool_preference: memory_pool_preference.to_native(),
            creation_node_mask,
            visible_node_mask,
        }
    }
}

/// The native `D3D12_HEAP_DESC` structure, field for field.
#[derive(Clone, Copy, Debug, PartialEq, Eq, Structural)]
pub struct HeapDesc {
    pub size_in_bytes: u64,
    pub properties: HeapProperties,
    pub alignment: u64,
    pub flags: HeapFlags,
}

impl HeapDesc {
    /// The native description of a heap of `size_in_bytes` bytes.
    pub fn new(size_in_bytes: u64, properties: HeapProperties, alignment: u64, flags: HeapFlags) -> (r: Self)
        ensures
            r.size_in_bytes == size_in_bytes,
            r.properties == properties,
            r.alignment == alignment,
            r.flags == flags,
    {
        HeapDesc { size_in_bytes, properties, alignment, flags }
    }
}

} // verus!
