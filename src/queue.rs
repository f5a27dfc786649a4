//! Command queues.

use vstd::prelude::*;

use crate::CmdListType;

verus! {

/// Scheduling priority of a command queue.
#[derive(Clone, Copy, Debug, PartialEq, Eq, Structural)]
pub enum Priority {
    Normal,
    High,
    GlobalRealtime,
}

impl Priority {
    /// The native `D3D12_COMMAND_QUEUE_PRIORITY` value.
    pub open spec fn spec_to_native(self) -> i32 {
        match self {
            Priority::Normal => 0,
            Priority::High => 100,
            Priority::GlobalRealtime => 10000,
        }
    }

    #[verifier::when_used_as_spec(spec_to_native)]
    pub fn to_native(self) -> (r: i32)
        ensures
            r == self.spec_to_native(),
    {
        match self {
            Priority::Normal => 0,
            Priority::High => 100,
            Priority::GlobalRealtime => 10000,
        }
    }
}

/// Distinct priorities have distinct native values.
pub proof fn lemma_priority_native_injective(a: Priority, b: Priority)
    ensures
        a.to_native() == b.to_native() ==> a == b,
{
}

/// Native `D3D12_COMMAND_QUEUE_FLAGS` bits.
pub type CommandQueueFlags = i32;

/// The native `D3D12_COMMAND_QUEUE_DESC` structure, field for field.
#[derive(Clone, Copy, Debug, PartialEq, Eq, Structural)]
pub struct CommandQueueDesc {
    pub list_type: i32,
    pub priority: i32,
    pub flags: CommandQueueFlags,
    pub node_mask: u32,
}

impl CommandQueueDesc {
    /// The native description of a queue of `list_type` command lists.
    pub fn new(list_type: CmdListType, priority: Priority, flags: CommandQueueFlags, node_mask: u32) -> (r: Self)
        ensures
            r.list_type == list_type.to_native(),
            r.priority == priority.to_native(),
            r.flags == flags,
            r.node_mask == node_mask,
    {
        CommandQueueDesc { list_type: list_type.to_native(), priority: priority.to_native(), flags, node_mask }
    }
}

} // verus!
