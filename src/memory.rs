//! Choice of a device memory type for the particle buffer.
use vstd::prelude::*;
use crate::error::SetupError;
use crate::layout::{buffer_size, RECORD_SIZE};

verus! {

/// The largest number of memory types a physical device reports.
pub const MAX_MEMORY_TYPES: usize = 32;

/// Property flags of a memory type: host-visible.
pub const MEMORY_HOST_VISIBLE: u32 = 0x2;

/// Property flags of a memory type: host-coherent.
pub const MEMORY_HOST_COHERENT: u32 = 0x4;

/// The memory types of a physical device, as their raw property flags,
/// in the order the device reports them.
pub struct MemoryTypeTable {
    pub property_flags: Vec<u32>,
}

impl MemoryTypeTable {
    pub open spec fn wf(&self) -> bool {
        self.property_flags@.len() <= MAX_MEMORY_TYPES
    }
}

/// Memory type `i` is allowed by `type_filter` and has every flag of `properties`.
pub open spec fn memory_type_fits(type_filter: u32, properties: u32, flags: Seq<u32>, i: int) -> bool {
    &&& 0 <= i < flags.len()
    &&& i < 32
    &&& type_filter & (1u32 << (i as u32)) != 0
    &&& flags[i] & properties == properties
}

/// The index of the first memory type that is allowed by `type_filter`
/// (bit `i` set for type `i`) and has all flags of `properties`.
pub fn find_memory_type(type_filter: u32, properties: u32, table: &MemoryTypeTable) -> (r: Option<u32>)
    requires
        table.wf(),
    ensures
        match r {
            Some(i) => memory_type_fits(type_filter, properties, table.property_flags@, i as int)
                && forall|j: int| 0 <= j < i ==> !memory_type_fits(type_filter, properties, table.property_flags@, j),
            None => forall|j: int| !memory_type_fits(type_filter, properties, table.property_flags@, j),
        },
{
    let n = table.property_flags.len();
    let mut i: usize = 0;
    while i < n
        invariant
            n == table.property_flags@.len(),
            n <= MAX_MEMORY_TYPES,
            i <= n,
            forall|j: int| 0 <= j < i ==> !memory_type_fits(type_filter, properties, table.property_flags@, j),
        decreases n - i,
    {
        let bit = 1u32 << (i as u32);
        if type_filter & bit != 0 && table.property_flags[i] & properties == properties {
            return Some(i as u32);
        }
        i = i + 1;
    }
    None
}

/// How the particle buffer is allocated.
#[derive(Debug, Clone, Copy, PartialEq, Eq, Structural)]
pub struct ParticleBufferPlan {
    /// Size in bytes of the buffer: all records, tightly packed.
    pub size: u64,
    /// Index of the memory type the buffer's memory is taken from.
    pub memory_type: u32,
}

/// The flags the particle buffer's memory must have, so that the host can
/// write the initial records without an explicit flush.
pub open spec fn particle_memory_flags() -> u32 {
    MEMORY_HOST_VISIBLE | MEMORY_HOST_COHERENT
}

/// The allocation of a buffer for `count` records, given the memory types the
/// buffer allows (`type_filter`) and the device's memory types. There is no
/// fallback: without a host-visible, coherent type the plan fails.
pub fn plan_particle_buffer(count: u32, type_filter: u32, table: &MemoryTypeTable) -> (r: Result<ParticleBufferPlan, SetupError>)
    requires
        table.wf(),
    ensures
        match r {
            Ok(p) => {
                &&& p.size == count * RECORD_SIZE
                &&& memory_type_fits(type_filter, particle_memory_flags(), table.property_flags@, p.memory_type as int)
                &&& forall|j: int| 0 <= j < p.memory_type ==> !memory_type_fits(type_filter, particle_memory_flags(), table.property_flags@, j)
            },
            Err(e) => {
                &&& e == SetupError::NoMemoryType
                &&& forall|j: int| !memory_type_fits(type_filter, particle_memory_flags(), table.property_flags@, j)
            },
        },
{
    let size = buffer_size(count);
    match find_memory_type(type_filter, MEMORY_HOST_VISIBLE | MEMORY_HOST_COHERENT, table) {
        Some(i) => Ok(ParticleBufferPlan { size, memory_type: i }),
        None => Err(SetupError::NoMemoryType),
    }
}

} // verus!
