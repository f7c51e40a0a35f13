//! GPU memory allocation policy.
//!
//! The backing sub-allocator is shared and serialized by the surrounding
//! program; this module decides the allocation scheme per resource kind,
//! shapes each allocation request, and keeps the logical ownership
//! ledger: an allocation is owned by exactly one resource and is
//! consumed by deallocation whether or not the backend reports success.

use vstd::prelude::*;

verus! {

/// Where the memory must live, by intended traffic direction.
#[derive(Clone, Copy, PartialEq, Eq, Structural, Debug)]
pub enum MemoryLocation {
    /// Device-local memory the host never touches.
    GpuOnly,
    /// Host-visible memory for uploads.
    CpuToGpu,
    /// Host-visible memory for readback.
    GpuToCpu,
}

/// The resource a piece of memory backs; handles are the raw API handle
/// values. `Unbound` means the allocation is not tied to one resource.
#[derive(Clone, Copy, PartialEq, Eq, Structural, Debug)]
pub enum AllocationResource {
    Image(u64),
    Buffer(u64),
    Unbound,
}

/// How the allocator places the memory.
#[derive(Clone, Copy, PartialEq, Eq, Structural, Debug)]
pub enum AllocationScheme {
    /// A dedicated block for one image.
    DedicatedImage(u64),
    /// A dedicated block for one buffer.
    DedicatedBuffer(u64),
    /// Sub-allocated from a shared pool at the allocator's discretion.
    GpuAllocatorManaged,
}

/// The scheme each resource kind gets: images and buffers always receive
/// dedicated blocks; anything else is pooled.
pub open spec fn spec_scheme_for(resource: AllocationResource) -> AllocationScheme {
    match resource {
        AllocationResource::Image(handle) => AllocationScheme::DedicatedImage(handle),
        AllocationResource::Buffer(handle) => AllocationScheme::DedicatedBuffer(handle),
        AllocationResource::Unbound => AllocationScheme::GpuAllocatorManaged,
    }
}

/// Exec mirror of `spec_scheme_for`.
pub fn scheme_for(resource: AllocationResource) -> (r: AllocationScheme)
    ensures
        r == spec_scheme_for(resource),
{
    match resource {
        AllocationResource::Image(handle) => AllocationScheme::DedicatedImage(handle),
        AllocationResource::Buffer(handle) => AllocationScheme::DedicatedBuffer(handle),
        AllocationResource::Unbound => AllocationScheme::GpuAllocatorManaged,
    }
}

/// Memory requirements the API reports for a resource.
#[derive(Clone, Copy, PartialEq, Eq, Structural, Debug)]
pub struct MemoryRequirements {
    pub size: u64,
    pub alignment: u64,
    pub memory_type_bits: u32,
}

/// One fully shaped request handed to the backing allocator.
#[derive(Clone, Copy, PartialEq, Eq, Structural, Debug)]
pub struct AllocationRequest {
    pub requirements: MemoryRequirements,
    pub location: MemoryLocation,
    pub linear: bool,
    pub scheme: AllocationScheme,
}

/// Shapes an allocation request: the scheme follows the resource kind,
/// everything else passes through unchanged.
pub fn alloc_memory(
    requirements: MemoryRequirements,
    location: MemoryLocation,
    linear: bool,
    resource: AllocationResource,
) -> (r: AllocationRequest)
    ensures
        r.requirements == requirements,
        r.location == location,
        r.linear == linear,
        r.scheme == spec_scheme_for(resource),
{
    AllocationRequest { requirements, location, linear, scheme: scheme_for(resource) }
}

/// One granted allocation: an identifier the ledger tracks, plus the
/// placement the allocator chose.
#[derive(Clone, Copy, PartialEq, Eq, Structural, Debug)]
pub struct Allocation {
    pub id: u64,
    pub offset: u64,
    pub size: u64,
}

/// The set of allocations currently owned by live resources, by
/// identifier. Deallocation is best effort: the backend's verdict never
/// changes the ledger, so ownership can never leak or double-free.
pub struct AllocationLedger {
    live: Vec<u64>,
}

impl AllocationLedger {
    /// Identifiers are tracked at most once.
    pub closed spec fn wf(self) -> bool {
        nodup(self.live@)
    }

    /// Is this identifier currently owned?
    pub closed spec fn spec_is_live(self, id: u64) -> bool {
        self.live@.contains(id)
    }

    /// How many allocations are currently owned.
    pub closed spec fn spec_live_count(self) -> nat {
        self.live@.len()
    }

    /// An empty ledger: nothing is owned.
    pub fn new() -> (r: AllocationLedger)
        ensures
            r.wf(),
            r.spec_live_count() == 0,
            forall|id: u64| !r.spec_is_live(id),
    {
        AllocationLedger { live: Vec::new() }
    }

    /// Exec mirror of `spec_is_live`.
    pub fn is_live(&self, id: u64) -> (r: bool)
        ensures
            r == self.spec_is_live(id),
    {
        let mut i: usize = 0;
        while i < self.live.len()
            invariant
                0 <= i <= self.live@.len(),
                forall|j: int| 0 <= j < i ==> self.live@[j] != id,
            decreases self.live.len() - i,
        {
            if self.live[i] == id {
                return true;
            }
            i += 1;
        }
        false
    }

    /// Records a fresh allocation as owned.
    pub fn record_alloc(&mut self, allocation: &Allocation)
        requires
            old(self).wf(),
            !old(self).spec_is_live(allocation.id),
        ensures
            final(self).wf(),
            final(self).spec_is_live(allocation.id),
            forall|other: u64|
                other != allocation.id ==> final(self).spec_is_live(other) == old(
                    self,
                ).spec_is_live(other),
            final(self).spec_live_count() == old(self).spec_live_count() + 1,
    {
        self.live.push(allocation.id);
        proof {
            let new = self.live@;
            let prev = old(self).live@;
            assert(new.last() == allocation.id);
            assert(new.contains(allocation.id));
            assert(forall|k: int| 0 <= k < prev.len() ==> new[k] == prev[k]);
            assert forall|other: u64| other != allocation.id implies new.contains(other)
                == prev.contains(other) by {
                if new.contains(other) {
                    let k = choose|k: int| 0 <= k < new.len() && new[k] == other;
                    assert(prev[k] == other);
                }
                if prev.contains(other) {
                    let k = choose|k: int| 0 <= k < prev.len() && prev[k] == other;
                    assert(new[k] == other);
                }
            }
            // The new identifier is fresh, so appending it keeps the
            // ledger duplicate free.
            assert forall|i: int, j: int| 0 <= i < j < new.len() implies new[i] != new[j] by {
                if j == new.len() - 1 {
                    assert(prev[i] != allocation.id);
                }
            }
        }
    }

    /// Consumes an allocation. The allocation is taken by value and its
    /// ownership ends here whatever `backend_freed` says: a failure to
    /// free is swallowed, never raised, and never leaves the identifier
    /// owned.
    pub fn dealloc(&mut self, allocation: Allocation, backend_freed: bool)
        requires
            old(self).wf(),
        ensures
            final(self).wf(),
            !final(self).spec_is_live(allocation.id),
            forall|other: u64|
                other != allocation.id ==> final(self).spec_is_live(other) == old(
                    self,
                ).spec_is_live(other),
    {
        let mut kept: Vec<u64> = Vec::new();
        let mut i: usize = 0;
        while i < self.live.len()
            invariant
                0 <= i <= self.live@.len(),
                old(self).wf(),
                self.live@ == old(self).live@,
                nodup(kept@),
                forall|x: u64|
                    #[trigger] kept@.contains(x) ==> x != allocation.id && exists|j: int|
                        0 <= j < i && self.live@[j] == x,
                forall|j: int|
                    0 <= j < i && self.live@[j] != allocation.id ==> kept@.contains(
                        #[trigger] self.live@[j],
                    ),
            decreases self.live.len() - i,
        {
            let v = self.live[i];
            if v != allocation.id {
                proof {
                    // The ledger has no duplicates, so an entry not yet
                    // visited cannot already stand in `kept`.
                    assert(!kept@.contains(v));
                    assert forall|x: u64| #[trigger] kept@.push(v).contains(x) implies kept@.contains(
                        x,
                    ) || x == v by {
                        let k = choose|k: int| 0 <= k < kept@.push(v).len() && kept@.push(v)[k] == x;
                        if k < kept@.len() {
                            assert(kept@[k] == x);
                        }
                    }
                    assert(forall|k: int| 0 <= k < kept@.len() ==> kept@.push(v)[k] == kept@[k]);
                }
                kept.push(v);
                proof {
                    assert(kept@.contains(self.live@[i as int])) by {
                        assert(kept@.last() == v);
                    }
                }
            }
            i += 1;
        }
        self.live = kept;
        proof {
            assert forall|other: u64|
                other != allocation.id && old(self).live@.contains(other) implies self.live@.contains(
                other,
            ) by {
                let j = choose|j: int|
                    0 <= j < old(self).live@.len() && old(self).live@[j] == other;
            }
        }
    }
}

/// No value occurs twice in the sequence.
pub open spec fn nodup(s: Seq<u64>) -> bool {
    forall|i: int, j: int| 0 <= i < j < s.len() ==> s[i] != s[j]
}

} // verus!
