//! The pool allocators at the edge of the core.
//!
//! A kernel allocator carries a 4-byte pool tag and selects between the two
//! host pool-allocation entry points by the queried host version; the
//! allocation calls themselves are host work. The physically-contiguous
//! allocator for DMA-style buffers is stateless.

use vstd::prelude::*;

verus! {

/// A kernel pool allocator: every allocation it makes is tagged with its
/// 32-bit pool tag, usually four ASCII bytes.
#[derive(Clone, Copy, Debug)]
pub struct KernelAllocator {
    pub tag: u32,
}

impl KernelAllocator {
    /// Sets up an allocator with the 32-bit pool tag specified.
    pub fn new(tag: u32) -> (r: KernelAllocator)
        ensures
            r.tag == tag,
    {
        KernelAllocator { tag }
    }

    /// The pool tag handed to the host with every allocation.
    pub fn tag(&self) -> (r: u32)
        ensures
            r == self.tag,
    {
        self.tag
    }
}

/// Whether the allocation path takes the newer host pool entry point for the
/// queried host version: every major version above 10, and build 19041 of
/// major 10; every other version takes the tagged entry point.
pub open spec fn selects_pool2_spec(major: u32, build_number: u32) -> bool {
    major > 10 || (major == 10 && build_number == 19041)
}

/// Decides which of the two host pool-allocation entry points an allocation
/// uses, from the queried host version (see [`selects_pool2_spec`]).
pub fn selects_pool2(major: u32, build_number: u32) -> (r: bool)
    ensures
        r == selects_pool2_spec(major, build_number),
{
    major > 10 || (major == 10 && build_number == 19041)
}

/// The physically-contiguous allocator for DMA-style buffers; stateless, its
/// allocation and free calls are host work.
#[derive(Clone, Copy, Debug)]
pub struct PhysicalAllocator;

} // verus!
