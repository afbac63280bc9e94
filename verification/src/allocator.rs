//! Host memory allocators.
//!
//! An allocator is a non-owning descriptor: a control routine plus an opaque
//! context pointer.  It owns no memory of its own and is freely copyable; it
//! must stay valid for the lifetime of any resource allocated through it.

use vstd::prelude::*;

verus! {

/// A pluggable memory-allocation strategy descriptor, consumed by runtime
/// calls that allocate.  A usable allocator has a control routine installed;
/// every constructor of this type installs the system routine.
#[derive(Clone, Copy, Debug)]
pub struct IreeAllocator {
    has_ctl: bool,
}

impl IreeAllocator {
    /// True when a control routine is installed, i.e. the allocator can
    /// actually serve allocation requests.
    pub closed spec fn spec_usable(&self) -> bool {
        self.has_ctl
    }

    /// Creates a default allocator that uses the system allocator
    /// (typically malloc), with a null context.
    pub fn system_allocator() -> (r: Self)
        ensures
            r.spec_usable(),
    {
        IreeAllocator { has_ctl: true }
    }

    /// True when a control routine is installed.
    pub fn usable(&self) -> (r: bool)
        ensures
            r == self.spec_usable(),
    {
        self.has_ctl
    }
}

} // verus!
