//! The bit-set configuration value passed at snapshot-creation time.
//!
//! A snapshot captures some combination of the target's heap list, module
//! list (32- and 64-bit), process list and thread list; the flag set selects
//! which. It is a plain value with no lifecycle of its own.

use vstd::prelude::*;

verus! {

/// The snapshot inherits into child processes.
pub const INHERIT: u32 = 0x80000000;
/// Capture the heap list of the target process.
pub const SNAP_HEAP_LIST: u32 = 0x1;
/// Capture the process list of the system.
pub const SNAP_PROCESS: u32 = 0x2;
/// Capture the thread list of the system.
pub const SNAP_THREAD: u32 = 0x4;
/// Capture the module list of the target process.
pub const SNAP_MODULE: u32 = 0x8;
/// Capture the 32-bit module list of the target process.
pub const SNAP_MODULE32: u32 = 0x10;
/// Convenience union of every category above (see `lemma_snap_all_is_union`).
pub const SNAP_ALL: u32 = 0x8000001F;

/// Selects which categories a snapshot captures: a set of bits over the
/// named constants of this module.
#[derive(Clone, Copy, Debug, PartialEq, Eq, Structural)]
pub struct HandleSnapshotFlag {
    pub bits: u32,
}

impl HandleSnapshotFlag {
    /// The empty flag set.
    pub fn empty() -> (r: Self)
        ensures
            r.bits == 0,
    {
        HandleSnapshotFlag { bits: 0 }
    }

    /// The inherit-on-fork flag.
    pub fn inherit() -> (r: Self)
        ensures
            r.bits == INHERIT,
    {
        HandleSnapshotFlag { bits: INHERIT }
    }

    /// The heap-list flag.
    pub fn snap_heap_list() -> (r: Self)
        ensures
            r.bits == SNAP_HEAP_LIST,
    {
        HandleSnapshotFlag { bits: SNAP_HEAP_LIST }
    }

    /// The process-list flag.
    pub fn snap_process() -> (r: Self)
        ensures
            r.bits == SNAP_PROCESS,
    {
        HandleSnapshotFlag { bits: SNAP_PROCESS }
    }

    /// The thread-list flag.
    pub fn snap_thread() -> (r: Self)
        ensures
            r.bits == SNAP_THREAD,
    {
        HandleSnapshotFlag { bits: SNAP_THREAD }
    }

    /// The module-list flag.
    pub fn snap_module() -> (r: Self)
        ensures
            r.bits == SNAP_MODULE,
    {
        HandleSnapshotFlag { bits: SNAP_MODULE }
    }

    /// The 32-bit module-list flag.
    pub fn snap_module32() -> (r: Self)
        ensures
            r.bits == SNAP_MODULE32,
    {
        HandleSnapshotFlag { bits: SNAP_MODULE32 }
    }

    /// The union of every category: a snapshot of everything.
    pub fn snap_all() -> (r: Self)
        ensures
            r.bits == SNAP_ALL,
    {
        HandleSnapshotFlag { bits: SNAP_ALL }
    }

    /// The raw bit pattern, as the OS call expects it.
    pub fn bits(&self) -> (r: u32)
        ensures
            r == self.bits,
    {
        self.bits
    }

    /// The union of two flag sets.
    pub fn union(self, other: Self) -> (r: Self)
        ensures
            r.bits == (self.bits | other.bits),
    {
        HandleSnapshotFlag { bits: self.bits | other.bits }
    }

    /// Whether every bit of `other` is set in `self`.
    pub fn contains(self, other: Self) -> (r: bool)
        ensures
            r == ((self.bits & other.bits) == other.bits),
    {
        (self.bits & other.bits) == other.bits
    }
}

/// The all-union flag set is exactly the union of the named categories.
pub proof fn lemma_snap_all_is_union()
    ensures
        SNAP_ALL == (INHERIT | SNAP_HEAP_LIST | SNAP_MODULE | SNAP_MODULE32 | SNAP_PROCESS | SNAP_THREAD),
{
    assert(0x8000001Fu32 == (0x80000000u32 | 0x1u32 | 0x8u32 | 0x10u32 | 0x2u32 | 0x4u32)) by (bit_vector);
}

/// The all-union flag set contains each named category.
pub proof fn lemma_snap_all_contains_each()
    ensures
        SNAP_ALL & INHERIT == INHERIT,
        SNAP_ALL & SNAP_HEAP_LIST == SNAP_HEAP_LIST,
        SNAP_ALL & SNAP_PROCESS == SNAP_PROCESS,
        SNAP_ALL & SNAP_THREAD == SNAP_THREAD,
        SNAP_ALL & SNAP_MODULE == SNAP_MODULE,
        SNAP_ALL & SNAP_MODULE32 == SNAP_MODULE32,
{
    assert(0x8000001fu32 & 0x80000000u32 == 0x80000000u32) by (bit_vector);
    assert(0x8000001fu32 & 0x1u32 == 0x1u32) by (bit_vector);
    assert(0x8000001fu32 & 0x2u32 == 0x2u32) by (bit_vector);
    assert(0x8000001fu32 & 0x4u32 == 0x4u32) by (bit_vector);
    assert(0x8000001fu32 & 0x8u32 == 0x8u32) by (bit_vector);
    assert(0x8000001fu32 & 0x10u32 == 0x10u32) by (bit_vector);
}

} // verus!
