//! Process introspection primitives: acquiring a handle to a running process,
//! enumerating the modules captured by a point-in-time snapshot, and walking
//! the process's virtual address space region by region.
//!
//! The OS itself is an opaque foreign interface. Every decision this library
//! makes — the privilege-fallback policy when opening a process, the
//! close-exactly-once discipline for handles, and the two first/next
//! enumeration state machines — is verified here over plain values. A thin
//! unverified driver performs the actual OS calls and feeds their outcomes
//! back into these state machines.

pub mod flags;
pub mod handle;
pub mod memory;
pub mod module;
