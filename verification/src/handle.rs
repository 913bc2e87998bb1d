//! Process handles and snapshot handles, with the decisions that govern
//! their lifecycle.
//!
//! The OS hands out opaque handle values; this library models one as a plain
//! machine word in which `0` and `-1` are the distinguished invalid
//! sentinels. Everything the subsystem decides — which access rights to
//! request, when the privilege fallback applies, when an acquisition has
//! failed, when a close must be issued and that it is issued at most once —
//! is a verified function here from plain values to plain values. An
//! unverified driver performs the OS calls themselves and feeds each
//! outcome back in as an [`OpenOutcome`].

use vstd::prelude::*;
use crate::flags::HandleSnapshotFlag;

verus! {

/// Whether a raw handle value is usable: anything but the two invalid
/// sentinels the OS reserves.
pub open spec fn valid_raw(raw: isize) -> bool {
    raw != 0 && raw != -1
}

/// What one attempt to open an OS resource came back with.
#[derive(Clone, Copy, Debug, PartialEq, Eq, Structural)]
pub enum OpenOutcome {
    /// The OS returned a handle value (which may still be an invalid
    /// sentinel; the policy checks).
    Opened { raw: isize },
    /// The OS reported failure.
    Failed,
}

/// An outcome is usable when the OS succeeded and returned a valid handle
/// value.
pub open spec fn outcome_usable(o: OpenOutcome) -> bool {
    o matches OpenOutcome::Opened { raw } && valid_raw(raw)
}

/// The failure kinds this subsystem surfaces.
#[derive(Clone, Copy, Debug, PartialEq, Eq, Structural)]
pub enum HandleError {
    /// The process could not be opened under either the maximal or the
    /// reduced permission request.
    AcquisitionFailure,
    /// The OS declined to create a snapshot.
    SnapshotCreationFailure,
}

/// The maximal permission request, tried first when acquiring a process.
pub const MAXIMAL_ACCESS_RIGHTS: u32 = 0xFFFF;
/// The reduced fallback request: query-information plus read-vm, enough for
/// memory queries and snapshot creation.
pub const REDUCED_ACCESS_RIGHTS: u32 = 0x30;

/// Owns exactly one OS process handle together with the identifier of the
/// process it refers to. The handle value is either valid or an invalid
/// sentinel; a released handle keeps its identifier but holds the sentinel,
/// so a second release has nothing to close.
#[derive(Clone, Copy, Debug, PartialEq, Eq, Structural)]
pub struct Handle {
    /// The raw OS handle value.
    pub raw: isize,
    /// The identifier of the process the handle refers to.
    pub process_id: u32,
}

/// Releasing a handle keeps its identifier and leaves the invalid sentinel
/// in place of the handle value.
pub open spec fn spec_release(h: Handle) -> Handle {
    Handle { raw: 0, process_id: h.process_id }
}

/// Whether destroying this handle must issue an OS close: only while the
/// handle value is valid.
pub open spec fn close_needed(h: Handle) -> bool {
    valid_raw(h.raw)
}

/// The result of interpreting the first open attempt: either the handle, or
/// the instruction to retry once with the given reduced access rights.
#[derive(Clone, Copy, Debug, PartialEq, Eq, Structural)]
pub enum AcquireStep {
    /// The maximal request succeeded.
    Acquired(Handle),
    /// Retry once, requesting these access rights.
    Fallback { access_rights: u32 },
}

/// Interprets the outcome of the first, maximal-permission open attempt on
/// `process_id`. A usable outcome yields the handle at once; an OS failure
/// or an invalid handle value falls back to one reduced-permission retry.
pub fn acquire_first(process_id: u32, outcome: OpenOutcome) -> (r: AcquireStep)
    ensures
        outcome_usable(outcome) ==> (r == AcquireStep::Acquired(Handle { raw: outcome->raw, process_id })),
        !outcome_usable(outcome) ==> (r == AcquireStep::Fallback { access_rights: REDUCED_ACCESS_RIGHTS }),
{
    match outcome {
        OpenOutcome::Opened { raw } => {
            if raw != 0 && raw != -1 {
                AcquireStep::Acquired(Handle { raw, process_id })
            } else {
                AcquireStep::Fallback { access_rights: REDUCED_ACCESS_RIGHTS }
            }
        },
        OpenOutcome::Failed => AcquireStep::Fallback { access_rights: REDUCED_ACCESS_RIGHTS },
    }
}

/// Interprets the outcome of the reduced-permission retry on `process_id`.
/// A usable outcome yields the handle; anything else is the single generic
/// acquisition failure, and no resource is left behind (an unusable outcome
/// never needs a close — see `lemma_unusable_outcome_needs_no_close`).
pub fn acquire_fallback(process_id: u32, outcome: OpenOutcome) -> (r: Result<Handle, HandleError>)
    ensures
        outcome_usable(outcome) ==> (r == Ok::<Handle, HandleError>(Handle { raw: outcome->raw, process_id })),
        !outcome_usable(outcome) ==> r == Err::<Handle, HandleError>(HandleError::AcquisitionFailure),
{
    match outcome {
        OpenOutcome::Opened { raw } => {
            if raw != 0 && raw != -1 {
                Ok(Handle { raw, process_id })
            } else {
                Err(HandleError::AcquisitionFailure)
            }
        },
        OpenOutcome::Failed => Err(HandleError::AcquisitionFailure),
    }
}

impl Handle {
    /// Takes ownership of a valid raw handle value known to refer to
    /// `process_id`. The driver uses this for the calling process's own
    /// handle, which the OS always grants.
    pub fn new(raw: isize, process_id: u32) -> (r: Handle)
        requires
            valid_raw(raw),
        ensures
            r == (Handle { raw, process_id }),
    {
        Handle { raw, process_id }
    }

    /// The identifier of the process this handle refers to.
    pub fn get_process_id(&self) -> (r: u32)
        ensures
            r == self.process_id,
    {
        self.process_id
    }

    /// The raw OS handle value, for the driver to pass to OS calls.
    pub fn raw_value(&self) -> (r: isize)
        ensures
            r == self.raw,
    {
        self.raw
    }

    /// Whether the handle value is currently valid.
    pub fn is_valid(&self) -> (r: bool)
        ensures
            r == valid_raw(self.raw),
    {
        self.raw != 0 && self.raw != -1
    }

    /// Decides the destruction of this handle: tells the driver which raw
    /// value to close, if any, and leaves the handle invalid so that a
    /// second release finds nothing to close.
    pub fn release(&mut self) -> (to_close: Option<isize>)
        ensures
            *final(self) == spec_release(*old(self)),
            to_close == (if close_needed(*old(self)) { Some(old(self).raw) } else { None::<isize> }),
    {
        if self.raw != 0 && self.raw != -1 {
            let raw = self.raw;
            self.raw = 0;
            Some(raw)
        } else {
            self.raw = 0;
            None
        }
    }

    /// What the driver must hand to the OS to create a snapshot of this
    /// handle's process under the given flag set.
    pub fn snapshot_request(&self, flag: HandleSnapshotFlag) -> (r: SnapshotRequest)
        ensures
            r == (SnapshotRequest { flags: flag.bits, process_id: self.process_id }),
    {
        SnapshotRequest { flags: flag.bits(), process_id: self.process_id }
    }

    /// Interprets the outcome of the snapshot-creation call made for this
    /// handle. A usable outcome yields a snapshot that owns the new handle
    /// and carries this handle's process identifier; anything else is the
    /// generic snapshot-creation failure.
    pub fn create_snapshot(&self, outcome: OpenOutcome) -> (r: Result<HandleSnapshot, HandleError>)
        ensures
            outcome_usable(outcome) ==> (r == Ok::<HandleSnapshot, HandleError>(HandleSnapshot {
                raw: outcome->raw,
                process_id: self.process_id,
            })),
            !outcome_usable(outcome) ==> r == Err::<HandleSnapshot, HandleError>(
                HandleError::SnapshotCreationFailure,
            ),
    {
        match outcome {
            OpenOutcome::Opened { raw } => {
                if raw != 0 && raw != -1 {
                    Ok(HandleSnapshot { raw, process_id: self.process_id })
                } else {
                    Err(HandleError::SnapshotCreationFailure)
                }
            },
            OpenOutcome::Failed => Err(HandleError::SnapshotCreationFailure),
        }
    }
}

/// What the snapshot-creation OS call is given: the flag bits and the
/// target process identifier.
#[derive(Clone, Copy, Debug, PartialEq, Eq, Structural)]
pub struct SnapshotRequest {
    /// The flag bits selecting what the snapshot captures.
    pub flags: u32,
    /// The identifier of the process to capture.
    pub process_id: u32,
}

/// Owns exactly one OS snapshot handle: a distinct resource kind from a
/// process handle, which the type system keeps apart — a snapshot can never
/// be passed where a process handle is due, nor the other way round.
#[derive(Clone, Copy, Debug, PartialEq, Eq, Structural)]
pub struct HandleSnapshot {
    /// The raw OS snapshot handle value.
    pub raw: isize,
    /// The identifier of the process captured, copied from the originating
    /// handle at creation time.
    pub process_id: u32,
}

/// Releasing a snapshot keeps its identifier and leaves the invalid
/// sentinel in place of the handle value.
pub open spec fn spec_release_snapshot(s: HandleSnapshot) -> HandleSnapshot {
    HandleSnapshot { raw: 0, process_id: s.process_id }
}

/// Whether destroying this snapshot must issue an OS close.
pub open spec fn snapshot_close_needed(s: HandleSnapshot) -> bool {
    valid_raw(s.raw)
}

impl HandleSnapshot {
    /// The identifier captured at creation.
    pub fn get_process_id(&self) -> (r: u32)
        ensures
            r == self.process_id,
    {
        self.process_id
    }

    /// The raw OS snapshot handle value, for the driver to pass to the
    /// enumeration calls.
    pub fn raw_value(&self) -> (r: isize)
        ensures
            r == self.raw,
    {
        self.raw
    }

    /// Decides the destruction of this snapshot, with the same
    /// close-exactly-once discipline as [`Handle::release`].
    pub fn release(&mut self) -> (to_close: Option<isize>)
        ensures
            *final(self) == spec_release_snapshot(*old(self)),
            to_close == (if snapshot_close_needed(*old(self)) {
                Some(old(self).raw)
            } else {
                None::<isize>
            }),
    {
        if self.raw != 0 && self.raw != -1 {
            let raw = self.raw;
            self.raw = 0;
            Some(raw)
        } else {
            self.raw = 0;
            None
        }
    }
}

/// A handle, once released, never causes a double-close: the release leaves
/// a value that needs no close, and releasing again changes nothing.
pub proof fn lemma_release_idempotent(h: Handle)
    ensures
        !close_needed(spec_release(h)),
        spec_release(spec_release(h)) == spec_release(h),
{
}

/// The same close-exactly-once discipline for snapshots.
pub proof fn lemma_snapshot_release_idempotent(s: HandleSnapshot)
    ensures
        !snapshot_close_needed(spec_release_snapshot(s)),
        spec_release_snapshot(spec_release_snapshot(s)) == spec_release_snapshot(s),
{
}

/// A failed open leaves no OS resource behind: an unusable outcome's handle
/// value is invalid, so destroying a handle made of it would issue no close.
pub proof fn lemma_unusable_outcome_needs_no_close(outcome: OpenOutcome, process_id: u32)
    requires
        !outcome_usable(outcome),
    ensures
        outcome matches OpenOutcome::Opened { raw } ==> !close_needed(Handle { raw, process_id }),
{
}

} // verus!
