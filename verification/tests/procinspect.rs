use procinspect::flags::{
    HandleSnapshotFlag, INHERIT, SNAP_ALL, SNAP_HEAP_LIST, SNAP_MODULE, SNAP_MODULE32,
    SNAP_PROCESS, SNAP_THREAD,
};
use procinspect::handle::{
    acquire_first, acquire_fallback, AcquireStep, Handle, HandleError, HandleSnapshot,
    OpenOutcome, MAXIMAL_ACCESS_RIGHTS, REDUCED_ACCESS_RIGHTS,
};
use procinspect::memory::MemoryBasicInformation;
use procinspect::module::{Module, ModuleIterState, ModuleQuery};

#[test]
fn flag_bit_values() {
    assert_eq!(INHERIT, 0x8000_0000);
    assert_eq!(SNAP_HEAP_LIST, 0x1);
    assert_eq!(SNAP_PROCESS, 0x2);
    assert_eq!(SNAP_THREAD, 0x4);
    assert_eq!(SNAP_MODULE, 0x8);
    assert_eq!(SNAP_MODULE32, 0x10);
    assert_eq!(
        SNAP_ALL,
        INHERIT | SNAP_HEAP_LIST | SNAP_MODULE | SNAP_MODULE32 | SNAP_PROCESS | SNAP_THREAD
    );
}

#[test]
fn flag_constructors_and_union() {
    assert_eq!(HandleSnapshotFlag::empty().bits(), 0);
    assert_eq!(HandleSnapshotFlag::inherit().bits(), INHERIT);
    assert_eq!(HandleSnapshotFlag::snap_heap_list().bits(), SNAP_HEAP_LIST);
    assert_eq!(HandleSnapshotFlag::snap_process().bits(), SNAP_PROCESS);
    assert_eq!(HandleSnapshotFlag::snap_thread().bits(), SNAP_THREAD);
    assert_eq!(HandleSnapshotFlag::snap_module().bits(), SNAP_MODULE);
    assert_eq!(HandleSnapshotFlag::snap_module32().bits(), SNAP_MODULE32);
    let both = HandleSnapshotFlag::snap_module().union(HandleSnapshotFlag::snap_module32());
    assert_eq!(both.bits(), SNAP_MODULE | SNAP_MODULE32);
    let all = HandleSnapshotFlag::snap_all();
    assert_eq!(all.bits(), SNAP_ALL);
    assert!(all.contains(HandleSnapshotFlag::inherit()));
    assert!(all.contains(HandleSnapshotFlag::snap_heap_list()));
    assert!(all.contains(HandleSnapshotFlag::snap_process()));
    assert!(all.contains(HandleSnapshotFlag::snap_thread()));
    assert!(all.contains(HandleSnapshotFlag::snap_module()));
    assert!(all.contains(HandleSnapshotFlag::snap_module32()));
    assert!(!HandleSnapshotFlag::snap_module().contains(all));
}

#[test]
fn acquire_maximal_attempt_succeeds() {
    // The caller may open the process under the maximal request: the handle
    // comes back at once, carrying the requested identifier.
    assert_eq!(MAXIMAL_ACCESS_RIGHTS, 0xFFFF);
    match acquire_first(4321, OpenOutcome::Opened { raw: 0x1C8 }) {
        AcquireStep::Acquired(h) => {
            assert_eq!(h.get_process_id(), 4321);
            assert_eq!(h.raw_value(), 0x1C8);
            assert!(h.is_valid());
        }
        AcquireStep::Fallback { .. } => panic!("maximal attempt should have been accepted"),
    }
}

#[test]
fn acquire_falls_back_on_denied_maximal_attempt() {
    // A protected target rejects the maximal request; the policy retries
    // once with the reduced query-information + read-vm request.
    match acquire_first(4321, OpenOutcome::Failed) {
        AcquireStep::Acquired(_) => panic!("a failed open cannot yield a handle"),
        AcquireStep::Fallback { access_rights } => {
            assert_eq!(access_rights, REDUCED_ACCESS_RIGHTS);
            assert_eq!(access_rights, 0x30);
        }
    }
    let r = acquire_fallback(4321, OpenOutcome::Opened { raw: 0x2AC });
    let h = r.expect("reduced attempt returned a usable handle");
    assert_eq!(h.get_process_id(), 4321);
    assert_eq!(h.raw_value(), 0x2AC);
}

#[test]
fn acquire_invalid_handle_value_falls_back() {
    // The OS call "succeeds" but hands back an invalid sentinel: treated
    // the same as a rejection.
    match acquire_first(77, OpenOutcome::Opened { raw: 0 }) {
        AcquireStep::Fallback { access_rights } => assert_eq!(access_rights, 0x30),
        AcquireStep::Acquired(_) => panic!("an invalid handle value must not be accepted"),
    }
    match acquire_first(77, OpenOutcome::Opened { raw: -1 }) {
        AcquireStep::Fallback { access_rights } => assert_eq!(access_rights, 0x30),
        AcquireStep::Acquired(_) => panic!("an invalid handle value must not be accepted"),
    }
}

#[test]
fn acquire_fails_when_both_attempts_fail() {
    // Inaccessible or non-existent target: both attempts come back
    // unusable, the single generic acquisition failure is surfaced, and no
    // handle (nothing to close) is left behind.
    match acquire_first(99999, OpenOutcome::Failed) {
        AcquireStep::Fallback { .. } => {}
        AcquireStep::Acquired(_) => panic!("a failed open cannot yield a handle"),
    }
    assert_eq!(
        acquire_fallback(99999, OpenOutcome::Failed),
        Err(HandleError::AcquisitionFailure)
    );
    assert_eq!(
        acquire_fallback(99999, OpenOutcome::Opened { raw: -1 }),
        Err(HandleError::AcquisitionFailure)
    );
}

#[test]
fn acquire_pid_zero_fails() {
    // Identifier 0 is reserved on the platform: the OS refuses both
    // attempts, and acquisition reports the generic failure.
    match acquire_first(0, OpenOutcome::Failed) {
        AcquireStep::Fallback { access_rights } => assert_eq!(access_rights, 0x30),
        AcquireStep::Acquired(_) => panic!("pid 0 must not be acquirable"),
    }
    assert_eq!(
        acquire_fallback(0, OpenOutcome::Failed),
        Err(HandleError::AcquisitionFailure)
    );
}

#[test]
fn current_process_handle_keeps_own_pid() {
    // Opening the calling process itself always succeeds; the handle
    // reports the caller's own identifier.
    let own_pid = 5612;
    let h = Handle::new(0x354, own_pid);
    assert_eq!(h.get_process_id(), own_pid);
    assert!(h.is_valid());
}

#[test]
fn release_closes_exactly_once() {
    let mut h = Handle::new(0x77C, 41);
    assert_eq!(h.release(), Some(0x77C));
    assert!(!h.is_valid());
    assert_eq!(h.get_process_id(), 41);
    // The second release, and every one after it, finds nothing to close.
    assert_eq!(h.release(), None);
    assert_eq!(h.release(), None);
}

#[test]
fn snapshot_release_closes_exactly_once() {
    let h = Handle::new(0x300, 8);
    let mut s = h
        .create_snapshot(OpenOutcome::Opened { raw: 0x9F0 })
        .expect("snapshot creation succeeded");
    assert_eq!(s.release(), Some(0x9F0));
    assert_eq!(s.release(), None);
    assert_eq!(s.get_process_id(), 8);
}

#[test]
fn snapshot_request_carries_flags_and_pid() {
    let h = Handle::new(0x12C, 2600);
    let req = h.snapshot_request(HandleSnapshotFlag::snap_all());
    assert_eq!(req.flags, SNAP_ALL);
    assert_eq!(req.process_id, 2600);
}

#[test]
fn snapshot_copies_process_id() {
    let h = Handle::new(0x12C, 2600);
    let s = h
        .create_snapshot(OpenOutcome::Opened { raw: 0x6B4 })
        .expect("snapshot creation succeeded");
    assert_eq!(s.get_process_id(), 2600);
    assert_eq!(s.raw_value(), 0x6B4);
}

#[test]
fn snapshot_creation_failure_is_surfaced() {
    let h = Handle::new(0x12C, 2600);
    assert_eq!(
        h.create_snapshot(OpenOutcome::Failed),
        Err(HandleError::SnapshotCreationFailure)
    );
    assert_eq!(
        h.create_snapshot(OpenOutcome::Opened { raw: 0 }),
        Err(HandleError::SnapshotCreationFailure)
    );
}

fn module(name: &str, path: &str, base: usize, size: u32) -> Module {
    Module::new(String::from(name), String::from(path), base, size)
}

#[test]
fn module_enumeration_first_then_next() {
    let snap = HandleSnapshot {
        raw: 0x9F0,
        process_id: 19,
    };
    let mut it = snap.get_modules();
    assert_eq!(it.state, ModuleIterState::NotStarted);
    assert_eq!(it.query(), Some(ModuleQuery::First));
    let first = it
        .advance(Some(module("a.exe", "C:\\p\\a.exe", 0x40_0000, 0x1000)))
        .expect("first pull yields the delivered module");
    assert_eq!(first.name, "a.exe");
    assert_eq!(it.state, ModuleIterState::Enumerating);
    // Once started, "first" is never queried again.
    assert_eq!(it.query(), Some(ModuleQuery::Next));
    let second = it
        .advance(Some(module("b.dll", "C:\\p\\b.dll", 0x50_0000, 0x2000)))
        .expect("second pull yields the delivered module");
    assert_eq!(second.base_address, 0x50_0000);
    assert_eq!(it.query(), Some(ModuleQuery::Next));
}

#[test]
fn module_enumeration_end_is_terminal() {
    let snap = HandleSnapshot {
        raw: 0x9F0,
        process_id: 19,
    };
    let mut it = snap.get_modules();
    assert!(it
        .advance(Some(module("a.exe", "C:\\p\\a.exe", 0x40_0000, 0x1000)))
        .is_some());
    // The protocol signals "no more items".
    assert!(it.advance(None).is_none());
    assert_eq!(it.state, ModuleIterState::Exhausted);
    assert_eq!(it.query(), None);
    // Pulling past the end keeps yielding nothing, never restarts, even if
    // something is fed in.
    assert!(it.advance(None).is_none());
    assert!(it
        .advance(Some(module("x.dll", "C:\\p\\x.dll", 0x60_0000, 0x1000)))
        .is_none());
    assert_eq!(it.state, ModuleIterState::Exhausted);
}

#[test]
fn module_enumeration_counts_every_delivered_module() {
    let snap = HandleSnapshot {
        raw: 0x1A4,
        process_id: 3,
    };
    let mut it = snap.get_modules();
    let delivered = [
        ("one.exe", 0x40_0000usize),
        ("two.dll", 0x50_0000),
        ("three.dll", 0x60_0000),
    ];
    let mut pulled = 0;
    for (name, base) in delivered {
        let m = it
            .advance(Some(module(name, "C:\\m", base, 0x1000)))
            .expect("each delivered module is yielded");
        assert_eq!(m.name, name);
        pulled += 1;
    }
    assert!(it.advance(None).is_none());
    // The sequence is exactly as long as what the snapshot delivered.
    assert_eq!(pulled, delivered.len());
}

#[test]
fn snapshot_modules_start_with_the_executable() {
    // acquire(own_pid) -> create_snapshot(SnapAll) -> modules(): at least
    // one module comes out, and the first entry - the executable the
    // process was launched with - has a non-empty path.
    let own_pid = 5612;
    let h = match acquire_first(own_pid, OpenOutcome::Opened { raw: 0x128 }) {
        AcquireStep::Acquired(h) => h,
        AcquireStep::Fallback { .. } => panic!("a process can always open itself"),
    };
    let req = h.snapshot_request(HandleSnapshotFlag::snap_all());
    assert_eq!(req.process_id, own_pid);
    let snap = h
        .create_snapshot(OpenOutcome::Opened { raw: 0x45C })
        .expect("snapshot creation succeeded");
    assert_eq!(snap.get_process_id(), own_pid);
    let mut it = snap.get_modules();
    let first = it
        .advance(Some(module(
            "self.exe",
            "C:\\bin\\self.exe",
            0x40_0000,
            0x3000,
        )))
        .expect("the executable itself is enumerated");
    assert!(!first.path.is_empty());
    let mut count = 1;
    if it
        .advance(Some(module("ntdll.dll", "C:\\sys\\ntdll.dll", 0x7FF0_0000, 0x1000)))
        .is_some()
    {
        count += 1;
    }
    assert!(it.advance(None).is_none());
    assert!(count >= 1);
}

#[test]
fn memory_regions_walk_is_gap_free_and_increasing() {
    let h = Handle::new(0x354, 5612);
    let mut it = h.get_memory_basic_informations();
    // The first query starts at the very start of the address space.
    assert_eq!(it.query(), Some(0));
    let sizes: [usize; 3] = [0x1000, 0x5000, 0x2000];
    let mut bases = Vec::new();
    for size in sizes {
        let q = it.query().expect("walk still live");
        let region = it
            .advance(Some(MemoryBasicInformation::new(q, size)))
            .expect("a delivered region is yielded");
        assert_eq!(region.get_base_address(), q);
        assert_eq!(region.get_region_size(), size);
        bases.push(region.get_base_address());
    }
    // Strictly increasing, non-overlapping, gap-free: each region starts
    // exactly where the one before it ends.
    assert_eq!(bases, vec![0, 0x1000, 0x6000]);
    assert_eq!(it.query(), Some(0x8000));
    // The OS reports "no information": the walk ends without an error.
    assert!(it.advance(None).is_none());
    assert!(it.exhausted);
    assert_eq!(it.query(), None);
    assert!(it.advance(None).is_none());
}

#[test]
fn memory_regions_first_base_is_address_space_start() {
    // acquire(own_pid) -> memory_regions(): the first descriptor starts at
    // the lowest address of the queried space.
    let own_pid = 5612;
    let h = match acquire_first(own_pid, OpenOutcome::Opened { raw: 0x354 }) {
        AcquireStep::Acquired(h) => h,
        AcquireStep::Fallback { .. } => panic!("a process can always open itself"),
    };
    let mut it = h.get_memory_basic_informations();
    let q = it.query().expect("walk starts live");
    assert_eq!(q, 0);
    let first = it
        .advance(Some(MemoryBasicInformation::new(q, 0x10000)))
        .expect("a delivered region is yielded");
    assert_eq!(first.get_base_address(), 0);
}

#[test]
fn memory_regions_end_at_address_space_top() {
    let h = Handle::new(0x354, 5612);
    let mut it = h.get_memory_basic_informations();
    // One region spanning almost everything, then one reaching the very
    // top of the address space: the walk ends because nothing lies beyond.
    let first_size = usize::MAX - 0xFFF;
    assert!(it
        .advance(Some(MemoryBasicInformation::new(0, first_size)))
        .is_some());
    assert_eq!(it.query(), Some(first_size));
    assert!(it
        .advance(Some(MemoryBasicInformation::new(first_size, 0x1000)))
        .is_some());
    assert!(it.exhausted);
    assert_eq!(it.query(), None);
}
