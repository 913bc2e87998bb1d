//! Lazy enumeration of the modules captured by a snapshot.
//!
//! The OS offers a stateful first/next protocol over a snapshot handle.
//! This module turns it into a forward-only, never-restarting, finite lazy
//! sequence: a verified state machine that tells the driver which query to
//! make next and interprets each query's outcome. The iterator borrows its
//! snapshot for its whole lifetime, owns no OS resource of its own, and
//! closes nothing.

use vstd::prelude::*;
use crate::handle::HandleSnapshot;

verus! {

/// One loaded module at the time of the snapshot: independently owned once
/// produced, with no back-reference to the snapshot. Decoding the OS entry
/// buffer into this value is the driver's business.
pub struct Module {
    /// The module's short name.
    pub name: String,
    /// The full path of the module's file.
    pub path: String,
    /// The base address the module is mapped at.
    pub base_address: usize,
    /// The size of the mapping in bytes.
    pub size: u32,
}

impl Module {
    /// Builds a module descriptor from its parts.
    pub fn new(name: String, path: String, base_address: usize, size: u32) -> (r: Module)
        ensures
            r.name == name,
            r.path == path,
            r.base_address == base_address,
            r.size == size,
    {
        Module { name, path, base_address, size }
    }
}

/// Where the enumeration stands. The only transitions are
/// `NotStarted -> Enumerating`, `NotStarted -> Exhausted` and
/// `Enumerating -> Exhausted`; `Exhausted` is terminal.
#[derive(Clone, Copy, Debug, PartialEq, Eq, Structural)]
pub enum ModuleIterState {
    /// No query has been made yet.
    NotStarted,
    /// The first query has been made; later pulls query "next".
    Enumerating,
    /// The protocol signalled "no more items"; nothing further is yielded.
    Exhausted,
}

/// Which query the driver must make against the snapshot handle.
#[derive(Clone, Copy, Debug, PartialEq, Eq, Structural)]
pub enum ModuleQuery {
    /// Query the first module of the snapshot.
    First,
    /// Query the module after the one last returned.
    Next,
}

/// The transition relation of the enumeration: from a state and a query
/// outcome (a decoded module, or the protocol's single "no more items"
/// signal, which covers OS errors too) to the next state and what is
/// yielded.
pub open spec fn module_step(s: ModuleIterState, outcome: Option<Module>) -> (ModuleIterState, Option<
    Module,
>) {
    match s {
        ModuleIterState::Exhausted => (ModuleIterState::Exhausted, None),
        _ => match outcome {
            Some(m) => (ModuleIterState::Enumerating, Some(m)),
            None => (ModuleIterState::Exhausted, None),
        },
    }
}

/// The restartable-never, forward-only lazy sequence of a snapshot's
/// modules. Holds only a borrow of the snapshot and the enumeration state,
/// plus the ghost record of everything yielded so far.
pub struct HandleSnapshotModuleIter<'a> {
    /// The snapshot whose modules are enumerated.
    pub snapshot: &'a HandleSnapshot,
    /// Where the enumeration stands.
    pub state: ModuleIterState,
    /// Everything yielded so far, in order.
    pub yielded: Ghost<Seq<Module>>,
}

impl HandleSnapshot {
    /// The lazy module sequence of this snapshot. No OS call occurs until
    /// the first element is pulled.
    pub fn get_modules<'a>(&'a self) -> (r: HandleSnapshotModuleIter<'a>)
        ensures
            r.snapshot == self,
            r.state == ModuleIterState::NotStarted,
            r.yielded@ == Seq::<Module>::empty(),
    {
        HandleSnapshotModuleIter {
            snapshot: self,
            state: ModuleIterState::NotStarted,
            yielded: Ghost(Seq::empty()),
        }
    }
}

impl<'a> HandleSnapshotModuleIter<'a> {
    /// Which query the driver must make for the next pull: "first" exactly
    /// once at the start, "next" from then on, nothing once exhausted.
    pub fn query(&self) -> (q: Option<ModuleQuery>)
        ensures
            self.state == ModuleIterState::NotStarted ==> q == Some(ModuleQuery::First),
            self.state == ModuleIterState::Enumerating ==> q == Some(ModuleQuery::Next),
            self.state == ModuleIterState::Exhausted ==> q is None,
    {
        match self.state {
            ModuleIterState::NotStarted => Some(ModuleQuery::First),
            ModuleIterState::Enumerating => Some(ModuleQuery::Next),
            ModuleIterState::Exhausted => None,
        }
    }

    /// Feeds the outcome of the query back in. Yields exactly the module
    /// the protocol delivered, once; after the end signal — or once
    /// exhausted, whatever is fed in — nothing is yielded, ever again.
    pub fn advance(&mut self, outcome: Option<Module>) -> (yielded: Option<Module>)
        ensures
            final(self).snapshot == old(self).snapshot,
            (final(self).state, yielded) == module_step(old(self).state, outcome),
            yielded is Some ==> final(self).yielded@ == old(self).yielded@.push(yielded->0),
            yielded is None ==> final(self).yielded@ == old(self).yielded@,
    {
        match self.state {
            ModuleIterState::Exhausted => None,
            _ => match outcome {
                Some(m) => {
                    self.state = ModuleIterState::Enumerating;
                    self.yielded = Ghost(self.yielded@.push(m));
                    Some(m)
                },
                None => {
                    self.state = ModuleIterState::Exhausted;
                    None
                },
            },
        }
    }
}

/// Once the enumeration has left its initial state it never returns to it:
/// no transition produces `NotStarted`, so "first" is queried at most once.
pub proof fn lemma_enumeration_never_restarts(s: ModuleIterState, outcome: Option<Module>)
    ensures
        module_step(s, outcome).0 != ModuleIterState::NotStarted,
{
}

/// Exhaustion is terminal: every pull past the end yields nothing and
/// leaves the enumeration exhausted, whatever is fed in.
pub proof fn lemma_exhausted_is_terminal(outcome: Option<Module>)
    ensures
        module_step(ModuleIterState::Exhausted, outcome) == (ModuleIterState::Exhausted, None::<
            Module,
        >),
{
}

/// Each pull yields exactly what the protocol delivered for it: one module
/// per successful query outcome, nothing otherwise. Driving the iterator
/// therefore produces a sequence exactly as long as the run of modules the
/// snapshot holds.
pub proof fn lemma_yield_matches_outcome(s: ModuleIterState, outcome: Option<Module>)
    ensures
        s != ModuleIterState::Exhausted ==> module_step(s, outcome).1 == outcome,
        s == ModuleIterState::Exhausted ==> module_step(s, outcome).1 is None,
{
}

} // verus!
