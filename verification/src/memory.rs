//! Lazy walk of a process's virtual address space, region by region.
//!
//! Each pull queries the region that starts at the cursor (the start of the
//! address space for the first pull) and advances the cursor to the end of
//! the region just returned, so the regions come out in strictly
//! increasing base-address order with no gaps and no overlaps, and the walk
//! is finite because the address space is. The verified state machine here
//! decides each query address and interprets each outcome; the driver makes
//! the OS query itself.

use vstd::prelude::*;
use crate::handle::Handle;

verus! {

/// One maximal contiguous region of the target's virtual address space.
/// Decoding the OS descriptor into this value is the driver's business;
/// the walk reads only the base address and the size.
#[derive(Clone, Copy, Debug, PartialEq, Eq, Structural)]
pub struct MemoryBasicInformation {
    /// The address the region starts at.
    pub base_address: usize,
    /// The region's size in bytes.
    pub region_size: usize,
}

impl MemoryBasicInformation {
    /// Builds a region descriptor from its parts.
    pub fn new(base_address: usize, region_size: usize) -> (r: MemoryBasicInformation)
        ensures
            r == (MemoryBasicInformation { base_address, region_size }),
    {
        MemoryBasicInformation { base_address, region_size }
    }

    /// The address the region starts at.
    pub fn get_base_address(&self) -> (r: usize)
        ensures
            r == self.base_address,
    {
        self.base_address
    }

    /// The region's size in bytes.
    pub fn get_region_size(&self) -> (r: usize)
        ensures
            r == self.region_size,
    {
        self.region_size
    }
}

/// The regions form a chain: each one starts exactly where the one before
/// it ends — no gap and no overlap anywhere in the sequence.
pub open spec fn regions_chained(s: Seq<MemoryBasicInformation>) -> bool {
    forall|i: int|
        0 < i < s.len() ==> #[trigger] s[i].base_address == s[i - 1].base_address + s[i
            - 1].region_size
}

/// Every region in the sequence is non-empty.
pub open spec fn regions_sized(s: Seq<MemoryBasicInformation>) -> bool {
    forall|i: int| 0 <= i < s.len() ==> #[trigger] s[i].region_size > 0
}

/// The forward-only walk of a process's memory regions. Holds a borrow of
/// the handle, the cursor, and the ghost record of everything yielded so
/// far.
pub struct HandleMemoryBasicInformationIter<'a> {
    /// The handle whose process is walked.
    pub handle: &'a Handle,
    /// The next query's start address; empty means the start of the
    /// address space.
    pub current_address: Option<usize>,
    /// Whether the walk has ended (the OS signalled "no information", or
    /// the cursor passed the top of the address space).
    pub exhausted: bool,
    /// Everything yielded so far, in order.
    pub yielded: Ghost<Seq<MemoryBasicInformation>>,
}

impl<'a> HandleMemoryBasicInformationIter<'a> {
    /// The address the next query starts at.
    pub open spec fn next_query(self) -> usize {
        match self.current_address {
            Some(a) => a,
            None => 0,
        }
    }

    /// The walk's invariant: what came out so far chains gaplessly from
    /// the start of the address space, and while the walk is live the
    /// cursor sits exactly at the end of the last region yielded.
    pub open spec fn wf(self) -> bool {
        &&& regions_chained(self.yielded@)
        &&& regions_sized(self.yielded@)
        &&& self.yielded@.len() > 0 ==> self.yielded@[0].base_address == 0
        &&& !self.exhausted ==> match self.current_address {
            None => self.yielded@.len() == 0,
            Some(a) => self.yielded@.len() > 0 && a == self.yielded@.last().base_address
                + self.yielded@.last().region_size,
        }
    }

    /// The address the driver must query next, or nothing once the walk
    /// has ended.
    pub fn query(&self) -> (q: Option<usize>)
        ensures
            self.exhausted ==> q is None,
            !self.exhausted ==> q == Some(self.next_query()),
    {
        if self.exhausted {
            None
        } else {
            match self.current_address {
                Some(a) => Some(a),
                None => Some(0),
            }
        }
    }

    /// Feeds the outcome of the query back in: the region decoded from the
    /// OS descriptor, or the "no information" signal that ends the walk.
    /// A yielded region starts exactly at the queried address, and the
    /// cursor moves to its end; if that end is past the top of the address
    /// space, the walk ends there.
    pub fn advance(&mut self, outcome: Option<MemoryBasicInformation>) -> (yielded: Option<
        MemoryBasicInformation,
    >)
        requires
            old(self).wf(),
            outcome matches Some(r) ==> r.base_address == old(self).next_query() && r.region_size
                > 0,
        ensures
            final(self).wf(),
            final(self).handle == old(self).handle,
            old(self).exhausted ==> *final(self) == *old(self) && yielded is None,
            !old(self).exhausted && outcome is None ==> final(self).exhausted
                && final(self).yielded@ == old(self).yielded@ && yielded is None,
            outcome matches Some(r) ==> (!old(self).exhausted ==> yielded == Some(r)
                && final(self).yielded@ == old(self).yielded@.push(r)
                && (r.base_address + r.region_size <= usize::MAX ==> !final(self).exhausted
                    && final(self).current_address == Some((r.base_address + r.region_size) as usize))
                && (r.base_address + r.region_size > usize::MAX ==> final(self).exhausted)),
    {
        if self.exhausted {
            return None;
        }
        match outcome {
            Some(r) => {
                self.yielded = Ghost(self.yielded@.push(r));
                if r.region_size <= usize::MAX - r.base_address {
                    self.current_address = Some(r.base_address + r.region_size);
                } else {
                    self.exhausted = true;
                }
                Some(r)
            },
            None => {
                self.exhausted = true;
                None
            },
        }
    }
}

impl Handle {
    /// The lazy walk of this handle's process's memory regions. No OS call
    /// occurs until the first element is pulled.
    pub fn get_memory_basic_informations<'a>(&'a self) -> (r: HandleMemoryBasicInformationIter<'a>)
        ensures
            r.handle == self,
            r.current_address is None,
            !r.exhausted,
            r.yielded@ == Seq::<MemoryBasicInformation>::empty(),
            r.wf(),
    {
        HandleMemoryBasicInformationIter {
            handle: self,
            current_address: None,
            exhausted: false,
            yielded: Ghost(Seq::empty()),
        }
    }
}

/// In a gapless chain of non-empty regions, every earlier region ends at
/// or before every later one begins, and the bases strictly increase.
pub proof fn lemma_chained_bases_ordered(s: Seq<MemoryBasicInformation>, i: int, j: int)
    requires
        regions_chained(s),
        regions_sized(s),
        0 <= i < j < s.len(),
    ensures
        s[i].base_address + s[i].region_size <= s[j].base_address,
        s[i].base_address < s[j].base_address,
    decreases j - i,
{
    if j > i + 1 {
        lemma_chained_bases_ordered(s, i, j - 1);
    }
}

/// Everything the walk has yielded is in strictly increasing base-address
/// order, non-overlapping and gap-free: each region after the first starts
/// exactly where its predecessor ends, and no region reaches into a later
/// one.
pub proof fn lemma_yielded_regions_ordered<'a>(it: HandleMemoryBasicInformationIter<'a>)
    requires
        it.wf(),
    ensures
        forall|i: int, j: int|
            0 <= i < j < it.yielded@.len() ==> #[trigger] it.yielded@[i].base_address
                < #[trigger] it.yielded@[j].base_address,
        forall|i: int, j: int|
            0 <= i < j < it.yielded@.len() ==> it.yielded@[i].base_address
                + it.yielded@[i].region_size <= it.yielded@[j].base_address,
        regions_chained(it.yielded@),
{
    assert forall|i: int, j: int| 0 <= i < j < it.yielded@.len() implies #[trigger] it.yielded@[i].base_address
        < #[trigger] it.yielded@[j].base_address && it.yielded@[i].base_address
        + it.yielded@[i].region_size <= it.yielded@[j].base_address by {
        lemma_chained_bases_ordered(it.yielded@, i, j);
    }
}

/// The first region the walk yields starts at the very start of the
/// address space: the walk covers the queried range from its lowest
/// address.
pub proof fn lemma_first_region_at_start<'a>(it: HandleMemoryBasicInformationIter<'a>)
    requires
        it.wf(),
        it.yielded@.len() > 0,
    ensures
        it.yielded@[0].base_address == 0,
{
}

} // verus!
