//! The buffer tracer's bookkeeping: the table of live HIP allocations (fixed
//! number of slots, reused first-free) and the table of registered kernels.
use vstd::prelude::*;


verus! {

/// The number of slots in the allocation table.
pub const MAX_TRACKED_BUFFERS: usize = 65536;

/// The kind of memory an allocation was made in.
#[derive(Clone, Copy, PartialEq, Eq, Structural, Debug)]
pub enum BufferType {
    Device,
    Host,
    Managed,
}

/// The name the trace lines give each buffer type.
pub fn buffer_type_name(t: BufferType) -> (r: &'static str)
    ensures
        t == BufferType::Device ==> r@ == "device"@,
        t == BufferType::Host ==> r@ == "host"@,
        t == BufferType::Managed ==> r@ == "managed"@,
{
    match t {
        BufferType::Device => "device",
        BufferType::Host => "host",
        BufferType::Managed => "managed",
    }
}

/// One slot of the allocation table.
#[derive(Clone, Copy, PartialEq, Eq, Structural, Debug)]
pub struct TrackedBuffer {
    pub ptr: u64,
    pub size: usize,
    pub btype: BufferType,
    pub in_use: bool,
    pub alloc_id: u64,
}

/// An unused slot.
pub open spec fn empty_slot() -> TrackedBuffer {
    TrackedBuffer { ptr: 0, size: 0, btype: BufferType::Device, in_use: false, alloc_id: 0 }
}

/// The number of slots in use.
pub open spec fn count_live(s: Seq<TrackedBuffer>) -> nat
    decreases s.len(),
{
    if s.len() == 0 {
        0
    } else {
        count_live(s.drop_last()) + if s.last().in_use {
            1nat
        } else {
            0nat
        }
    }
}

/// The first slot at or after `i` that is not in use.
pub open spec fn first_free_from(s: Seq<TrackedBuffer>, i: int) -> Option<int>
    decreases s.len() - i,
{
    if i < 0 || i >= s.len() {
        None
    } else if !s[i].in_use {
        Some(i)
    } else {
        first_free_from(s, i + 1)
    }
}

/// The first slot at or after `i` that is in use and tracks `ptr`.
pub open spec fn find_live_from(s: Seq<TrackedBuffer>, ptr: u64, i: int) -> Option<int>
    decreases s.len() - i,
{
    if i < 0 || i >= s.len() {
        None
    } else if s[i].in_use && s[i].ptr == ptr {
        Some(i)
    } else {
        find_live_from(s, ptr, i + 1)
    }
}

/// The slots in use, by index.
pub open spec fn live_slots(s: Seq<TrackedBuffer>) -> Map<int, TrackedBuffer> {
    Map::new(|i: int| 0 <= i < s.len() && s[i].in_use, |i: int| s[i])
}

/// Whether some slot in use tracks `ptr`.
pub open spec fn is_tracked(s: Seq<TrackedBuffer>, ptr: u64) -> bool {
    exists|i: int| 0 <= i < s.len() && s[i].in_use && s[i].ptr == ptr
}

/// The abstract allocation table.
pub struct BufferTableView {
    pub slots: Seq<TrackedBuffer>,
    pub count: nat,
    pub next_alloc_id: nat,
}

/// What adding an allocation did.
#[derive(Clone, Copy, PartialEq, Eq, Structural, Debug)]
pub enum AddOutcome {
    /// A null pointer or a zero size: nothing is tracked.
    Ignored,
    /// Every slot is in use; the caller warns that the pointer is untracked.
    TableFull,
    /// The allocation took `slot` under the id `alloc_id`.
    Added { slot: usize, alloc_id: u64 },
}

impl BufferTableView {
    /// The table after adding `(ptr, size, btype)`, and the outcome.
    pub open spec fn add(self, ptr: u64, size: usize, btype: BufferType) -> (BufferTableView, AddOutcome) {
        if ptr == 0 || size == 0 {
            (self, AddOutcome::Ignored)
        } else {
            match first_free_from(self.slots, 0) {
                None => (self, AddOutcome::TableFull),
                Some(slot) => (
                    BufferTableView {
                        slots: self.slots.update(
                            slot,
                            TrackedBuffer { ptr, size, btype, in_use: true, alloc_id: self.next_alloc_id as u64 },
                        ),
                        count: self.count + 1,
                        next_alloc_id: self.next_alloc_id + 1,
                    },
                    AddOutcome::Added { slot: slot as usize, alloc_id: self.next_alloc_id as u64 },
                ),
            }
        }
    }

    /// The table after removing `ptr`, and whether a slot was released.
    pub open spec fn remove(self, ptr: u64) -> (BufferTableView, bool) {
        if ptr == 0 {
            (self, false)
        } else {
            match find_live_from(self.slots, ptr, 0) {
                None => (self, false),
                Some(i) => (
                    BufferTableView {
                        slots: self.slots.update(i, TrackedBuffer { in_use: false, ..self.slots[i] }),
                        count: (self.count - 1) as nat,
                        next_alloc_id: self.next_alloc_id,
                    },
                    true,
                ),
            }
        }
    }

    /// The table is well formed: the full number of slots, a count that matches
    /// the slots in use, and ids below the next id.
    pub open spec fn wf(self) -> bool {
        &&& self.slots.len() == MAX_TRACKED_BUFFERS
        &&& self.count == count_live(self.slots)
        &&& 1 <= self.next_alloc_id <= u64::MAX
        &&& forall|i: int|
            0 <= i < self.slots.len() && (#[trigger] self.slots[i]).in_use ==> 1 <= self.slots[i].alloc_id
                < self.next_alloc_id
    }
}

/// Changing one slot changes the count by the difference in its use.
pub proof fn lemma_count_live_update(s: Seq<TrackedBuffer>, i: int, x: TrackedBuffer)
    requires
        0 <= i < s.len(),
    ensures
        count_live(s.update(i, x)) + (if s[i].in_use { 1int } else { 0int }) == count_live(s) + (
        if x.in_use {
            1int
        } else {
            0int
        }),
    decreases s.len(),
{
    let t = s.update(i, x);
    if i == s.len() - 1 {
        assert(t.drop_last() == s.drop_last());
    } else {
        assert(t.drop_last() == s.drop_last().update(i, x));
        lemma_count_live_update(s.drop_last(), i, x);
    }
}

/// The count never exceeds the number of slots.
pub proof fn lemma_count_live_le(s: Seq<TrackedBuffer>)
    ensures
        count_live(s) <= s.len(),
    decreases s.len(),
{
    if s.len() > 0 {
        lemma_count_live_le(s.drop_last());
    }
}

/// If every slot before `i` is in use, the first free slot is found from `i`.
pub proof fn lemma_first_free_skip(s: Seq<TrackedBuffer>, i: int)
    requires
        0 <= i <= s.len(),
        forall|j: int| 0 <= j < i ==> (#[trigger] s[j]).in_use,
    ensures
        first_free_from(s, 0) == first_free_from(s, i),
    decreases i,
{
    if i > 0 {
        lemma_first_free_skip(s, i - 1);
    }
}

/// If no slot before `i` tracks `ptr` live, the search can start at `i`.
pub proof fn lemma_find_live_skip(s: Seq<TrackedBuffer>, ptr: u64, i: int)
    requires
        0 <= i <= s.len(),
        forall|j: int| 0 <= j < i ==> !((#[trigger] s[j]).in_use && s[j].ptr == ptr),
    ensures
        find_live_from(s, ptr, 0) == find_live_from(s, ptr, i),
    decreases i,
{
    if i > 0 {
        lemma_find_live_skip(s, ptr, i - 1);
    }
}

/// What the first-free search finds is a free slot with every earlier one in use.
pub proof fn lemma_first_free_props(s: Seq<TrackedBuffer>, i: int)
    requires
        0 <= i,
    ensures
        first_free_from(s, i) matches Some(k) ==> i <= k < s.len() && !s[k].in_use && forall|j: int|
            i <= j < k ==> (#[trigger] s[j]).in_use,
        first_free_from(s, i) is None ==> forall|j: int| i <= j < s.len() ==> (#[trigger] s[j]).in_use,
    decreases s.len() - i,
{
    if i < s.len() && s[i].in_use {
        lemma_first_free_props(s, i + 1);
    }
}

/// The table of live allocations the buffer tracer dumps around kernels.
pub struct BufferTable {
    buffers: Vec<TrackedBuffer>,
    count: usize,
    next_alloc_id: u64,
}

impl View for BufferTable {
    type V = BufferTableView;

    closed spec fn view(&self) -> BufferTableView {
        BufferTableView {
            slots: self.buffers@,
            count: self.count as nat,
            next_alloc_id: self.next_alloc_id as nat,
        }
    }
}

impl BufferTable {
    /// An empty table with every slot free; the first id handed out is 1.
    pub fn new() -> (t: BufferTable)
        ensures
            t@.wf(),
            t@.slots == Seq::new(MAX_TRACKED_BUFFERS as nat, |i: int| empty_slot()),
            t@.count == 0,
            t@.next_alloc_id == 1,
    {
        let mut buffers: Vec<TrackedBuffer> = Vec::new();
        let mut i: usize = 0;
        while i < MAX_TRACKED_BUFFERS
            invariant
                i <= MAX_TRACKED_BUFFERS,
                buffers@ == Seq::new(i as nat, |k: int| empty_slot()),
                count_live(buffers@) == 0,
            decreases MAX_TRACKED_BUFFERS - i,
        {
            let ghost before = buffers@;
            buffers.push(TrackedBuffer { ptr: 0, size: 0, btype: BufferType::Device, in_use: false, alloc_id: 0 });
            assert(buffers@.drop_last() == before);
            i = i + 1;
            assert(buffers@ == Seq::new(i as nat, |k: int| empty_slot()));
        }
        BufferTable { buffers, count: 0, next_alloc_id: 1 }
    }

    /// The number of allocations being tracked.
    pub fn count(&self) -> (r: usize)
        ensures
            r == self@.count,
    {
        self.count
    }

    /// The id the next tracked allocation gets.
    pub fn next_alloc_id(&self) -> (r: u64)
        ensures
            r == self@.next_alloc_id,
    {
        self.next_alloc_id
    }

    /// The slots, in order.
    pub fn slots(&self) -> (r: &[TrackedBuffer])
        ensures
            r@ == self@.slots,
    {
        self.buffers.as_slice()
    }

    /// `buffer_table_add`: track an allocation in the first free slot. Null
    /// pointers and empty sizes are ignored; a full table tracks nothing.
    pub fn add(&mut self, ptr: u64, size: usize, btype: BufferType) -> (r: AddOutcome)
        requires
            old(self)@.wf(),
            old(self)@.next_alloc_id < u64::MAX,
        ensures
            final(self)@.wf(),
            (final(self)@, r) == old(self)@.add(ptr, size, btype),
    {
        if ptr == 0 || size == 0 {
            return AddOutcome::Ignored;
        }
        let n = self.buffers.len();
        let mut i: usize = 0;
        while i < n
            invariant
                n == self.buffers@.len(),
                i <= n,
                forall|j: int| 0 <= j < i ==> (#[trigger] self.buffers@[j]).in_use,
            ensures
                i <= n,
                forall|j: int| 0 <= j < i ==> (#[trigger] self.buffers@[j]).in_use,
                i < n ==> !self.buffers@[i as int].in_use,
            decreases n - i,
        {
            if !self.buffers[i].in_use {
                break;
            }
            i = i + 1;
        }
        proof {
            lemma_first_free_skip(self.buffers@, i as int);
        }
        if i == n {
            return AddOutcome::TableFull;
        }
        let id = self.next_alloc_id;
        let ghost old_slots = self.buffers@;
        let entry = TrackedBuffer { ptr, size, btype, in_use: true, alloc_id: id };
        self.buffers.set(i, entry);
        proof {
            lemma_count_live_update(old_slots, i as int, entry);
            lemma_count_live_le(old_slots);
            lemma_count_live_le(self.buffers@);
        }
        self.next_alloc_id = id + 1;
        self.count = self.count + 1;
        AddOutcome::Added { slot: i, alloc_id: id }
    }

    /// `buffer_table_remove`: release the first live slot that tracks `ptr`.
    pub fn remove(&mut self, ptr: u64) -> (r: bool)
        requires
            old(self)@.wf(),
        ensures
            final(self)@.wf(),
            (final(self)@, r) == old(self)@.remove(ptr),
    {
        if ptr == 0 {
            return false;
        }
        let n = self.buffers.len();
        let mut i: usize = 0;
        while i < n
            invariant
                n == self.buffers@.len(),
                i <= n,
                forall|j: int| 0 <= j < i ==> !((#[trigger] self.buffers@[j]).in_use && self.buffers@[j].ptr == ptr),
            ensures
                i <= n,
                forall|j: int| 0 <= j < i ==> !((#[trigger] self.buffers@[j]).in_use && self.buffers@[j].ptr == ptr),
                i < n ==> self.buffers@[i as int].in_use && self.buffers@[i as int].ptr == ptr,
            decreases n - i,
        {
            if self.buffers[i].in_use && self.buffers[i].ptr == ptr {
                break;
            }
            i = i + 1;
        }
        proof {
            lemma_find_live_skip(self.buffers@, ptr, i as int);
        }
        if i == n {
            return false;
        }
        let ghost old_slots = self.buffers@;
        let old_entry = self.buffers[i];
        let entry = TrackedBuffer { in_use: false, ..old_entry };
        self.buffers.set(i, entry);
        proof {
            lemma_count_live_update(old_slots, i as int, entry);
        }
        self.count = self.count - 1;
        true
    }
}

/// Tracking an allocation that was not tracked and releasing it again leaves
/// the live slots as they were; only the next id has moved on.
pub proof fn law_add_then_remove(t: BufferTableView, ptr: u64, size: usize, btype: BufferType)
    requires
        t.wf(),
        ptr != 0,
        size != 0,
        !is_tracked(t.slots, ptr),
        t.add(ptr, size, btype).1 != AddOutcome::TableFull,
    ensures
        ({
            let t1 = t.add(ptr, size, btype).0;
            let t2 = t1.remove(ptr).0;
            &&& t1.remove(ptr).1
            &&& live_slots(t2.slots) == live_slots(t.slots)
            &&& t2.count == t.count
            &&& t2.next_alloc_id == t.next_alloc_id + 1
        }),
{
    lemma_first_free_props(t.slots, 0);
    let slot = first_free_from(t.slots, 0)->0;
    let t1 = t.add(ptr, size, btype).0;
    assert forall|j: int| 0 <= j < slot implies !((#[trigger] t1.slots[j]).in_use && t1.slots[j].ptr == ptr) by {
        assert(t1.slots[j] == t.slots[j]);
    }
    lemma_find_live_skip(t1.slots, ptr, slot);
    let t2 = t1.remove(ptr).0;
    assert(live_slots(t2.slots) =~= live_slots(t.slots));
}

/// Tracking an allocation makes it tracked, in the slot the outcome names.
pub proof fn law_add_tracks(t: BufferTableView, ptr: u64, size: usize, btype: BufferType)
    requires
        t.wf(),
    ensures
        t.add(ptr, size, btype).1 matches AddOutcome::Added { slot, alloc_id } ==> {
            let s = t.add(ptr, size, btype).0.slots;
            &&& s[slot as int] == TrackedBuffer { ptr, size, btype, in_use: true, alloc_id }
            &&& is_tracked(s, ptr)
            &&& alloc_id == t.next_alloc_id
        },
        t.add(ptr, size, btype).1 is TableFull ==> count_live(t.slots) == MAX_TRACKED_BUFFERS,
{
    lemma_first_free_props(t.slots, 0);
    if let AddOutcome::Added { slot, alloc_id } = t.add(ptr, size, btype).1 {
        let s = t.add(ptr, size, btype).0.slots;
        assert(s[slot as int].in_use && s[slot as int].ptr == ptr);
    }
    if t.add(ptr, size, btype).1 is TableFull {
        lemma_all_live_count(t.slots);
    }
}

/// When every slot is in use, the count is the number of slots.
pub proof fn lemma_all_live_count(s: Seq<TrackedBuffer>)
    requires
        forall|j: int| 0 <= j < s.len() ==> (#[trigger] s[j]).in_use,
    ensures
        count_live(s) == s.len(),
    decreases s.len(),
{
    if s.len() > 0 {
        lemma_all_live_count(s.drop_last());
    }
}

} // verus!
