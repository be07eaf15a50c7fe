//! The pool of pixel buffers shared with the compositor.
//!
//! One region of bytes holds a small header, kept for the placeholder image
//! of the parent surface, and after it `depth` slots of one frame each. A slot
//! is free or held by the compositor; its bytes can be written only while it
//! is free.

use vstd::prelude::*;

verus! {

/// Bytes at the start of the region kept for the 1x1 placeholder image.
pub const HEADER_BYTES: usize = 4;

/// Largest region the pool will lay out: offsets into it are handed to the
/// compositor as signed 32-bit numbers.
pub const MAX_REGION_BYTES: usize = 0x7fff_ffff;

/// One slot as handed to a caller: the handle under which the compositor's
/// buffer object is known, and the slot's byte range within the region.
#[derive(Clone, Copy, Debug, PartialEq, Eq)]
pub struct SlotRef {
    pub handle: u64,
    pub offset: usize,
    pub len: usize,
}

/// Why a pool cannot be laid out.
#[derive(Clone, Copy, Debug, PartialEq, Eq)]
pub enum ResourceError {
    /// A pool needs at least one slot.
    NoSlots,
    /// Header and slots together exceed `MAX_REGION_BYTES`.
    RegionTooLarge,
}

/// Why bytes were not written into a slot.
#[derive(Clone, Copy, Debug, PartialEq, Eq)]
pub enum WriteError {
    /// The handle names no slot of this pool.
    UnknownSlot,
    /// The compositor holds the slot.
    SlotHeld,
    /// The data is not exactly one frame long.
    LengthMismatch,
}

/// An operation on a pool, as a value.
pub enum PoolOp {
    /// Asking for a free slot; the pool stays as it is.
    Acquire,
    /// Writing one frame of bytes into a slot.
    Write { handle: u64, bytes: Seq<u8> },
    /// Handing a slot to the compositor.
    MarkHeld { handle: u64 },
    /// The compositor giving a slot back.
    Release { handle: u64 },
}

/// The pool as plain data: the size of a slot, which slots are held, and
/// the bytes of the region.
pub struct PoolModel {
    pub frame_bytes: nat,
    pub held: Seq<bool>,
    pub region: Seq<u8>,
}

/// Number of `true` entries.
pub open spec fn count_held(held: Seq<bool>) -> nat
    decreases held.len(),
{
    if held.len() == 0 {
        0
    } else {
        count_held(held.drop_last()) + if held.last() {
            1nat
        } else {
            0nat
        }
    }
}

/// Size of the region for `depth` slots of `frame_bytes` bytes.
pub open spec fn region_size(frame_bytes: nat, depth: nat) -> nat {
    HEADER_BYTES as nat + depth * frame_bytes
}

/// Why a pool of `depth` slots of `frame_bytes` bytes cannot be laid out, if
/// it cannot.
pub open spec fn allocation_error(frame_bytes: nat, depth: nat) -> Option<ResourceError> {
    if depth == 0 {
        Some(ResourceError::NoSlots)
    } else if region_size(frame_bytes, depth) > MAX_REGION_BYTES {
        Some(ResourceError::RegionTooLarge)
    } else {
        None
    }
}

impl PoolModel {
    /// A pool as allocated: every slot free, every byte zero.
    pub open spec fn fresh(frame_bytes: nat, depth: nat) -> PoolModel {
        PoolModel {
            frame_bytes,
            held: Seq::new(depth, |i: int| false),
            region: Seq::new(region_size(frame_bytes, depth), |i: int| 0u8),
        }
    }

    pub open spec fn depth(self) -> nat {
        self.held.len()
    }

    pub open spec fn wf(self) -> bool {
        &&& 1 <= self.depth() <= usize::MAX
        &&& self.region.len() == region_size(self.frame_bytes, self.depth())
        &&& self.region.len() <= MAX_REGION_BYTES
    }

    /// Whether `handle` names a slot of this pool.
    pub open spec fn owns(self, handle: u64) -> bool {
        handle < self.depth()
    }

    /// Where slot `index` starts in the region.
    pub open spec fn slot_offset(self, index: int) -> int {
        HEADER_BYTES + index * self.frame_bytes
    }

    /// The bytes of slot `index`.
    pub open spec fn slot_bytes(self, index: int) -> Seq<u8> {
        self.region.subrange(self.slot_offset(index), self.slot_offset(index) + self.frame_bytes)
    }

    /// The header bytes.
    pub open spec fn header(self) -> Seq<u8> {
        self.region.take(HEADER_BYTES as int)
    }

    /// Slot `index` as handed to a caller.
    pub open spec fn slot_ref(self, index: int) -> SlotRef {
        SlotRef {
            handle: index as u64,
            offset: self.slot_offset(index) as usize,
            len: self.frame_bytes as usize,
        }
    }

    /// Number of slots held by the compositor.
    pub open spec fn held_count(self) -> nat {
        count_held(self.held)
    }

    /// Whether slot `index` is free and every slot before it is held.
    pub open spec fn is_first_free(self, index: int) -> bool {
        &&& 0 <= index < self.depth()
        &&& !self.held[index]
        &&& forall|j: int| 0 <= j < index ==> self.held[j]
    }

    /// Whether the compositor holds every slot.
    pub open spec fn all_held(self) -> bool {
        forall|j: int| 0 <= j < self.depth() ==> self.held[j]
    }

    /// The index of the first free slot, if any slot is free.
    pub open spec fn first_free(self) -> Option<int> {
        if self.all_held() {
            None
        } else {
            Some(choose|i: int| self.is_first_free(i))
        }
    }

    /// Why a write of `bytes` into the slot of `handle` is refused, if it
    /// is.
    pub open spec fn write_error(self, handle: u64, bytes: Seq<u8>) -> Option<WriteError> {
        if !self.owns(handle) {
            Some(WriteError::UnknownSlot)
        } else if self.held[handle as int] {
            Some(WriteError::SlotHeld)
        } else if bytes.len() != self.frame_bytes {
            Some(WriteError::LengthMismatch)
        } else {
            None
        }
    }

    /// Whether a write of `bytes` into the slot of `handle` goes through.
    pub open spec fn accepts_write(self, handle: u64, bytes: Seq<u8>) -> bool {
        self.write_error(handle, bytes) is None
    }

    /// The pool after writing `bytes` into the slot of `handle`; unchanged if
    /// the write is refused.
    pub open spec fn written(self, handle: u64, bytes: Seq<u8>) -> PoolModel {
        if self.accepts_write(handle, bytes) {
            let start = self.slot_offset(handle as int);
            PoolModel {
                region: Seq::new(
                    self.region.len(),
                    |i: int|
                        if start <= i < start + self.frame_bytes {
                            bytes[i - start]
                        } else {
                            self.region[i]
                        },
                ),
                ..self
            }
        } else {
            self
        }
    }

    /// The pool after the slot of `handle` went to the compositor; unchanged
    /// for an unknown handle.
    pub open spec fn marked(self, handle: u64) -> PoolModel {
        if self.owns(handle) {
            PoolModel { held: self.held.update(handle as int, true), ..self }
        } else {
            self
        }
    }

    /// The pool after the compositor released the slot of `handle`;
    /// unchanged for an unknown handle.
    pub open spec fn released(self, handle: u64) -> PoolModel {
        if self.owns(handle) {
            PoolModel { held: self.held.update(handle as int, false), ..self }
        } else {
            self
        }
    }

    /// The pool after one operation.
    pub open spec fn apply(self, op: PoolOp) -> PoolModel {
        match op {
            PoolOp::Acquire => self,
            PoolOp::Write { handle, bytes } => self.written(handle, bytes),
            PoolOp::MarkHeld { handle } => self.marked(handle),
            PoolOp::Release { handle } => self.released(handle),
        }
    }

    /// The pool after a sequence of operations, first to last.
    pub open spec fn run(self, ops: Seq<PoolOp>) -> PoolModel
        decreases ops.len(),
    {
        if ops.len() == 0 {
            self
        } else {
            self.run(ops.drop_last()).apply(ops.last())
        }
    }
}

/// There is one first free slot at most.
pub proof fn lemma_first_free_unique(pool: PoolModel, index: int)
    requires
        pool.is_first_free(index),
    ensures
        pool.first_free() == Some(index),
{
    let chosen = choose|i: int| pool.is_first_free(i);
    assert(pool.is_first_free(chosen));
    if chosen < index {
        assert(pool.held[chosen]);
    } else if index < chosen {
        assert(pool.held[index]);
    }
}

/// Below any free slot lies a first free slot.
proof fn lemma_least_free(pool: PoolModel, bound: int) -> (index: int)
    requires
        0 <= bound < pool.depth(),
        !pool.held[bound],
    ensures
        pool.is_first_free(index),
        index <= bound,
    decreases bound,
{
    if exists|j: int| 0 <= j < bound && !pool.held[j] {
        let j = choose|j: int| 0 <= j < bound && !pool.held[j];
        lemma_least_free(pool, j)
    } else {
        bound
    }
}

/// What `first_free` names is the first free slot, and it names one unless
/// every slot is held.
pub proof fn lemma_first_free_is_free(pool: PoolModel)
    ensures
        match pool.first_free() {
            Some(index) => pool.is_first_free(index),
            None => pool.all_held(),
        },
{
    if !pool.all_held() {
        let k = choose|j: int| 0 <= j < pool.depth() && !pool.held[j];
        let index = lemma_least_free(pool, k);
    }
}

/// No more entries are `true` than there are entries.
pub proof fn lemma_count_held_bounded(held: Seq<bool>)
    ensures
        count_held(held) <= held.len(),
    decreases held.len(),
{
    if held.len() > 0 {
        lemma_count_held_bounded(held.drop_last());
    }
}

/// One operation keeps a pool well formed and changes neither its depth nor
/// its slot size.
pub proof fn lemma_apply_keeps_layout(pool: PoolModel, op: PoolOp)
    requires
        pool.wf(),
    ensures
        pool.apply(op).wf(),
        pool.apply(op).depth() == pool.depth(),
        pool.apply(op).frame_bytes == pool.frame_bytes,
{
}

/// Whatever operations a pool has gone through, the number of held slots
/// lies between zero and the depth, and the depth is the one it began with.
pub proof fn lemma_held_count_within_depth(pool: PoolModel, ops: Seq<PoolOp>)
    requires
        pool.wf(),
    ensures
        pool.run(ops).wf(),
        pool.run(ops).depth() == pool.depth(),
        pool.run(ops).frame_bytes == pool.frame_bytes,
        0 <= pool.run(ops).held_count() <= pool.depth(),
    decreases ops.len(),
{
    if ops.len() > 0 {
        lemma_held_count_within_depth(pool, ops.drop_last());
        lemma_apply_keeps_layout(pool.run(ops.drop_last()), ops.last());
    }
    lemma_count_held_bounded(pool.run(ops).held);
}

/// A slot's bytes lie inside the region and apart from the header and from
/// every other slot.
pub proof fn lemma_slot_in_region(pool: PoolModel, index: int)
    requires
        pool.wf(),
        0 <= index < pool.depth(),
    ensures
        HEADER_BYTES <= pool.slot_offset(index),
        pool.slot_offset(index) + pool.frame_bytes <= pool.region.len(),
        pool.slot_offset(index) + pool.frame_bytes == pool.slot_offset(index + 1),
        forall|other: int|
            index < other ==> pool.slot_offset(index) + pool.frame_bytes <= #[trigger] pool.slot_offset(
                other,
            ),
{
    let fb = pool.frame_bytes as int;
    let depth = pool.depth() as int;
    assert(index * fb + fb <= depth * fb) by (nonlinear_arith)
        requires
            0 <= index < depth,
            fb >= 0,
    ;
    assert(0 <= index * fb) by (nonlinear_arith)
        requires
            0 <= index,
            fb >= 0,
    ;
    assert((index + 1) * fb == index * fb + fb) by (nonlinear_arith);
    assert forall|other: int| index < other implies pool.slot_offset(index) + pool.frame_bytes
        <= #[trigger] pool.slot_offset(other) by {
        assert(index * fb + fb <= other * fb) by (nonlinear_arith)
            requires
                index < other,
                fb >= 0,
        ;
    }
}

/// One operation other than its own release leaves a held slot held, with
/// the bytes it had.
pub proof fn lemma_apply_keeps_held_slot(pool: PoolModel, op: PoolOp, index: int)
    requires
        pool.wf(),
        0 <= index < pool.depth(),
        pool.held[index],
        op != (PoolOp::Release { handle: index as u64 }),
    ensures
        pool.apply(op).held[index],
        pool.apply(op).slot_bytes(index) == pool.slot_bytes(index),
{
    let after = pool.apply(op);
    lemma_slot_in_region(pool, index);
    match op {
        PoolOp::Write { handle, bytes } => {
            if pool.accepts_write(handle, bytes) {
                let other = handle as int;
                lemma_slot_in_region(pool, other);
                if other < index {
                    assert(pool.slot_offset(other) + pool.frame_bytes <= pool.slot_offset(index));
                } else {
                    assert(pool.slot_offset(index) + pool.frame_bytes <= pool.slot_offset(other));
                }
                assert(after.slot_bytes(index) =~= pool.slot_bytes(index));
            }
        },
        _ => {},
    }
}

/// From the moment a slot is held until its release, no sequence of
/// operations changes its bytes: as long as none of them releases the slot,
/// it stays held and keeps the bytes it was handed over with.
pub proof fn lemma_held_slot_untouched(pool: PoolModel, ops: Seq<PoolOp>, index: int)
    requires
        pool.wf(),
        0 <= index < pool.depth(),
        pool.held[index],
        forall|k: int|
            0 <= k < ops.len() ==> ops[k] != (PoolOp::Release { handle: index as u64 }),
    ensures
        pool.run(ops).held[index],
        pool.run(ops).slot_bytes(index) == pool.slot_bytes(index),
    decreases ops.len(),
{
    if ops.len() > 0 {
        let before = ops.drop_last();
        lemma_held_slot_untouched(pool, before, index);
        lemma_held_count_within_depth(pool, before);
        lemma_apply_keeps_held_slot(pool.run(before), ops.last(), index);
    }
}

/// Releasing a slot twice is the same as releasing it once.
pub proof fn lemma_release_idempotent(pool: PoolModel, handle: u64)
    ensures
        pool.released(handle).released(handle) == pool.released(handle),
{
    if pool.owns(handle) {
        assert(pool.released(handle).held =~= pool.released(handle).released(handle).held);
    }
}

/// The pool of buffers: the region and, for each slot, whether the
/// compositor holds it. Slot `i` has handle `i`.
pub struct BufferPool {
    frame_bytes: usize,
    held: Vec<bool>,
    region: Vec<u8>,
}

impl View for BufferPool {
    type V = PoolModel;

    closed spec fn view(&self) -> PoolModel {
        PoolModel { frame_bytes: self.frame_bytes as nat, held: self.held@, region: self.region@ }
    }
}

impl BufferPool {
    #[verifier::type_invariant]
    spec fn inv(self) -> bool {
        self@.wf()
    }

    /// Lays out a region for `depth` slots of `frame_byte_size` bytes, all
    /// free and zeroed. Refused without a slot, or when the region would
    /// exceed `MAX_REGION_BYTES`.
    pub fn allocate(frame_byte_size: usize, depth: usize) -> (pool: Result<
        BufferPool,
        ResourceError,
    >)
        ensures
            match pool {
                Ok(p) => allocation_error(frame_byte_size as nat, depth as nat) is None && p@
                    == PoolModel::fresh(frame_byte_size as nat, depth as nat) && p@.wf(),
                Err(e) => allocation_error(frame_byte_size as nat, depth as nat) == Some(e),
            },
    {
        if depth == 0 {
            return Err(ResourceError::NoSlots);
        }
        assert(depth * frame_byte_size <= 0xffff_ffff_ffff_ffff * 0xffff_ffff_ffff_ffff)
            by (nonlinear_arith)
            requires
                depth <= 0xffff_ffff_ffff_ffff,
                frame_byte_size <= 0xffff_ffff_ffff_ffff,
        ;
        let slots_bytes: u128 = (depth as u128) * (frame_byte_size as u128);
        let total: u128 = HEADER_BYTES as u128 + slots_bytes;
        if total > MAX_REGION_BYTES as u128 {
            return Err(ResourceError::RegionTooLarge);
        }
        let size: usize = total as usize;
        let held: Vec<bool> = vec![false; depth];
        let region: Vec<u8> = vec![0u8; size];
        let pool = BufferPool { frame_bytes: frame_byte_size, held, region };
        assert(pool@.held =~= PoolModel::fresh(frame_byte_size as nat, depth as nat).held);
        assert(pool@.region =~= PoolModel::fresh(frame_byte_size as nat, depth as nat).region);
        Ok(pool)
    }

    /// Number of slots.
    pub fn depth(&self) -> (depth: usize)
        ensures
            depth == self@.depth(),
            depth >= 1,
    {
        proof {
            use_type_invariant(self);
        }
        self.held.len()
    }

    /// Size of one slot, in bytes.
    pub fn frame_byte_size(&self) -> (size: usize)
        ensures
            size == self@.frame_bytes,
    {
        self.frame_bytes
    }

    /// Size of the whole region: the header and every slot.
    pub fn region_size(&self) -> (size: usize)
        ensures
            size == region_size(self@.frame_bytes, self@.depth()),
            size <= MAX_REGION_BYTES,
            self@.wf(),
    {
        proof {
            use_type_invariant(self);
        }
        self.region.len()
    }

    /// The bytes of the region, header first.
    pub fn region(&self) -> (region: &Vec<u8>)
        ensures
            region@ == self@.region,
    {
        &self.region
    }

    /// The slot of `handle`, if the pool has it.
    pub fn slot(&self, handle: u64) -> (slot: Option<SlotRef>)
        ensures
            slot is Some <==> self@.owns(handle),
            slot matches Some(s) ==> s == self@.slot_ref(handle as int),
    {
        proof {
            use_type_invariant(self);
        }
        if handle < self.held.len() as u64 {
            let index: usize = handle as usize;
            proof {
                lemma_slot_in_region(self@, index as int);
            }
            Some(SlotRef { handle, offset: HEADER_BYTES + index * self.frame_bytes, len: self.frame_bytes })
        } else {
            None
        }
    }

    /// Whether the compositor holds the slot of `handle`; `false` for an
    /// unknown handle.
    pub fn is_held(&self, handle: u64) -> (held: bool)
        ensures
            held == (self@.owns(handle) && self@.held[handle as int]),
    {
        if handle < self.held.len() as u64 {
            self.held[handle as usize]
        } else {
            false
        }
    }

    /// Number of slots the compositor holds.
    pub fn held_count(&self) -> (count: usize)
        ensures
            count == self@.held_count(),
            count <= self@.depth(),
    {
        let mut count: usize = 0;
        let mut i: usize = 0;
        while i < self.held.len()
            invariant
                i <= self.held.len(),
                count == count_held(self.held@.take(i as int)),
                count <= i,
            decreases self.held.len() - i,
        {
            assert(self.held@.take(i + 1).drop_last() == self.held@.take(i as int));
            if self.held[i] {
                count = count + 1;
            }
            i = i + 1;
        }
        assert(self.held@.take(i as int) == self.held@);
        count
    }

    /// The first free slot, or nothing if the compositor holds them all.
    pub fn acquire_free_slot(&self) -> (slot: Option<SlotRef>)
        ensures
            match slot {
                Some(s) => self@.is_first_free(s.handle as int) && s == self@.slot_ref(
                    s.handle as int,
                ),
                None => self@.all_held(),
            },
            slot is Some <==> self@.first_free() is Some,
            slot matches Some(s) ==> self@.first_free() == Some(s.handle as int),
            self@.wf(),
    {
        proof {
            use_type_invariant(self);
        }
        let mut i: usize = 0;
        while i < self.held.len()
            invariant
                i <= self.held.len(),
                self@.wf(),
                forall|j: int| 0 <= j < i ==> self.held@[j],
            decreases self.held.len() - i,
        {
            if !self.held[i] {
                proof {
                    lemma_slot_in_region(self@, i as int);
                    lemma_first_free_unique(self@, i as int);
                }
                return Some(
                    SlotRef {
                        handle: i as u64,
                        offset: HEADER_BYTES + i * self.frame_bytes,
                        len: self.frame_bytes,
                    },
                );
            }
            i = i + 1;
        }
        None
    }

    /// Writes one frame of bytes into a free slot. A held slot is never
    /// written: the call is refused and the pool stays as it was.
    pub fn write_slot(&mut self, slot: &SlotRef, bytes: &Vec<u8>) -> (done: Result<(), WriteError>)
        ensures
            final(self)@ == old(self)@.written(slot.handle, bytes@),
            final(self)@.wf(),
            match done {
                Ok(()) => old(self)@.write_error(slot.handle, bytes@) is None,
                Err(e) => old(self)@.write_error(slot.handle, bytes@) == Some(e),
            },
            forall|i: int|
                0 <= i < old(self)@.depth() && old(self)@.held[i] ==> final(self)@.held[i]
                    && #[trigger] final(self)@.slot_bytes(i) == old(self)@.slot_bytes(i),
            done is Ok ==> final(self)@.slot_bytes(slot.handle as int) == bytes@,
            final(self)@.header() == old(self)@.header(),
        no_unwind
    {
        proof {
            use_type_invariant(&*self);
        }
        if slot.handle >= self.held.len() as u64 {
            return Err(WriteError::UnknownSlot);
        }
        let index: usize = slot.handle as usize;
        if self.held[index] {
            return Err(WriteError::SlotHeld);
        }
        if bytes.len() != self.frame_bytes {
            return Err(WriteError::LengthMismatch);
        }
        proof {
            lemma_slot_in_region(self@, index as int);
        }
        let start: usize = HEADER_BYTES + index * self.frame_bytes;
        let ghost before = self@;
        let mut k: usize = 0;
        while k < bytes.len()
            invariant
                k <= bytes.len(),
                before.wf(),
                bytes.len() == before.frame_bytes,
                self.frame_bytes == before.frame_bytes,
                self.held@ == before.held,
                self.region.len() == before.region.len(),
                start == before.slot_offset(index as int),
                start + before.frame_bytes <= before.region.len(),
                forall|i: int|
                    0 <= i < self.region.len() ==> self.region@[i] == if start <= i < start + k {
                        bytes@[i - start]
                    } else {
                        before.region[i]
                    },
            decreases bytes.len() - k,
        {
            self.region[start + k] = bytes[k];
            k = k + 1;
        }
        proof {
            let after = before.written(slot.handle, bytes@);
            assert(self@.region =~= after.region);
            assert(self@ == after);
            assert(after.slot_bytes(index as int) =~= bytes@);
            assert(after.header() =~= before.header());
            assert forall|i: int| 0 <= i < before.depth() && before.held[i] implies after.held[i]
                && #[trigger] after.slot_bytes(i) == before.slot_bytes(i) by {
                lemma_apply_keeps_held_slot(
                    before,
                    PoolOp::Write { handle: slot.handle, bytes: bytes@ },
                    i,
                );
            }
        }
        Ok(())
    }

    /// Records that the slot goes to the compositor. Slots are told apart
    /// by handle; a handle the pool does not have changes nothing.
    pub fn mark_held(&mut self, slot: &SlotRef)
        ensures
            final(self)@ == old(self)@.marked(slot.handle),
            final(self)@.wf(),
            final(self)@.region == old(self)@.region,
        no_unwind
    {
        proof {
            use_type_invariant(&*self);
        }
        if slot.handle < self.held.len() as u64 {
            self.held[slot.handle as usize] = true;
        }
    }

    /// Records that the compositor released the slot of `handle`. Releasing
    /// a free slot, or a handle the pool does not have, changes nothing.
    pub fn release(&mut self, handle: u64)
        ensures
            final(self)@ == old(self)@.released(handle),
            final(self)@.wf(),
            final(self)@.region == old(self)@.region,
        no_unwind
    {
        proof {
            use_type_invariant(&*self);
        }
        if handle < self.held.len() as u64 {
            self.held[handle as usize] = false;
        }
    }
}

} // verus!
