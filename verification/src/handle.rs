//! The opaque-handle arena: the single chokepoint through which struct
//! instances cross the boundary as tagged heap addresses. A constructor
//! moves an instance into the arena and hands out a fresh nonzero address
//! under the struct's tag; the matching delete wrapper reclaims exactly
//! that allocation, and silently ignores a null address.

use vstd::prelude::*;

use crate::strutil::str_eq;

verus! {

/// One live allocation: its address and its type tag.
#[derive(Debug, Clone, PartialEq, Eq)]
pub struct Slot {
    pub addr: u64,
    pub tag: String,
}

/// The mathematical form of a live allocation.
pub struct SlotModel {
    pub addr: u64,
    pub tag: Seq<char>,
}

impl View for Slot {
    type V = SlotModel;

    open spec fn view(&self) -> SlotModel {
        SlotModel { addr: self.addr, tag: self.tag@ }
    }
}

/// Whether a live allocation with the given address and tag exists.
pub open spec fn has_slot(slots: Seq<SlotModel>, addr: u64, tag: Seq<char>) -> bool {
    exists|i: int| 0 <= i < slots.len() && slots[i].addr == addr && slots[i].tag == tag
}

/// The allocations left after reclaiming the first one that carries the
/// given address and tag; nothing changes when none does.
pub open spec fn spec_reclaim(slots: Seq<SlotModel>, addr: u64, tag: Seq<char>) -> Seq<SlotModel>
    decreases slots.len(),
{
    if slots.len() == 0 {
        slots
    } else if slots[0].addr == addr && slots[0].tag == tag {
        slots.drop_first()
    } else {
        seq![slots[0]] + spec_reclaim(slots.drop_first(), addr, tag)
    }
}

/// The arena of live allocations handed to the runtime as opaque handles.
#[derive(Debug, Clone, PartialEq, Eq)]
pub struct Arena {
    /// The next address to hand out; never zero.
    pub next: u64,
    /// The live allocations, oldest first.
    pub slots: Vec<Slot>,
}

/// The mathematical form of the arena.
pub struct ArenaModel {
    pub next: u64,
    pub slots: Seq<SlotModel>,
}

impl View for Arena {
    type V = ArenaModel;

    open spec fn view(&self) -> ArenaModel {
        ArenaModel { next: self.next, slots: Seq::new(self.slots@.len(), |i: int| self.slots@[i]@) }
    }
}

/// The arena's invariant: addresses are nonzero, below the next free one.
pub open spec fn arena_wf(a: ArenaModel) -> bool {
    a.next >= 1 && forall|i: int|
        0 <= i < a.slots.len() ==> 0 < #[trigger] a.slots[i].addr < a.next
}

impl Arena {
    /// An empty arena.
    pub fn new() -> (r: Arena)
        ensures
            arena_wf(r@),
            r@.slots == Seq::<SlotModel>::empty(),
    {
        let r = Arena { next: 1, slots: Vec::new() };
        proof {
            assert(r@.slots =~= Seq::<SlotModel>::empty());
        }
        r
    }

    /// Moves one instance into the arena under the given tag and returns
    /// its fresh, nonzero address. The new allocation joins the live ones;
    /// no existing allocation is touched, and none already carries the new
    /// address.
    pub fn construct(&mut self, tag: &str) -> (addr: u64)
        requires
            arena_wf(old(self)@),
            old(self)@.next < u64::MAX,
        ensures
            arena_wf(final(self)@),
            addr != 0,
            addr == old(self)@.next,
            !has_slot(old(self)@.slots, addr, tag@),
            final(self)@.slots == old(self)@.slots.push(SlotModel { addr, tag: tag@ }),
            final(self)@.next == old(self)@.next + 1,
    {
        let addr = self.next;
        let ghost prev = self@.slots;
        self.slots.push(Slot { addr, tag: tag.to_owned() });
        self.next = self.next + 1;
        proof {
            assert(self@.slots =~= prev.push(SlotModel { addr, tag: tag@ }));
            assert(!has_slot(prev, addr, tag@)) by {
                if has_slot(prev, addr, tag@) {
                    let i = choose|i: int|
                        0 <= i < prev.len() && prev[i].addr == addr && prev[i].tag == tag@;
                    assert(prev[i].addr < addr);
                }
            }
        }
        addr
    }

    /// Reclaims the allocation behind a tagged address. A null address is
    /// silently ignored and changes nothing; otherwise the first live
    /// allocation carrying the address and tag is removed, and the call
    /// reports whether one was found.
    pub fn delete(&mut self, addr: u64, tag: &str) -> (freed: bool)
        requires
            arena_wf(old(self)@),
        ensures
            arena_wf(final(self)@),
            final(self)@.next == old(self)@.next,
            addr == 0 ==> !freed && final(self)@.slots == old(self)@.slots,
            addr != 0 ==> freed == has_slot(old(self)@.slots, addr, tag@) && final(self)@.slots
                == spec_reclaim(old(self)@.slots, addr, tag@),
    {
        if addr == 0 {
            proof {
                assert(self@.slots =~= self@.slots);
            }
            return false;
        }
        let ghost prev = self@.slots;
        let n = self.slots.len();
        let mut i: usize = 0;
        while i < n
            invariant
                0 <= i <= n,
                n == self.slots@.len(),
                self@ == old(self)@,
                arena_wf(self@),
                prev == self@.slots,
                forall|j: int|
                    0 <= j < i ==> !(prev[j].addr == addr && #[trigger] prev[j].tag == tag@),
            decreases n - i,
        {
            let s = &self.slots[i];
            if s.addr == addr && str_eq(s.tag.as_str(), tag) {
                proof {
                    assert(prev[i as int].addr == addr && prev[i as int].tag == tag@);
                    lemma_reclaim_at(prev, i as int, addr, tag@);
                }
                self.slots.remove(i);
                proof {
                    assert(self@.slots =~= prev.remove(i as int));
                    assert forall|j: int| 0 <= j < self@.slots.len() implies 0
                        < #[trigger] self@.slots[j].addr < self@.next by {
                        if j < i {
                            assert(self@.slots[j] == prev[j]);
                        } else {
                            assert(self@.slots[j] == prev[j + 1]);
                        }
                    }
                }
                return true;
            }
            i = i + 1;
        }
        proof {
            assert(!has_slot(prev, addr, tag@)) by {
                if has_slot(prev, addr, tag@) {
                    let j = choose|j: int|
                        0 <= j < prev.len() && prev[j].addr == addr && prev[j].tag == tag@;
                    assert(!(prev[j].addr == addr && prev[j].tag == tag@));
                }
            }
            lemma_reclaim_absent(prev, addr, tag@);
            assert(self@.slots =~= prev);
        }
        false
    }
}

/// Reclaiming at the first matching position removes exactly that entry.
proof fn lemma_reclaim_at(slots: Seq<SlotModel>, i: int, addr: u64, tag: Seq<char>)
    requires
        0 <= i < slots.len(),
        slots[i].addr == addr && slots[i].tag == tag,
        forall|j: int| 0 <= j < i ==> !(slots[j].addr == addr && #[trigger] slots[j].tag == tag),
    ensures
        spec_reclaim(slots, addr, tag) =~= slots.remove(i),
    decreases slots.len(),
{
    if i == 0 {
        assert(slots.drop_first() =~= slots.remove(0));
    } else {
        lemma_reclaim_at(slots.drop_first(), i - 1, addr, tag);
        assert(seq![slots[0]] + slots.drop_first().remove(i - 1) =~= slots.remove(i));
    }
}

/// Reclaiming when no allocation matches changes nothing.
proof fn lemma_reclaim_absent(slots: Seq<SlotModel>, addr: u64, tag: Seq<char>)
    requires
        !has_slot(slots, addr, tag),
    ensures
        spec_reclaim(slots, addr, tag) =~= slots,
    decreases slots.len(),
{
    if slots.len() > 0 {
        assert(!(slots[0].addr == addr && slots[0].tag == tag));
        assert(!has_slot(slots.drop_first(), addr, tag)) by {
            if has_slot(slots.drop_first(), addr, tag) {
                let j = choose|j: int|
                    0 <= j < slots.drop_first().len() && slots.drop_first()[j].addr == addr
                        && slots.drop_first()[j].tag == tag;
                assert(slots[j + 1].addr == addr && slots[j + 1].tag == tag);
            }
        }
        lemma_reclaim_absent(slots.drop_first(), addr, tag);
        assert(seq![slots[0]] + slots.drop_first() =~= slots);
    }
}

/// Reclaiming a freshly pushed allocation that matched nothing before
/// removes exactly the new entry and leaves the older allocations as they
/// were.
proof fn lemma_reclaim_fresh(slots: Seq<SlotModel>, addr: u64, tag: Seq<char>)
    requires
        !has_slot(slots, addr, tag),
    ensures
        spec_reclaim(slots.push(SlotModel { addr, tag }), addr, tag) =~= slots,
        !has_slot(spec_reclaim(slots.push(SlotModel { addr, tag }), addr, tag), addr, tag),
    decreases slots.len(),
{
    let pushed = slots.push(SlotModel { addr, tag });
    if slots.len() == 0 {
        assert(pushed[0] == SlotModel { addr, tag });
        assert(pushed.drop_first() =~= slots);
    } else {
        assert(!(slots[0].addr == addr && slots[0].tag == tag));
        assert(!has_slot(slots.drop_first(), addr, tag)) by {
            if has_slot(slots.drop_first(), addr, tag) {
                let j = choose|j: int|
                    0 <= j < slots.drop_first().len() && slots.drop_first()[j].addr == addr
                        && slots.drop_first()[j].tag == tag;
                assert(slots[j + 1].addr == addr && slots[j + 1].tag == tag);
            }
        }
        lemma_reclaim_fresh(slots.drop_first(), addr, tag);
        assert(pushed[0] == slots[0]);
        assert(pushed.drop_first() =~= slots.drop_first().push(SlotModel { addr, tag }));
        assert(seq![slots[0]] + slots.drop_first() =~= slots);
    }
}

/// Ownership: constructing an instance and then deleting its tagged
/// address reclaims exactly that allocation — the arena returns to its
/// prior live set, and the address cannot be reclaimed a second time.
/// Deleting a null address never changes anything; that is the only
/// address for which delete is idempotent by design.
pub proof fn lemma_ownership(a: ArenaModel, tag: Seq<char>)
    requires
        arena_wf(a),
        a.next < u64::MAX,
    ensures
        ({
            let addr = a.next;
            let lively = a.slots.push(SlotModel { addr, tag });
            &&& spec_reclaim(lively, addr, tag) == a.slots
            &&& !has_slot(spec_reclaim(lively, addr, tag), addr, tag)
        }),
{
    let addr = a.next;
    assert(!has_slot(a.slots, addr, tag)) by {
        if has_slot(a.slots, addr, tag) {
            let i = choose|i: int|
                0 <= i < a.slots.len() && a.slots[i].addr == addr && a.slots[i].tag == tag;
            assert(a.slots[i].addr < a.next);
        }
    }
    lemma_reclaim_fresh(a.slots, addr, tag);
}

} // verus!
