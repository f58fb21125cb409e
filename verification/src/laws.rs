use crate::{grown, mem_index, same_slot, valid_addr, MemoryMap};
use vstd::prelude::*;

verus! {

/// The register file always has exactly 32 slots, whatever has been done
/// to the map.
pub proof fn lemma_register_file_len<V: Clone>(m: MemoryMap<V>)
    ensures
        m.regs().len() == 32,
{
}

/// Disjointness of the stores: writing the slot at one address leaves the
/// slot at every other valid address unchanged. In particular a register
/// write never affects a memory address and a memory write never affects a
/// register. `m2` is any map that writing `s` at `addr` can leave behind.
pub proof fn lemma_store_disjoint<V: Clone>(
    m1: MemoryMap<V>,
    m2: MemoryMap<V>,
    addr: u32,
    s: Option<V>,
    other: u32,
)
    requires
        valid_addr(addr),
        valid_addr(other),
        !same_slot(addr, other),
        m2.regs() == m1.regs_after(addr, s),
        m2.mem() == m1.mem_after(addr, s),
    ensures
        m2.slot(other) == m1.slot(other),
{
    lemma_register_file_len(m1);
}

/// Growth monotonicity: writing `v` at a memory address with translated
/// index `i` leaves the memory at least `i + 1` long and never shorter than
/// before; every other slot that already existed keeps its value, and every
/// slot the growth appended is absent. `m2` is any map that the write can
/// leave behind.
pub proof fn lemma_growth_monotone<V: Clone>(m1: MemoryMap<V>, m2: MemoryMap<V>, addr: u32, v: V)
    requires
        crate::is_mem_addr(addr),
        m2.mem() == m1.mem_after(addr, Some(v)),
    ensures
        m2.mem().len() >= mem_index(addr) + 1,
        m2.mem().len() >= m1.mem().len(),
        m2.mem()[mem_index(addr)] == Some(v),
        forall|j: int|
            0 <= j < m1.mem().len() && j != mem_index(addr) ==> m2.mem()[j] == m1.mem()[j],
        forall|j: int|
            m1.mem().len() <= j < m2.mem().len() && j != mem_index(addr) ==> m2.mem()[j] is None,
{
}

/// Entry equivalence: `entry(addr)` followed by `or_insert(v)` is
/// observationally equivalent to "if `get(addr)` is absent, `insert(addr,
/// v)`; then `get_mut(addr)`". `mi` is the map after that conditional
/// insert; the borrow either path hands out sees the same value, and once
/// the caller leaves `w` behind through it, both paths leave the same two
/// stores behind.
pub proof fn lemma_entry_or_insert_equiv<V: Clone>(
    m: MemoryMap<V>,
    mi: MemoryMap<V>,
    addr: u32,
    v: V,
    w: V,
)
    requires
        valid_addr(addr),
        mi.regs() == (if m.slot(addr) is None {
            m.regs_after(addr, Some(v))
        } else {
            m.regs()
        }),
        mi.mem() == (if m.slot(addr) is None {
            m.mem_after(addr, Some(v))
        } else {
            m.mem()
        }),
    ensures
        mi.slot(addr) == Some(
            if m.slot(addr) is Some {
                m.slot(addr).unwrap()
            } else {
                v
            },
        ),
        mi.regs_after(addr, Some(w)) == m.regs_after(addr, Some(w)),
        mi.mem_after(addr, Some(w)) == m.mem_after(addr, Some(w)),
{
    lemma_register_file_len(m);
    if m.slot(addr) is None {
        assert(mi.regs_after(addr, Some(w)) =~= m.regs_after(addr, Some(w)));
        if crate::is_mem_addr(addr) {
            let i = mem_index(addr);
            assert(grown(mi.mem(), i) =~= mi.mem());
            assert(mi.mem_after(addr, Some(w)) =~= m.mem_after(addr, Some(w)));
        }
    }
}

} // verus!
