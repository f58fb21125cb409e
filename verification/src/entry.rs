use crate::{is_mem_addr, mem_index, valid_addr, MemoryMap};
use vstd::prelude::*;

verus! {

/// Handle to the slot at one address, with the translation already done:
/// either occupied (the slot holds a value) or vacant (it does not).
pub enum MemEntry<'a, V> {
    /// The slot holds a value.
    Occupied(MemOccupied<'a, V>),
    /// The slot is absent.
    Vacant(MemVacant<'a, V>),
}

/// Occupied slot handle: an exclusive borrow of the contained value.
pub enum MemOccupied<'a, V> {
    /// The slot is a register.
    Register(&'a mut V),
    /// The slot is a memory word.
    Memory(&'a mut V),
}

/// Vacant slot handle: an exclusive borrow of the empty slot.
pub enum MemVacant<'a, V> {
    /// The slot is a register.
    Register(&'a mut Option<V>),
    /// The slot is a memory word.
    Memory(&'a mut Option<V>),
}

impl<'a, V> MemOccupied<'a, V> {
    /// The borrow of the contained value, whichever store it points into.
    pub closed spec fn value_ref(self) -> &'a mut V {
        match self {
            MemOccupied::Register(r) => r,
            MemOccupied::Memory(r) => r,
        }
    }
}

impl<'a, V> MemVacant<'a, V> {
    /// The borrow of the empty slot, whichever store it points into.
    pub closed spec fn slot_ref(self) -> &'a mut Option<V> {
        match self {
            MemVacant::Register(r) => r,
            MemVacant::Memory(r) => r,
        }
    }
}

impl<'a, V> MemEntry<'a, V> {
    /// Inserts the factory's value when the slot is vacant; either way
    /// yields a mutable borrow of the value now in the slot. The factory is
    /// invoked only on the vacant branch, so it need only be callable then.
    pub fn or_insert_with<F: FnOnce() -> V>(self, default: F) -> (v: &'a mut V)
        requires
            self is Vacant ==> call_requires(default, ()),
        ensures
            (match self {
                MemEntry::Occupied(occ) => *v == *occ.value_ref() && *final(occ.value_ref())
                    == *final(v),
                MemEntry::Vacant(vac) => call_ensures(default, (), *v) && *final(vac.slot_ref())
                    == Some(*final(v)),
            }),
    {
        match self {
            MemEntry::Vacant(vacant) => vacant.insert(default()),
            MemEntry::Occupied(occupied) => occupied.into_mut(),
        }
    }

    /// Inserts `default` when the slot is vacant; either way yields a
    /// mutable borrow of the value now in the slot.
    pub fn or_insert(self, default: V) -> (v: &'a mut V)
        ensures
            (match self {
                MemEntry::Occupied(occ) => *v == *occ.value_ref() && *final(occ.value_ref())
                    == *final(v),
                MemEntry::Vacant(vac) => *v == default && *final(vac.slot_ref()) == Some(
                    *final(v),
                ),
            }),
    {
        let f = move || -> (r: V)
            ensures
                r == default,
            {
                default
            };
        self.or_insert_with(f)
    }

    /// Applies `f` to the contained value when the slot is occupied and
    /// returns the handle; a vacant handle passes through untouched and `f`
    /// is not invoked.
    pub fn and_modify<F: FnOnce(&mut V)>(self, f: F) -> (e: MemEntry<'a, V>)
        requires
            (match self {
                MemEntry::Occupied(occ) => forall|r: &mut V|
                    *r == *occ.value_ref() ==> call_requires(f, (r,)),
                MemEntry::Vacant(_) => true,
            }),
        ensures
            (match (self, e) {
                (MemEntry::Occupied(occ), MemEntry::Occupied(occ2)) => {
                    &&& exists|r: &mut V|
                        call_ensures(f, (r,), ()) && *r == *occ.value_ref() && *occ2.value_ref()
                            == *final(r)
                    &&& *final(occ2.value_ref()) == *final(occ.value_ref())
                },
                (MemEntry::Vacant(vac), MemEntry::Vacant(vac2)) => vac2 == vac,
                _ => false,
            }),
    {
        match self {
            MemEntry::Vacant(vacant) => MemEntry::Vacant(vacant),
            MemEntry::Occupied(occupied) => match occupied {
                MemOccupied::Register(r) => {
                    f(&mut *r);
                    MemEntry::Occupied(MemOccupied::Register(r))
                },
                MemOccupied::Memory(r) => {
                    f(&mut *r);
                    MemEntry::Occupied(MemOccupied::Memory(r))
                },
            },
        }
    }
}

impl<'a, V> MemOccupied<'a, V> {
    /// An immutable observer of the contained value.
    pub fn get(&self) -> (v: &V)
        ensures
            *v == *self.value_ref(),
    {
        match self {
            MemOccupied::Register(v) => v,
            MemOccupied::Memory(v) => v,
        }
    }

    /// Converts the handle into a mutable borrow of the contained value.
    pub fn into_mut(self) -> (v: &'a mut V)
        ensures
            *v == *self.value_ref(),
            *final(v) == *final(self.value_ref()),
    {
        match self {
            MemOccupied::Register(v) => v,
            MemOccupied::Memory(v) => v,
        }
    }

    /// Applies a one-shot mutator to the contained value in place.
    pub fn modify<F: FnOnce(&mut V)>(&mut self, f: F)
        requires
            forall|r: &mut V| *r == *old(self).value_ref() ==> call_requires(f, (r,)),
        ensures
            exists|r: &mut V|
                call_ensures(f, (r,), ()) && *r == *old(self).value_ref()
                    && *final(self).value_ref() == *final(r),
            *final(final(self).value_ref()) == *final(old(self).value_ref()),
    {
        match self {
            MemOccupied::Register(v) => f(v),
            MemOccupied::Memory(v) => f(v),
        }
    }
}

impl<'a, V> MemVacant<'a, V> {
    /// Stores `value` in the empty slot and yields a mutable borrow of the
    /// just-inserted value.
    pub fn insert(self, value: V) -> (v: &'a mut V)
        ensures
            *v == value,
            *final(self.slot_ref()) == Some(*final(v)),
    {
        match self {
            MemVacant::Register(opt) => opt.insert(value),
            MemVacant::Memory(opt) => opt.insert(value),
        }
    }
}

impl<V: Clone> MemoryMap<V> {
    /// Returns a handle to the slot at the given address. For a memory
    /// address the memory first grows so the addressed word exists, so a
    /// just-materialized slot appears as vacant.
    pub fn entry(&mut self, addr: u32) -> (e: MemEntry<'_, V>)
        requires
            valid_addr(addr),
        ensures
            (match e {
                MemEntry::Occupied(occ) => {
                    &&& old(self).slot(addr) == Some(*occ.value_ref())
                    &&& final(self).regs() == old(self).regs_after(
                        addr,
                        Some(*final(occ.value_ref())),
                    )
                    &&& final(self).mem() == old(self).mem_after(
                        addr,
                        Some(*final(occ.value_ref())),
                    )
                },
                MemEntry::Vacant(vac) => {
                    &&& old(self).slot(addr) is None
                    &&& *vac.slot_ref() is None
                    &&& final(self).regs() == old(self).regs_after(addr, *final(vac.slot_ref()))
                    &&& final(self).mem() == old(self).mem_after(addr, *final(vac.slot_ref()))
                },
            }),
            final(self).mem().len() >= old(self).mem().len(),
            is_mem_addr(addr) ==> final(self).mem().len() > mem_index(addr),
    {
        if addr < 32 {
            let reg = &mut self.registers[addr as usize];
            if reg.is_some() {
                let r = reg.as_mut().unwrap();
                return MemEntry::Occupied(MemOccupied::Register(r));
            } else {
                return MemEntry::Vacant(MemVacant::Register(reg));
            }
        }
        let idx = Self::translate_addr(addr) as usize;
        self.grow_to(idx);
        let value = &mut self.memory[idx];
        if value.is_some() {
            let r = value.as_mut().unwrap();
            MemEntry::Occupied(MemOccupied::Memory(r))
        } else {
            MemEntry::Vacant(MemVacant::Memory(value))
        }
    }
}

} // verus!
