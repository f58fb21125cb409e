pub mod entry;
pub mod laws;

use vstd::prelude::*;

verus! {

/// Base of the word-addressable data-memory range.
pub const MEM_BASE: u32 = 0x10000;

/// Number of slots in the register file.
pub const REG_COUNT: u32 = 32;

/// Default number of memory slots a map starts with.
pub const DEFAULT_MEM_SLOTS: usize = 0x100000;

/// True for addresses that fall in the register file.
pub open spec fn is_reg_addr(addr: u32) -> bool {
    addr < REG_COUNT
}

/// True for addresses that fall in the data-memory range.
pub open spec fn is_mem_addr(addr: u32) -> bool {
    addr >= MEM_BASE
}

/// The two address ranges the map serves; addresses between the register
/// file and `MEM_BASE` have no slot.
pub open spec fn valid_addr(addr: u32) -> bool {
    is_reg_addr(addr) || is_mem_addr(addr)
}

/// Position of a memory address within the data-memory sequence: one slot
/// per word, so the low two bits of the address are discarded.
pub open spec fn mem_index(addr: u32) -> int
    recommends
        is_mem_addr(addr),
{
    (addr - MEM_BASE) / 4
}

/// Two valid addresses denote the same slot: the same register, or memory
/// addresses that land on the same word.
pub open spec fn same_slot(a1: u32, a2: u32) -> bool {
    (is_reg_addr(a1) && is_reg_addr(a2) && a1 == a2) || (is_mem_addr(a1) && is_mem_addr(a2)
        && mem_index(a1) == mem_index(a2))
}

/// The memory sequence extended with absent slots until index `i` exists;
/// unchanged when it already does.
pub open spec fn grown<V>(mem: Seq<Option<V>>, i: int) -> Seq<Option<V>> {
    if i < mem.len() {
        mem
    } else {
        mem + Seq::new((i + 1 - mem.len()) as nat, |j: int| None::<V>)
    }
}

/// Sparse address-keyed store for an emulator: a fixed register file for
/// addresses below `REG_COUNT` and a growable word-indexed memory for
/// addresses at or above `MEM_BASE`.
#[derive(Clone, Debug)]
pub struct MemoryMap<V: Clone> {
    /// Register values (addresses 0..32).
    pub registers: [Option<V>; 32],
    /// Memory values, indexed by `(addr - MEM_BASE) >> 2`.
    pub(crate) memory: Vec<Option<V>>,
}

impl<V: Clone> MemoryMap<V> {
    /// The register file as a sequence of 32 slots.
    pub closed spec fn regs(self) -> Seq<Option<V>> {
        self.registers@
    }

    /// The data memory as a sequence of slots.
    pub closed spec fn mem(self) -> Seq<Option<V>> {
        self.memory@
    }

    /// The slot a valid address denotes: a register below `REG_COUNT`, a
    /// memory word at or above `MEM_BASE`, absent when the word lies past
    /// the end of the memory sequence.
    pub open spec fn slot(self, addr: u32) -> Option<V>
        recommends
            valid_addr(addr),
    {
        if is_reg_addr(addr) {
            self.regs()[addr as int]
        } else if mem_index(addr) < self.mem().len() {
            self.mem()[mem_index(addr)]
        } else {
            None
        }
    }

    /// The register file after the slot at `addr` is set to `s`; unchanged
    /// for memory addresses.
    pub open spec fn regs_after(self, addr: u32, s: Option<V>) -> Seq<Option<V>>
        recommends
            valid_addr(addr),
    {
        if is_reg_addr(addr) {
            self.regs().update(addr as int, s)
        } else {
            self.regs()
        }
    }

    /// The data memory after the slot at `addr` is set to `s`, growing
    /// first so the word exists; unchanged for register addresses.
    pub open spec fn mem_after(self, addr: u32, s: Option<V>) -> Seq<Option<V>>
        recommends
            valid_addr(addr),
    {
        if is_mem_addr(addr) {
            grown(self.mem(), mem_index(addr)).update(mem_index(addr), s)
        } else {
            self.mem()
        }
    }

    /// Creates a map with the default memory length and every slot absent.
    pub fn new() -> (r: Self)
        ensures
            r.regs() == Seq::new(REG_COUNT as nat, |i: int| None::<V>),
            r.mem() == Seq::new(DEFAULT_MEM_SLOTS as nat, |i: int| None::<V>),
    {
        Self::with_capacity(DEFAULT_MEM_SLOTS)
    }

    /// Creates a map whose memory holds exactly `capacity` absent slots.
    pub fn with_capacity(capacity: usize) -> (r: Self)
        ensures
            r.regs() == Seq::new(REG_COUNT as nat, |i: int| None::<V>),
            r.mem() == Seq::new(capacity as nat, |i: int| None::<V>),
    {
        let mut memory: Vec<Option<V>> = Vec::new();
        let mut k: usize = 0;
        while k < capacity
            invariant
                k <= capacity,
                memory@ =~= Seq::new(k as nat, |i: int| None::<V>),
            decreases capacity - k,
        {
            memory.push(None);
            k += 1;
        }
        let registers: [Option<V>; 32] = [
            None, None, None, None, None, None, None, None,
            None, None, None, None, None, None, None, None,
            None, None, None, None, None, None, None, None,
            None, None, None, None, None, None, None, None,
        ];
        proof {
            assert(registers@ =~= Seq::new(REG_COUNT as nat, |i: int| None::<V>));
            assert(memory@ =~= Seq::new(capacity as nat, |i: int| None::<V>));
        }
        Self { memory, registers }
    }

    /// Maps an address to its position in the store it belongs to.
    pub(crate) fn translate_addr(addr: u32) -> (r: u32)
        requires
            valid_addr(addr),
        ensures
            is_reg_addr(addr) ==> r == addr,
            is_mem_addr(addr) ==> r == mem_index(addr),
    {
        if addr < 32 {
            return addr;
        }
        let d: u32 = addr - 0x10000;
        proof {
            assert(d >> 2 == d / 4) by (bit_vector);
        }
        d >> 2
    }

    /// Gets a reference to the value at the given address, or `None` when
    /// the slot is absent or its word lies past the end of memory.
    pub fn get(&self, addr: &u32) -> (r: Option<&V>)
        requires
            valid_addr(*addr),
        ensures
            (match r {
                Some(v) => self.slot(*addr) == Some(*v),
                None => self.slot(*addr) is None,
            }),
    {
        if *addr < 32 {
            return self.registers[*addr as usize].as_ref();
        }
        let idx = Self::translate_addr(*addr) as usize;
        if idx < self.memory.len() {
            self.memory[idx].as_ref()
        } else {
            None
        }
    }

    /// Gets a mutable reference to the value at the given address; never
    /// grows the memory.
    pub fn get_mut(&mut self, addr: &u32) -> (r: Option<&mut V>)
        requires
            valid_addr(*addr),
        ensures
            (match r {
                Some(v) => old(self).slot(*addr) == Some(*v) && final(self).regs() == old(
                    self,
                ).regs_after(*addr, Some(*final(v))) && final(self).mem() == old(self).mem_after(
                    *addr,
                    Some(*final(v)),
                ),
                None => old(self).slot(*addr) is None && final(self).regs() == old(self).regs()
                    && final(self).mem() == old(self).mem(),
            }),
            final(self).mem().len() == old(self).mem().len(),
    {
        if *addr < 32 {
            if self.registers[*addr as usize].is_some() {
                return self.registers[*addr as usize].as_mut();
            }
            return None;
        }
        let idx = Self::translate_addr(*addr) as usize;
        if idx < self.memory.len() {
            if self.memory[idx].is_some() {
                return self.memory[idx].as_mut();
            }
            None
        } else {
            None
        }
    }

    /// Stores `value` at the given address and returns the slot's prior
    /// value, growing the memory so the addressed word exists.
    pub fn insert(&mut self, addr: u32, value: V) -> (prior: Option<V>)
        requires
            valid_addr(addr),
        ensures
            prior == old(self).slot(addr),
            final(self).regs() == old(self).regs_after(addr, Some(value)),
            final(self).mem() == old(self).mem_after(addr, Some(value)),
            final(self).slot(addr) == Some(value),
            forall|a: u32|
                valid_addr(a) && !same_slot(addr, a) ==> #[trigger] final(self).slot(a) == old(
                    self,
                ).slot(a),
            final(self).mem().len() >= old(self).mem().len(),
            is_mem_addr(addr) ==> final(self).mem().len() > mem_index(addr),
    {
        if addr < 32 {
            let r = &mut self.registers[addr as usize];
            let prior = r.take();
            *r = Some(value);
            return prior;
        }
        let idx = Self::translate_addr(addr) as usize;
        self.grow_to(idx);
        let r = &mut self.memory[idx];
        let prior = r.take();
        *r = Some(value);
        proof {
            assert(final(self).mem() =~= old(self).mem_after(addr, Some(value)));
        }
        prior
    }

    /// Appends absent slots until the memory has a slot at index `idx`.
    pub(crate) fn grow_to(&mut self, idx: usize)
        ensures
            final(self).regs() == old(self).regs(),
            final(self).mem() == grown(old(self).mem(), idx as int),
            final(self).mem().len() > idx,
    {
        while self.memory.len() <= idx
            invariant
                old(self).mem().len() <= self.memory@.len(),
                self.memory@ =~= old(self).mem() + Seq::new(
                    (self.memory@.len() - old(self).mem().len()) as nat,
                    |j: int| None::<V>,
                ),
                self.memory@.len() <= idx + 1 || self.memory@.len() == old(self).mem().len(),
                self.registers@ == old(self).regs(),
            decreases idx + 1 - self.memory@.len(),
        {
            self.memory.push(None);
        }
        proof {
            assert(final(self).mem() =~= grown(old(self).mem(), idx as int));
        }
    }

    /// Clears the slot at the given address and returns its prior value;
    /// never grows the memory.
    pub fn remove(&mut self, addr: &u32) -> (prior: Option<V>)
        requires
            valid_addr(*addr),
        ensures
            prior == old(self).slot(*addr),
            final(self).regs() == old(self).regs_after(*addr, None),
            final(self).mem() == (if is_mem_addr(*addr) && mem_index(*addr) < old(
                self,
            ).mem().len() {
                old(self).mem().update(mem_index(*addr), None)
            } else {
                old(self).mem()
            }),
            final(self).slot(*addr) is None,
            forall|a: u32|
                valid_addr(a) && !same_slot(*addr, a) ==> #[trigger] final(self).slot(a) == old(
                    self,
                ).slot(a),
            final(self).mem().len() == old(self).mem().len(),
    {
        if *addr < 32 {
            let r = &mut self.registers[*addr as usize];
            return r.take();
        }
        let idx = Self::translate_addr(*addr) as usize;
        if idx < self.memory.len() {
            let r = &mut self.memory[idx];
            r.take()
        } else {
            None
        }
    }

    /// Consumes the map and yields the memory sequence; the register file
    /// is discarded.
    pub fn into_inner(self) -> (r: Vec<Option<V>>)
        ensures
            r@ == self.mem(),
    {
        self.memory
    }
}

impl<V: Clone> Default for MemoryMap<V> {
    /// Same map as `new`: the default memory length, every slot absent.
    fn default() -> (r: Self)
        ensures
            r.regs() == Seq::new(REG_COUNT as nat, |i: int| None::<V>),
            r.mem() == Seq::new(DEFAULT_MEM_SLOTS as nat, |i: int| None::<V>),
    {
        Self::new()
    }
}

} // verus!
