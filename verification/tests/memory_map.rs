use memory_map::entry::MemEntry;
use memory_map::MemoryMap;

#[test]
fn register_insert_then_get() {
    let mut m: MemoryMap<&str> = MemoryMap::new();
    assert_eq!(m.insert(5, "a"), None);
    assert_eq!(m.get(&5), Some(&"a"));
    assert_eq!(m.get(&6), None);
}

#[test]
fn memory_insert_get_remove() {
    let mut m: MemoryMap<u32> = MemoryMap::new();
    assert_eq!(m.insert(0x10000, 7), None);
    assert_eq!(m.insert(0x10004, 8), None);
    assert_eq!(m.get(&0x10000), Some(&7));
    assert_eq!(m.get(&0x10004), Some(&8));
    assert_eq!(m.remove(&0x10000), Some(7));
    assert_eq!(m.get(&0x10000), None);
}

#[test]
fn entry_or_insert_grows_empty_memory() {
    let mut m: MemoryMap<u32> = MemoryMap::with_capacity(0);
    let v = m.entry(0x10000).or_insert(42);
    assert_eq!(*v, 42);
    assert_eq!(m.get(&0x10000), Some(&42));
    let memory = m.into_inner();
    assert!(memory.len() >= 1);
    assert_eq!(memory[0], Some(42));
}

#[test]
fn and_modify_then_or_insert_on_occupied() {
    let mut m: MemoryMap<u32> = MemoryMap::new();
    m.insert(3, 1);
    let v = m.entry(3).and_modify(|x| *x += 10).or_insert(0);
    assert_eq!(*v, 11);
    assert_eq!(m.get(&3), Some(&11));
}

#[test]
fn into_inner_yields_memory_with_trailing_layout() {
    let mut m: MemoryMap<&str> = MemoryMap::new();
    m.insert(0x10008, "x");
    let memory = m.into_inner();
    assert!(memory.len() >= 3);
    assert_eq!(memory[2], Some("x"));
    assert_eq!(memory[0], None);
    assert_eq!(memory[1], None);
}

#[test]
fn all_registers_read_back_and_memory_stays_absent() {
    let mut m: MemoryMap<u32> = MemoryMap::new();
    for i in 0..32u32 {
        m.insert(i, i);
    }
    for i in 0..32u32 {
        assert_eq!(m.get(&i), Some(&i));
    }
    assert_eq!(m.get(&0x10000), None);
}

#[test]
fn register_coverage_round_trip() {
    let mut m: MemoryMap<u64> = MemoryMap::new();
    for a in 0..32u32 {
        m.insert(a, 1000 + a as u64);
        assert_eq!(m.get(&a), Some(&(1000 + a as u64)));
        assert_eq!(m.remove(&a), Some(1000 + a as u64));
        assert_eq!(m.get(&a), None);
    }
}

#[test]
fn memory_coverage_round_trip() {
    let mut m: MemoryMap<u64> = MemoryMap::with_capacity(16);
    for i in 0..16u32 {
        let a = 0x10000 + 4 * i;
        m.insert(a, 7 * i as u64);
        assert_eq!(m.get(&a), Some(&(7 * i as u64)));
        assert_eq!(m.remove(&a), Some(7 * i as u64));
        assert_eq!(m.get(&a), None);
    }
}

#[test]
fn insert_returns_prior_value() {
    let mut m: MemoryMap<u32> = MemoryMap::new();
    for &a in &[4u32, 0x10010] {
        assert_eq!(m.insert(a, 1), None);
        assert_eq!(m.insert(a, 2), Some(1));
        assert_eq!(m.remove(&a), Some(2));
        assert_eq!(m.remove(&a), None);
    }
}

#[test]
fn register_and_memory_stores_are_disjoint() {
    let mut m: MemoryMap<u32> = MemoryMap::new();
    m.insert(5, 1);
    m.insert(0x10014, 2);
    m.insert(5, 3);
    assert_eq!(m.get(&0x10014), Some(&2));
    m.insert(0x10014, 4);
    assert_eq!(m.get(&5), Some(&3));
    m.remove(&5);
    assert_eq!(m.get(&0x10014), Some(&4));
    m.remove(&0x10014);
    assert_eq!(m.get(&5), None);
}

#[test]
fn growth_preserves_earlier_slots() {
    let mut m: MemoryMap<u32> = MemoryMap::with_capacity(1);
    m.insert(0x10000, 1);
    m.insert(0x10020, 9);
    assert_eq!(m.get(&0x10000), Some(&1));
    assert_eq!(m.get(&0x10020), Some(&9));
    let memory = m.into_inner();
    assert!(memory.len() >= 9);
    assert_eq!(memory[0], Some(1));
    assert_eq!(memory[8], Some(9));
}

#[test]
fn entry_or_insert_matches_get_then_insert() {
    for addr in [7u32, 0x10008] {
        for pre in [None, Some(50u32)] {
            let mut via_entry: MemoryMap<u32> = MemoryMap::with_capacity(0);
            let mut via_get: MemoryMap<u32> = MemoryMap::with_capacity(0);
            if let Some(p) = pre {
                via_entry.insert(addr, p);
                via_get.insert(addr, p);
            }
            let a = m_or_insert(&mut via_entry, addr, 9);
            let b = {
                if via_get.get(&addr).is_none() {
                    via_get.insert(addr, 9);
                }
                *via_get.get_mut(&addr).unwrap()
            };
            assert_eq!(a, b);
            for probe in [7u32, 0x10008, 0x1000c, 3] {
                assert_eq!(via_entry.get(&probe), via_get.get(&probe));
            }
        }
    }
}

fn m_or_insert(m: &mut MemoryMap<u32>, addr: u32, v: u32) -> u32 {
    *m.entry(addr).or_insert(v)
}

#[test]
fn or_insert_with_skips_factory_when_occupied() {
    let mut m: MemoryMap<u32> = MemoryMap::new();
    m.insert(0x10000, 5);
    let v = m.entry(0x10000).or_insert_with(|| unreachable!("factory must not run"));
    assert_eq!(*v, 5);
}

#[test]
fn or_insert_with_runs_factory_when_vacant() {
    let mut m: MemoryMap<u32> = MemoryMap::new();
    let v = m.entry(9).or_insert_with(|| 77);
    assert_eq!(*v, 77);
    assert_eq!(m.get(&9), Some(&77));
}

#[test]
fn and_modify_on_vacant_is_a_no_op() {
    let mut m: MemoryMap<u32> = MemoryMap::new();
    let e = m.entry(12).and_modify(|_| panic!("mutator must not run"));
    assert!(matches!(e, MemEntry::Vacant(_)));
    assert_eq!(m.get(&12), None);
    let e2 = m.entry(12).and_modify(|_| panic!("mutator must not run"));
    let v = e2.or_insert(3);
    assert_eq!(*v, 3);
    assert_eq!(m.get(&12), Some(&3));
}

#[test]
fn occupied_handle_get_into_mut_modify() {
    let mut m: MemoryMap<u32> = MemoryMap::new();
    m.insert(2, 40);
    match m.entry(2) {
        MemEntry::Occupied(occ) => {
            assert_eq!(*occ.get(), 40);
            let v = occ.into_mut();
            *v += 1;
        },
        MemEntry::Vacant(_) => panic!("slot must be occupied"),
    }
    assert_eq!(m.get(&2), Some(&41));
    match m.entry(2) {
        MemEntry::Occupied(mut occ) => {
            occ.modify(|x| *x *= 2);
            assert_eq!(*occ.get(), 82);
        },
        MemEntry::Vacant(_) => panic!("slot must be occupied"),
    }
    assert_eq!(m.get(&2), Some(&82));
}

#[test]
fn vacant_handle_insert_returns_borrow() {
    let mut m: MemoryMap<u32> = MemoryMap::with_capacity(0);
    match m.entry(0x10004) {
        MemEntry::Occupied(_) => panic!("slot must be vacant"),
        MemEntry::Vacant(vac) => {
            let v = vac.insert(13);
            assert_eq!(*v, 13);
            *v = 14;
        },
    }
    assert_eq!(m.get(&0x10004), Some(&14));
}

#[test]
fn get_mut_edits_in_place_and_respects_bounds() {
    let mut m: MemoryMap<u32> = MemoryMap::with_capacity(1);
    assert!(m.get_mut(&0x10004).is_none());
    m.insert(0x10000, 6);
    if let Some(v) = m.get_mut(&0x10000) {
        *v = 16;
    }
    assert_eq!(m.get(&0x10000), Some(&16));
    assert!(m.get_mut(&1).is_none());
}

#[test]
fn out_of_range_reads_are_absent_without_growth() {
    let mut m: MemoryMap<u32> = MemoryMap::with_capacity(0);
    assert_eq!(m.get(&0x10000), None);
    assert_eq!(m.remove(&0x10000), None);
    let memory = m.into_inner();
    assert_eq!(memory.len(), 0);
}

#[test]
fn misaligned_memory_addresses_alias_one_word() {
    let mut m: MemoryMap<u32> = MemoryMap::new();
    m.insert(0x10001, 5);
    assert_eq!(m.get(&0x10000), Some(&5));
    assert_eq!(m.get(&0x10002), Some(&5));
    assert_eq!(m.get(&0x10003), Some(&5));
    assert_eq!(m.get(&0x10004), None);
}

#[test]
fn default_map_matches_new() {
    let d: MemoryMap<u32> = Default::default();
    let n: MemoryMap<u32> = MemoryMap::new();
    assert_eq!(d.get(&0), None);
    assert_eq!(d.into_inner().len(), n.into_inner().len());
}

#[test]
fn serialization_round_trip_preserves_slots_and_length() {
    let mut m: MemoryMap<u32> = MemoryMap::with_capacity(5);
    m.insert(0, 10);
    m.insert(31, 20);
    m.insert(0x10004, 30);
    let registers = m.registers.clone();
    let memory = m.into_inner();
    let encoded = serde_json::to_string(&(registers, memory.clone())).unwrap();
    let decoded: ([Option<u32>; 32], Vec<Option<u32>>) = serde_json::from_str(&encoded).unwrap();
    let (regs2, mem2) = decoded;
    assert_eq!(mem2.len(), memory.len());
    let mut m2: MemoryMap<u32> = MemoryMap::with_capacity(mem2.len());
    for a in 0..32u32 {
        if let Some(v) = regs2[a as usize] {
            m2.insert(a, v);
        }
    }
    for (i, s) in mem2.iter().enumerate() {
        if let Some(v) = s {
            m2.insert(0x10000 + 4 * i as u32, *v);
        }
    }
    assert_eq!(m2.get(&0), Some(&10));
    assert_eq!(m2.get(&31), Some(&20));
    assert_eq!(m2.get(&1), None);
    assert_eq!(m2.get(&0x10004), Some(&30));
    assert_eq!(m2.get(&0x10000), None);
    assert_eq!(m2.into_inner().len(), 5);
}
