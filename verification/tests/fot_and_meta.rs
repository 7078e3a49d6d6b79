use twizzler_rt_abi::create::ObjectCreate;
use twizzler_rt_abi::error::GenericError;
use twizzler_rt_abi::error::ObjectError;
use twizzler_rt_abi::error::TwzError;
use twizzler_rt_abi::fot::FotEntry;
use twizzler_rt_abi::fot::FotTable;
use twizzler_rt_abi::fot::FOT_FLAG_ACTIVE;
use twizzler_rt_abi::fot::FOT_FLAG_ALLOCATED;
use twizzler_rt_abi::fot::FOT_FLAG_DELETED;
use twizzler_rt_abi::fot::FOT_FLAG_RESOLVER;
use twizzler_rt_abi::object::MapFlags;
use twizzler_rt_abi::object::MetaExt;
use twizzler_rt_abi::object::MetaExtTag;
use twizzler_rt_abi::object::ObjID;
use twizzler_rt_abi::object::MEXT_EMPTY_TAG;
use twizzler_rt_abi::object::MEXT_SIZED_TAG;
use twizzler_rt_abi::runtime::Runtime;

fn entry_to(id: ObjID) -> FotEntry {
    let parts = id.parts();
    FotEntry { val_hi: parts[0], val_lo: parts[1], resolver: 0, flags: 0 }
}

fn runtime_with_objects(ids: &[u128]) -> Runtime {
    let mut rt = Runtime::new();
    for id in ids {
        rt.create_object(ObjID::new(*id), &ObjectCreate::default(), 4).unwrap();
    }
    rt
}

#[test]
fn table_inserts_yield_increasing_indices() {
    let mut table = FotTable::new();
    assert_eq!(table.len(), 0);
    for k in 0u32..16 {
        let idx = table.insert(k as u64, 2 * k as u64, 0, false);
        assert_eq!(idx, k);
    }
    assert_eq!(table.len(), 16);
    // No entry moved: each index still names the entry it was assigned.
    for k in 0usize..16 {
        let e = table.entry(k);
        assert_eq!(e.val_hi, k as u64);
        assert_eq!(e.val_lo, 2 * k as u64);
        assert_eq!(e.flags, FOT_FLAG_ALLOCATED);
    }
}

#[test]
fn table_entry_state_machine() {
    let mut table = FotTable::new();
    let idx = table.insert(1, 2, 0, false) as usize;
    assert_eq!(table.entry(idx).flags, FOT_FLAG_ALLOCATED);
    table.activate(idx);
    assert_eq!(table.entry(idx).flags, FOT_FLAG_ALLOCATED | FOT_FLAG_ACTIVE);
    table.mark_deleted(idx);
    assert_eq!(
        table.entry(idx).flags,
        FOT_FLAG_ALLOCATED | FOT_FLAG_ACTIVE | FOT_FLAG_DELETED
    );
    let custom = table.insert(7, 8, 9, true) as usize;
    assert_eq!(table.entry(custom).flags, FOT_FLAG_ALLOCATED | FOT_FLAG_RESOLVER);
}

#[test]
fn insert_fot_assigns_increasing_indices_and_counts() {
    let mut rt = runtime_with_objects(&[1, 2, 3, 4]);
    let h = rt.map_object(ObjID::new(1), MapFlags::read_write_volatile()).unwrap();
    for (k, target) in [2u128, 3, 4].iter().enumerate() {
        let idx = rt.insert_fot(&h, entry_to(ObjID::new(*target))).unwrap();
        assert_eq!(idx as usize, k);
    }
    let meta = h.meta_info(&rt).unwrap();
    assert_eq!(meta.fotcount, 3);
}

#[test]
fn insert_fot_on_unknown_object_fails() {
    let mut rt = runtime_with_objects(&[1]);
    let h = rt.map_object(ObjID::new(1), MapFlags::read_write_volatile()).unwrap();
    let stray = twizzler_rt_abi::object::ObjectHandle::new(
        ObjID::new(9),
        None,
        0,
        0,
        MapFlags::empty(),
        0,
    );
    let r = rt.insert_fot(&stray, entry_to(ObjID::new(1)));
    assert_eq!(r, Err(TwzError::Object(ObjectError::NoSuchObject)));
    assert_eq!(h.meta_info(&rt).unwrap().fotcount, 0);
}

#[test]
fn resolve_fot_maps_the_referenced_object() {
    let mut rt = runtime_with_objects(&[1, 2]);
    let h = rt.map_object(ObjID::new(1), MapFlags::read_write_volatile()).unwrap();
    let idx = rt.insert_fot(&h, entry_to(ObjID::new(2))).unwrap();
    let h2 = rt.resolve_fot(&h, idx as u64).expect("live entry");
    assert_eq!(h2.id(), ObjID::new(2));
    assert_eq!(h2.map_flags(), h.map_flags());
    assert_eq!(rt.ref_count(&h2), Some(1));
}

#[test]
fn scenario_resolve_index_beyond_the_table() {
    let mut rt = runtime_with_objects(&[1, 2, 3, 4]);
    let h = rt.map_object(ObjID::new(1), MapFlags::read_write_volatile()).unwrap();
    for target in [2u128, 3, 4] {
        rt.insert_fot(&h, entry_to(ObjID::new(target))).unwrap();
    }
    // The table has three entries; index 5 names none.
    let r = rt.resolve_fot(&h, 5);
    assert_eq!(r, Err(TwzError::Object(ObjectError::InvalidFote)));
}

#[test]
fn resolve_deleted_entry_reports_invalid_entry() {
    let mut rt = runtime_with_objects(&[1, 2, 3]);
    let h = rt.map_object(ObjID::new(1), MapFlags::read_write_volatile()).unwrap();
    let i2 = rt.insert_fot(&h, entry_to(ObjID::new(2))).unwrap();
    let i3 = rt.insert_fot(&h, entry_to(ObjID::new(3))).unwrap();
    rt.delete_fot(&h, i2 as u64).expect("active entry");
    // The deleted index reports an object-category error, and deleting it
    // again names no active entry.
    let r = rt.resolve_fot(&h, i2 as u64);
    assert_eq!(r, Err(TwzError::Object(ObjectError::InvalidFote)));
    assert_eq!(
        rt.delete_fot(&h, i2 as u64),
        Err(TwzError::Object(ObjectError::InvalidFote))
    );
    // Deleting one entry moved no other: the second still resolves.
    let h3 = rt.resolve_fot(&h, i3 as u64).expect("still live");
    assert_eq!(h3.id(), ObjID::new(3));
}

#[test]
fn resolve_custom_resolver_entry_is_not_supported() {
    let mut rt = runtime_with_objects(&[1]);
    let h = rt.map_object(ObjID::new(1), MapFlags::read_write_volatile()).unwrap();
    let entry = FotEntry { val_hi: 0xaaa, val_lo: 0xbbb, resolver: 42, flags: FOT_FLAG_RESOLVER };
    let idx = rt.insert_fot(&h, entry).unwrap();
    let r = rt.resolve_fot(&h, idx as u64);
    assert_eq!(r, Err(TwzError::Generic(GenericError::NotSupported)));
}

#[test]
fn resolve_to_a_vanished_object_fails() {
    let mut rt = runtime_with_objects(&[1]);
    let h = rt.map_object(ObjID::new(1), MapFlags::read_write_volatile()).unwrap();
    let idx = rt.insert_fot(&h, entry_to(ObjID::new(17))).unwrap();
    let r = rt.resolve_fot(&h, idx as u64);
    assert_eq!(r, Err(TwzError::Object(ObjectError::NoSuchObject)));
}

#[test]
fn find_meta_ext_returns_the_first_match() {
    let mut rt = runtime_with_objects(&[1]);
    let h = rt.map_object(ObjID::new(1), MapFlags::read_write_volatile()).unwrap();
    rt.push_meta_ext(ObjID::new(1), MetaExt { tag: MetaExtTag(MEXT_SIZED_TAG), value: 100 })
        .unwrap();
    rt.push_meta_ext(ObjID::new(1), MetaExt { tag: MetaExtTag(7), value: 200 }).unwrap();
    rt.push_meta_ext(ObjID::new(1), MetaExt { tag: MetaExtTag(MEXT_SIZED_TAG), value: 300 })
        .unwrap();

    let found = h.find_meta_ext(&rt, MetaExtTag(MEXT_SIZED_TAG)).expect("tag present");
    assert_eq!(found.value, 100);
    let found = h.find_meta_ext(&rt, MetaExtTag(7)).expect("tag present");
    assert_eq!(found.value, 200);
    assert_eq!(h.find_meta_ext(&rt, MetaExtTag(MEXT_EMPTY_TAG)), None);
    assert_eq!(h.meta_info(&rt).unwrap().extcount, 3);
    let exts = h.meta_exts(&rt).unwrap();
    assert_eq!(exts.len(), 3);
    assert_eq!(exts[1].value, 200);
}

#[test]
fn meta_info_mirrors_the_creation_specification() {
    let mut rt = Runtime::new();
    let mut create = ObjectCreate::default();
    create.kuid = ObjID::new(0x99);
    create.def_prot = twizzler_rt_abi::create::Protections::from_bits_truncate(
        twizzler_rt_abi::create::PROT_READ,
    );
    rt.create_object(ObjID::new(1), &create, 4).unwrap();
    let h = rt.map_object(ObjID::new(1), MapFlags::read_only_indirect()).unwrap();
    let meta = h.meta_info(&rt).unwrap();
    assert_eq!(meta.kuid, ObjID::new(0x99));
    assert_eq!(meta.def_prot.bits, twizzler_rt_abi::create::PROT_READ);
    assert_eq!(meta.fotcount, 0);
    assert_eq!(meta.extcount, 0);
}

#[test]
fn insert_fot_reports_a_full_table() {
    let mut rt = runtime_with_objects(&[1]);
    let h = rt.map_object(ObjID::new(1), MapFlags::read_write_volatile()).unwrap();
    // The metadata header counts entries in 16 bits; fill the table.
    for _ in 0..0xffff {
        rt.insert_fot(&h, entry_to(ObjID::new(2))).unwrap();
    }
    assert_eq!(h.meta_info(&rt).unwrap().fotcount, 0xffff);
    let r = rt.insert_fot(&h, entry_to(ObjID::new(2)));
    assert_eq!(
        r,
        Err(TwzError::Resource(
            twizzler_rt_abi::error::ResourceError::OutOfResources
        ))
    );
    assert_eq!(h.meta_info(&rt).unwrap().fotcount, 0xffff);
}
