use twizzler_rt_abi::create::ObjectCreate;
use twizzler_rt_abi::error::ObjectError;
use twizzler_rt_abi::error::TwzError;
use twizzler_rt_abi::object::MapFlags;
use twizzler_rt_abi::object::ObjID;
use twizzler_rt_abi::object::MAP_FLAG_R;
use twizzler_rt_abi::object::MAP_FLAG_W;
use twizzler_rt_abi::runtime::Runtime;
use twizzler_rt_abi::runtime::META_OFFSET;
use twizzler_rt_abi::runtime::SLOT_BYTES;

fn runtime_with_object(id: u128, len_units: u32) -> Runtime {
    let mut rt = Runtime::new();
    rt.create_object(ObjID::new(id), &ObjectCreate::default(), len_units)
        .expect("fresh id");
    rt
}

#[test]
fn scenario_map_clone_three_times_drop_four() {
    // Map object ID 0x00..01 with {Read, Write}: success, a handle with
    // those two flags, zero FOT entries and extension records.
    let mut rt = runtime_with_object(1, 4);
    let rw = MapFlags::from_bits_truncate(MAP_FLAG_R | MAP_FLAG_W);
    let h = rt.map_object(ObjID::new(1), rw).expect("object exists");
    assert_eq!(h.id(), ObjID::new(1));
    assert!(h.map_flags().contains(MapFlags::from_bits_truncate(MAP_FLAG_R)));
    assert!(h.map_flags().contains(MapFlags::from_bits_truncate(MAP_FLAG_W)));
    assert_eq!(h.map_flags().bits(), MAP_FLAG_R | MAP_FLAG_W);
    let meta = h.meta_info(&rt).expect("object exists");
    assert_eq!(meta.fotcount, 0);
    assert_eq!(meta.extcount, 0);

    // Clone it three times: four references in total.
    assert_eq!(rt.ref_count(&h), Some(1));
    let c1 = rt.clone_handle(&h);
    let c2 = rt.clone_handle(&h);
    let c3 = rt.clone_handle(&c1);
    assert_eq!(rt.ref_count(&h), Some(4));
    assert_eq!(c1, h);
    assert_eq!(c3, h);

    // Dropping all four triggers exactly one release, at the last drop and
    // never before.
    rt.drop_handle(c2);
    assert_eq!(rt.release_log.len(), 0);
    rt.drop_handle(c3);
    assert_eq!(rt.release_log.len(), 0);
    rt.drop_handle(h);
    assert_eq!(rt.release_log.len(), 0);
    rt.drop_handle(c1);
    assert_eq!(rt.release_log.len(), 1);
    assert_eq!(rt.release_log[0], ObjID::new(1));
}

#[test]
fn non_owning_handle_never_touches_shared_state() {
    let mut rt = runtime_with_object(1, 4);
    let owned = rt.map_object(ObjID::new(1), MapFlags::read_write_volatile()).unwrap();

    // A handle whose control region is absent.
    let unsafe_handle = twizzler_rt_abi::object::ObjectHandle::new(
        ObjID::new(1),
        None,
        owned.start(),
        owned.meta(),
        owned.map_flags(),
        owned.valid_len(),
    );
    assert_eq!(unsafe_handle.runtime_info(), None);
    assert_eq!(rt.ref_count(&unsafe_handle), None);

    let copy = rt.clone_handle(&unsafe_handle);
    assert_eq!(copy, unsafe_handle);
    // Cloning did not touch the owned mapping's counter.
    assert_eq!(rt.ref_count(&owned), Some(1));
    rt.drop_handle(copy);
    rt.drop_handle(unsafe_handle);
    // Dropping triggered no release.
    assert_eq!(rt.release_log.len(), 0);
    assert_eq!(rt.ref_count(&owned), Some(1));
}

#[test]
fn map_unknown_object_fails_without_a_handle() {
    let mut rt = runtime_with_object(1, 4);
    let r = rt.map_object(ObjID::new(2), MapFlags::read_write_volatile());
    assert_eq!(r, Err(TwzError::Object(ObjectError::NoSuchObject)));
    assert_eq!(rt.regions.len(), 0);
}

#[test]
fn valid_len_counts_length_units_in_bytes() {
    let mut rt = runtime_with_object(1, 3);
    let h = rt.map_object(ObjID::new(1), MapFlags::read_only_indirect()).unwrap();
    assert_eq!(h.valid_len(), 3 * 0x1000);
    assert_eq!(h.start(), SLOT_BYTES);
    // The metadata block sits at the top of the mapping's slot.
    assert_eq!(h.meta(), h.start() + META_OFFSET);
    assert_eq!(h.meta(), 2 * SLOT_BYTES - 0x1000);
}

#[test]
fn update_handle_refreshes_the_length_in_place() {
    let mut rt = runtime_with_object(1, 2);
    let mut h = rt.map_object(ObjID::new(1), MapFlags::read_write_volatile()).unwrap();
    assert_eq!(h.valid_len(), 2 * 0x1000);

    rt.resize_object(ObjID::new(1), 8).expect("object exists");
    // The handle keeps its old length until refreshed.
    assert_eq!(h.valid_len(), 2 * 0x1000);
    rt.update_handle(&mut h).expect("object exists");
    assert_eq!(h.valid_len(), 8 * 0x1000);
}

#[test]
fn update_handle_leaves_the_handle_unchanged_on_failure() {
    let mut rt = runtime_with_object(1, 2);
    let h = rt.map_object(ObjID::new(1), MapFlags::read_write_volatile()).unwrap();
    let mut stray = twizzler_rt_abi::object::ObjectHandle::new(
        ObjID::new(9),
        None,
        h.start(),
        h.meta(),
        h.map_flags(),
        h.valid_len(),
    );
    let r = rt.update_handle(&mut stray);
    assert_eq!(r, Err(TwzError::Object(ObjectError::NoSuchObject)));
    assert_eq!(stray.id(), ObjID::new(9));
    assert_eq!(stray.valid_len(), h.valid_len());
}

#[test]
fn resize_unknown_object_fails() {
    let mut rt = Runtime::new();
    assert_eq!(
        rt.resize_object(ObjID::new(3), 1),
        Err(TwzError::Object(ObjectError::NoSuchObject))
    );
}

#[test]
fn get_object_handle_finds_the_covering_mapping() {
    let mut rt = runtime_with_object(1, 4);
    rt.create_object(ObjID::new(2), &ObjectCreate::default(), 4).unwrap();
    let h1 = rt.map_object(ObjID::new(1), MapFlags::read_write_volatile()).unwrap();
    let h2 = rt.map_object(ObjID::new(2), MapFlags::read_only_indirect()).unwrap();

    // An address in the middle of the second mapping.
    let found = rt.get_object_handle(h2.start() + 0x1234).expect("covered");
    assert_eq!(found.id(), ObjID::new(2));
    assert_eq!(found.start(), h2.start());
    assert_eq!(found.map_flags(), h2.map_flags());
    // The lookup handed out an owning handle: the count went up.
    assert_eq!(rt.ref_count(&h2), Some(2));
    assert_eq!(rt.ref_count(&h1), Some(1));
    rt.drop_handle(found);
    assert_eq!(rt.ref_count(&h2), Some(1));
}

#[test]
fn get_object_handle_reports_absence_as_not_mapped() {
    let mut rt = runtime_with_object(1, 4);
    let h = rt.map_object(ObjID::new(1), MapFlags::read_write_volatile()).unwrap();
    // One past the end of the only mapping.
    let r = rt.get_object_handle(h.start() + 4 * 0x1000);
    assert_eq!(r, Err(TwzError::Object(ObjectError::NotMapped)));
    // A released mapping no longer covers its span.
    rt.drop_handle(h);
    let r = rt.get_object_handle(SLOT_BYTES);
    assert_eq!(r, Err(TwzError::Object(ObjectError::NotMapped)));
}

#[test]
fn map_two_objects_maps_both_in_order() {
    let mut rt = runtime_with_object(1, 4);
    rt.create_object(ObjID::new(2), &ObjectCreate::default(), 2).unwrap();
    let (h1, h2) = rt
        .map_two_objects(
            ObjID::new(1),
            MapFlags::read_write_volatile(),
            ObjID::new(2),
            MapFlags::read_only_indirect(),
        )
        .expect("both exist");
    assert_eq!(h1.id(), ObjID::new(1));
    assert_eq!(h2.id(), ObjID::new(2));
    assert_eq!(rt.ref_count(&h1), Some(1));
    assert_eq!(rt.ref_count(&h2), Some(1));
    assert_eq!(rt.release_log.len(), 0);
}

#[test]
fn map_two_objects_releases_the_first_when_the_second_fails() {
    let mut rt = runtime_with_object(1, 4);
    let r = rt.map_two_objects(
        ObjID::new(1),
        MapFlags::read_write_volatile(),
        ObjID::new(2),
        MapFlags::read_only_indirect(),
    );
    assert_eq!(r, Err(TwzError::Object(ObjectError::NoSuchObject)));
    // The first mapping was made and released again: exactly one release.
    assert_eq!(rt.release_log.len(), 1);
    assert_eq!(rt.release_log[0], ObjID::new(1));
    assert_eq!(rt.regions.len(), 1);
    assert_eq!(rt.regions[0].count, 0);
}

#[test]
fn create_object_refuses_a_taken_id() {
    let mut rt = runtime_with_object(1, 4);
    let r = rt.create_object(ObjID::new(1), &ObjectCreate::default(), 9);
    assert_eq!(
        r,
        Err(TwzError::Naming(twizzler_rt_abi::error::NamingError::AlreadyExists))
    );
    assert_eq!(rt.objects.len(), 1);
}
