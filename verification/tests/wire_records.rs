use twizzler_rt_abi::error::ObjectError;
use twizzler_rt_abi::error::ResourceError;
use twizzler_rt_abi::error::TwzError;
use twizzler_rt_abi::object::MapFlags;
use twizzler_rt_abi::object::MapResult;
use twizzler_rt_abi::object::ObjID;
use twizzler_rt_abi::object::ObjectHandle;
use twizzler_rt_abi::object::RawObjectHandle;
use twizzler_rt_abi::object::U32Result;

fn sample_handle() -> ObjectHandle {
    ObjectHandle::new(
        ObjID::new(0xabc),
        Some(3),
        0x4000_0000,
        0x7fff_f000,
        MapFlags::read_write_persist(),
        8 * 0x1000,
    )
}

#[test]
fn handle_raw_record_round_trip() {
    let h = sample_handle();
    let raw = sample_handle().into_raw();
    assert_eq!(raw.id, ObjID::new(0xabc));
    assert_eq!(raw.runtime_info, Some(3));
    assert_eq!(raw.start, 0x4000_0000);
    assert_eq!(raw.meta, 0x7fff_f000);
    assert_eq!(raw.map_flags, MapFlags::read_write_persist().bits());
    assert_eq!(raw.valid_len, 8);
    assert_eq!(ObjectHandle::from_raw(raw), h);
}

#[test]
fn from_raw_discards_undefined_flag_bits() {
    let raw = RawObjectHandle {
        id: ObjID::new(1),
        runtime_info: None,
        start: 0,
        meta: 0,
        map_flags: 0xffff_ff03,
        valid_len: 1,
    };
    assert_eq!(ObjectHandle::from_raw(raw).map_flags().bits(), 0x3);
}

#[test]
fn default_raw_handle_is_all_absent() {
    let raw = RawObjectHandle::default();
    assert_eq!(raw.id, ObjID::new(0));
    assert_eq!(raw.runtime_info, None);
    assert_eq!(raw.start, 0);
    assert_eq!(raw.meta, 0);
    assert_eq!(raw.map_flags, 0);
    assert_eq!(raw.valid_len, 0);
}

#[test]
fn map_result_embeds_success() {
    let r = MapResult::from_result(Ok(sample_handle()));
    assert_eq!(r.error, 0);
    assert_eq!(r.handle.id, ObjID::new(0xabc));
    assert_eq!(r.into_result(), Ok(sample_handle()));
}

#[test]
fn map_result_embeds_the_error_word() {
    let e = TwzError::Object(ObjectError::MapFailed);
    let r = MapResult::from_result(Err(e));
    assert_eq!(r.error, e.raw());
    assert_eq!(r.handle.id, ObjID::new(0));
    assert_eq!(r.handle.runtime_info, None);
    assert_eq!(r.into_result(), Err(e));
}

#[test]
fn u32_result_round_trips_both_outcomes() {
    let ok = U32Result::from_result(Ok(77));
    assert_eq!(ok.val, 77);
    assert_eq!(ok.err, 0);
    assert_eq!(ok.into_result(), Ok(77));

    let e = TwzError::Resource(ResourceError::OutOfResources);
    let err = U32Result::from_result(Err(e));
    assert_eq!(err.val, 0);
    assert_eq!(err.err, e.raw());
    assert_eq!(err.into_result(), Err(e));
}
