use twizzler_rt_abi::error::ArgumentError;
use twizzler_rt_abi::error::ErrorCategory;
use twizzler_rt_abi::error::GenericError;
use twizzler_rt_abi::error::IoError;
use twizzler_rt_abi::error::NamingError;
use twizzler_rt_abi::error::ObjectError;
use twizzler_rt_abi::error::RawTwzError;
use twizzler_rt_abi::error::ResourceError;
use twizzler_rt_abi::error::SecurityError;
use twizzler_rt_abi::error::TwzError;
use twizzler_rt_abi::error::ARGUMENT_ERROR;
use twizzler_rt_abi::error::GENERIC_ERROR;
use twizzler_rt_abi::error::OBJECT_ERROR;
use twizzler_rt_abi::error::OUT_OF_MEMORY;
use twizzler_rt_abi::error::RESOURCE_ERROR;
use twizzler_rt_abi::error::SUCCESS;

fn all_named_errors() -> Vec<TwzError> {
    vec![
        TwzError::Generic(GenericError::Other),
        TwzError::Generic(GenericError::NotSupported),
        TwzError::Generic(GenericError::Internal),
        TwzError::Generic(GenericError::WouldBlock),
        TwzError::Generic(GenericError::TimedOut),
        TwzError::Generic(GenericError::AccessDenied),
        TwzError::Generic(GenericError::NoSuchOperation),
        TwzError::Generic(GenericError::Interrupted),
        TwzError::Generic(GenericError::InProgress),
        TwzError::Argument(ArgumentError::InvalidArgument),
        TwzError::Argument(ArgumentError::WrongType),
        TwzError::Argument(ArgumentError::InvalidAddress),
        TwzError::Argument(ArgumentError::BadHandle),
        TwzError::Resource(ResourceError::OutOfMemory),
        TwzError::Resource(ResourceError::OutOfResources),
        TwzError::Resource(ResourceError::OutOfNames),
        TwzError::Resource(ResourceError::Unavailable),
        TwzError::Resource(ResourceError::Refused),
        TwzError::Resource(ResourceError::Busy),
        TwzError::Resource(ResourceError::NotConnected),
        TwzError::Resource(ResourceError::Unreachable),
        TwzError::Resource(ResourceError::NonAtomic),
        TwzError::Naming(NamingError::NotFound),
        TwzError::Naming(NamingError::AlreadyExists),
        TwzError::Naming(NamingError::WrongNameKind),
        TwzError::Naming(NamingError::AlreadyBound),
        TwzError::Naming(NamingError::LinkLoop),
        TwzError::Naming(NamingError::NotEmpty),
        TwzError::Object(ObjectError::MapFailed),
        TwzError::Object(ObjectError::NotMapped),
        TwzError::Object(ObjectError::InvalidFote),
        TwzError::Object(ObjectError::InvalidPtr),
        TwzError::Object(ObjectError::InvalidMeta),
        TwzError::Object(ObjectError::BaseTypeMismatch),
        TwzError::Object(ObjectError::NoSuchObject),
        TwzError::Io(IoError::Other),
        TwzError::Io(IoError::DataLoss),
        TwzError::Io(IoError::DeviceError),
        TwzError::Io(IoError::SeekFailed),
        TwzError::Io(IoError::Reset),
        TwzError::Security(SecurityError::InvalidKey),
        TwzError::Security(SecurityError::InvalidScheme),
        TwzError::Security(SecurityError::SignatureMismatch),
        TwzError::Security(SecurityError::GateDenied),
        TwzError::Security(SecurityError::InvalidGate),
        TwzError::Uncategorized(7),
        TwzError::Uncategorized(0xffff),
    ]
}

#[test]
fn round_trip_every_defined_error() {
    for e in all_named_errors() {
        let wire = e.raw();
        let decoded = RawTwzError::new(wire).error();
        assert_eq!(decoded, e);
    }
}

#[test]
fn round_trip_every_recognized_wire_word() {
    for e in all_named_errors() {
        let wire = e.raw();
        let reencoded = RawTwzError::new(wire).error().raw();
        assert_eq!(reencoded, wire);
    }
}

#[test]
fn success_decodes_to_no_error() {
    let s = RawTwzError::success();
    assert!(s.is_success());
    assert_eq!(s.raw(), 0);
    assert_eq!(s.code(), SUCCESS);
    assert_eq!(s.result(), Ok(()));
}

#[test]
fn no_error_encodes_to_success() {
    for e in all_named_errors() {
        assert_ne!(e.code(), SUCCESS);
        let wire = RawTwzError::new(e.raw());
        assert!(!wire.is_success());
        assert_eq!(wire.result(), Err(e));
    }
}

#[test]
fn scenario_encode_out_of_memory() {
    let wire = TwzError::Resource(ResourceError::OutOfMemory).raw();
    let decoded = RawTwzError::new(wire).error();
    assert_eq!(decoded, TwzError::Resource(ResourceError::OutOfMemory));
}

#[test]
fn from_parts_places_the_fields() {
    let w = RawTwzError::from_parts(RESOURCE_ERROR, OUT_OF_MEMORY);
    assert_eq!(w.raw(), 0x0003_0001);
    assert_eq!(w.category(), ErrorCategory::Resource);
    assert_eq!(w.code(), OUT_OF_MEMORY);
    assert_eq!(w.error(), TwzError::Resource(ResourceError::OutOfMemory));
}

#[test]
fn category_values_are_frozen() {
    assert_eq!(ErrorCategory::Uncategorized.raw(), 0);
    assert_eq!(ErrorCategory::Generic.raw(), 1);
    assert_eq!(ErrorCategory::Argument.raw(), 2);
    assert_eq!(ErrorCategory::Resource.raw(), 3);
    assert_eq!(ErrorCategory::Naming.raw(), 4);
    assert_eq!(ErrorCategory::Object.raw(), 5);
    assert_eq!(ErrorCategory::Io.raw(), 6);
    assert_eq!(ErrorCategory::Security.raw(), 7);
}

#[test]
fn typed_errors_know_their_category() {
    assert_eq!(
        TwzError::Generic(GenericError::TimedOut).category(),
        ErrorCategory::Generic
    );
    assert_eq!(
        TwzError::Object(ObjectError::InvalidFote).category(),
        ErrorCategory::Object
    );
    assert_eq!(TwzError::Uncategorized(9).category(), ErrorCategory::Uncategorized);
    assert_eq!(
        TwzError::Security(SecurityError::GateDenied).category(),
        ErrorCategory::Security
    );
}

#[test]
fn unknown_code_falls_back_to_uncategorized() {
    let w = RawTwzError::from_parts(GENERIC_ERROR, 999);
    assert_eq!(w.error(), TwzError::Uncategorized(999));
    let w = RawTwzError::from_parts(ARGUMENT_ERROR, 0xabcd);
    assert_eq!(w.error(), TwzError::Uncategorized(0xabcd));
}

#[test]
fn unknown_category_falls_back_to_uncategorized() {
    let w = RawTwzError::from_parts(42, 5);
    assert_eq!(w.category(), ErrorCategory::Uncategorized);
    assert_eq!(w.error(), TwzError::Uncategorized(5));
}

#[test]
fn decoding_is_total_over_the_code_space() {
    for code in [0u16, 1, 2, 3, 9, 10, 100, 0x7fff, 0xffff] {
        for cat in [0u16, GENERIC_ERROR, OBJECT_ERROR, 12, 0xffff] {
            let w = RawTwzError::from_parts(cat, code);
            // Decoding never fails; it always yields some typed error.
            let _ = w.error();
        }
    }
}

#[test]
fn high_bits_do_not_disturb_the_fields() {
    let w = RawTwzError::new(0xdead_beef_0003_0001);
    assert_eq!(w.category(), ErrorCategory::Resource);
    assert_eq!(w.code(), 1);
    assert_eq!(w.error(), TwzError::Resource(ResourceError::OutOfMemory));
}
