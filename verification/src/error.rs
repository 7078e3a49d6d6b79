//! The packed error word shared with the runtime boundary, and the typed
//! error taxonomy it encodes.
//!
//! On the wire an error is a single `u64`: a category field in a fixed
//! high-order bit range and a code field in a fixed low-order bit range.
//! The mask and shift constants below define that layout once, and both
//! directions of the codec go through them. A word whose code field equals
//! [`SUCCESS`] means "no error". Decoding is total: a code that is not
//! recognized within its category decodes to [`TwzError::Uncategorized`]
//! instead of failing, so that new codes degrade gracefully.

use vstd::prelude::*;

verus! {

/// Bits of the wire word holding the error category.
pub const ERROR_CATEGORY_MASK: u64 = 0xffff_0000;
/// Shift of the category field within the wire word.
pub const ERROR_CATEGORY_SHIFT: u64 = 16;
/// Bits of the wire word holding the error code.
pub const ERROR_CODE_MASK: u64 = 0xffff;
/// Shift of the code field within the wire word.
pub const ERROR_CODE_SHIFT: u64 = 0;
/// The reserved code meaning "no error".
pub const SUCCESS: u16 = 0;

/// Category value for errors that fit no known category.
pub const UNCATEGORIZED_ERROR: u16 = 0;
/// Category value for generic errors.
pub const GENERIC_ERROR: u16 = 1;
/// Category value for argument errors.
pub const ARGUMENT_ERROR: u16 = 2;
/// Category value for resource exhaustion errors.
pub const RESOURCE_ERROR: u16 = 3;
/// Category value for naming errors.
pub const NAMING_ERROR: u16 = 4;
/// Category value for object errors.
pub const OBJECT_ERROR: u16 = 5;
/// Category value for I/O errors.
pub const IO_ERROR: u16 = 6;
/// Category value for security errors.
pub const SECURITY_ERROR: u16 = 7;

// Codes within the generic category.
pub const OTHER_ERROR: u16 = 1;
pub const NOT_SUPPORTED: u16 = 2;
pub const INTERNAL: u16 = 3;
pub const WOULD_BLOCK: u16 = 4;
pub const TIMED_OUT: u16 = 5;
pub const ACCESS_DENIED: u16 = 6;
pub const NO_SUCH_OPERATION: u16 = 7;
pub const INTERRUPTED: u16 = 8;
pub const IN_PROGRESS: u16 = 9;

// Codes within the argument category.
pub const INVALID_ARGUMENT: u16 = 1;
pub const WRONG_TYPE: u16 = 2;
pub const INVALID_ADDRESS: u16 = 3;
pub const BAD_HANDLE: u16 = 4;

// Codes within the resource category.
pub const OUT_OF_MEMORY: u16 = 1;
pub const OUT_OF_RESOURCES: u16 = 2;
pub const OUT_OF_NAMES: u16 = 3;
pub const UNAVAILABLE: u16 = 4;
pub const REFUSED: u16 = 5;
pub const BUSY: u16 = 6;
pub const NOT_CONNECTED: u16 = 7;
pub const UNREACHABLE: u16 = 8;
pub const NON_ATOMIC: u16 = 9;

// Codes within the naming category.
pub const NOT_FOUND: u16 = 1;
pub const ALREADY_EXISTS: u16 = 2;
pub const WRONG_NAME_KIND: u16 = 3;
pub const ALREADY_BOUND: u16 = 4;
pub const LINK_LOOP: u16 = 5;
pub const NOT_EMPTY: u16 = 6;

// Codes within the object category.
pub const MAPPING_FAILED: u16 = 1;
pub const NOT_MAPPED: u16 = 2;
pub const INVALID_FOTE: u16 = 3;
pub const INVALID_PTR: u16 = 4;
pub const INVALID_META: u16 = 5;
pub const BASETYPE_MISMATCH: u16 = 6;
pub const NO_SUCH_OBJECT: u16 = 7;

// Codes within the I/O category.
pub const OTHER_IO_ERROR: u16 = 1;
pub const DATA_LOSS: u16 = 2;
pub const DEVICE_ERROR: u16 = 3;
pub const SEEK_FAILED: u16 = 4;
pub const RESET: u16 = 5;

// Codes within the security category.
pub const INVALID_KEY: u16 = 1;
pub const INVALID_SCHEME: u16 = 2;
pub const SIGNATURE_MISMATCH: u16 = 3;
pub const GATE_DENIED: u16 = 4;
pub const INVALID_GATE: u16 = 5;

/// The category field of a wire word.
pub open spec fn wire_category_field(w: u64) -> u16 {
    ((w & ERROR_CATEGORY_MASK) >> ERROR_CATEGORY_SHIFT) as u16
}

/// The code field of a wire word.
pub open spec fn wire_code_field(w: u64) -> u16 {
    ((w & ERROR_CODE_MASK) >> ERROR_CODE_SHIFT) as u16
}

/// The wire word carrying the given category and code fields.
pub open spec fn spec_pack(cat: u16, code: u16) -> u64 {
    ((cat as u64) << ERROR_CATEGORY_SHIFT) | ((code as u64) << ERROR_CODE_SHIFT)
}

/// Packing category and code fields and reading them back is the identity.
pub proof fn lemma_pack_fields(cat: u16, code: u16)
    by (bit_vector)
    ensures
        wire_category_field(spec_pack(cat, code)) == cat,
        wire_code_field(spec_pack(cat, code)) == code,
        spec_pack(cat, code) < 0x1_0000_0000,
{
}

/// A wire word without bits beyond the two fields is the packing of its own
/// fields.
pub proof fn lemma_wire_split(w: u64)
    by (bit_vector)
    requires
        w < 0x1_0000_0000,
    ensures
        spec_pack(wire_category_field(w), wire_code_field(w)) == w,
{
}

/// The broad family of an error.
#[derive(Clone, Copy, Debug, Hash, PartialEq, Eq, PartialOrd, Ord, Structural)]
pub enum ErrorCategory {
    Uncategorized,
    Generic,
    Argument,
    Resource,
    Naming,
    Object,
    Io,
    Security,
}

impl ErrorCategory {
    /// The numeric value of this category in the wire word's category field.
    pub open spec fn spec_raw(&self) -> u16 {
        match self {
            ErrorCategory::Uncategorized => UNCATEGORIZED_ERROR,
            ErrorCategory::Generic => GENERIC_ERROR,
            ErrorCategory::Argument => ARGUMENT_ERROR,
            ErrorCategory::Resource => RESOURCE_ERROR,
            ErrorCategory::Naming => NAMING_ERROR,
            ErrorCategory::Object => OBJECT_ERROR,
            ErrorCategory::Io => IO_ERROR,
            ErrorCategory::Security => SECURITY_ERROR,
        }
    }

    /// The category a wire category field denotes; unknown values fall back
    /// to [`ErrorCategory::Uncategorized`].
    pub open spec fn spec_from_raw(cat: u16) -> ErrorCategory {
        if cat == GENERIC_ERROR {
            ErrorCategory::Generic
        } else if cat == ARGUMENT_ERROR {
            ErrorCategory::Argument
        } else if cat == RESOURCE_ERROR {
            ErrorCategory::Resource
        } else if cat == NAMING_ERROR {
            ErrorCategory::Naming
        } else if cat == OBJECT_ERROR {
            ErrorCategory::Object
        } else if cat == IO_ERROR {
            ErrorCategory::Io
        } else if cat == SECURITY_ERROR {
            ErrorCategory::Security
        } else {
            ErrorCategory::Uncategorized
        }
    }

    /// The numeric category value, as placed in the wire word.
    pub fn raw(&self) -> (r: u16)
        ensures
            r == self.spec_raw(),
    {
        match self {
            ErrorCategory::Uncategorized => UNCATEGORIZED_ERROR,
            ErrorCategory::Generic => GENERIC_ERROR,
            ErrorCategory::Argument => ARGUMENT_ERROR,
            ErrorCategory::Resource => RESOURCE_ERROR,
            ErrorCategory::Naming => NAMING_ERROR,
            ErrorCategory::Object => OBJECT_ERROR,
            ErrorCategory::Io => IO_ERROR,
            ErrorCategory::Security => SECURITY_ERROR,
        }
    }
}

/// Errors with no more precise category.
#[derive(Clone, Copy, Debug, Hash, PartialEq, Eq, PartialOrd, Ord, Structural)]
pub enum GenericError {
    Other,
    NotSupported,
    Internal,
    WouldBlock,
    TimedOut,
    AccessDenied,
    NoSuchOperation,
    Interrupted,
    InProgress,
}

impl GenericError {
    /// The wire code of this error.
    pub open spec fn spec_code(&self) -> u16 {
        match self {
            GenericError::Other => OTHER_ERROR,
            GenericError::NotSupported => NOT_SUPPORTED,
            GenericError::Internal => INTERNAL,
            GenericError::WouldBlock => WOULD_BLOCK,
            GenericError::TimedOut => TIMED_OUT,
            GenericError::AccessDenied => ACCESS_DENIED,
            GenericError::NoSuchOperation => NO_SUCH_OPERATION,
            GenericError::Interrupted => INTERRUPTED,
            GenericError::InProgress => IN_PROGRESS,
        }
    }

    /// The typed error a generic-category code denotes.
    pub open spec fn spec_from_code(code: u16) -> TwzError {
        if code == OTHER_ERROR {
            TwzError::Generic(GenericError::Other)
        } else if code == NOT_SUPPORTED {
            TwzError::Generic(GenericError::NotSupported)
        } else if code == INTERNAL {
            TwzError::Generic(GenericError::Internal)
        } else if code == WOULD_BLOCK {
            TwzError::Generic(GenericError::WouldBlock)
        } else if code == TIMED_OUT {
            TwzError::Generic(GenericError::TimedOut)
        } else if code == ACCESS_DENIED {
            TwzError::Generic(GenericError::AccessDenied)
        } else if code == NO_SUCH_OPERATION {
            TwzError::Generic(GenericError::NoSuchOperation)
        } else if code == INTERRUPTED {
            TwzError::Generic(GenericError::Interrupted)
        } else if code == IN_PROGRESS {
            TwzError::Generic(GenericError::InProgress)
        } else {
            TwzError::Uncategorized(code)
        }
    }

    fn twz_error_from_code(code: u16) -> (r: TwzError)
        ensures
            r == GenericError::spec_from_code(code),
    {
        if code == OTHER_ERROR {
            TwzError::Generic(GenericError::Other)
        } else if code == NOT_SUPPORTED {
            TwzError::Generic(GenericError::NotSupported)
        } else if code == INTERNAL {
            TwzError::Generic(GenericError::Internal)
        } else if code == WOULD_BLOCK {
            TwzError::Generic(GenericError::WouldBlock)
        } else if code == TIMED_OUT {
            TwzError::Generic(GenericError::TimedOut)
        } else if code == ACCESS_DENIED {
            TwzError::Generic(GenericError::AccessDenied)
        } else if code == NO_SUCH_OPERATION {
            TwzError::Generic(GenericError::NoSuchOperation)
        } else if code == INTERRUPTED {
            TwzError::Generic(GenericError::Interrupted)
        } else if code == IN_PROGRESS {
            TwzError::Generic(GenericError::InProgress)
        } else {
            TwzError::Uncategorized(code)
        }
    }

    /// The wire code of this error.
    pub fn code(&self) -> (r: u16)
        ensures
            r == self.spec_code(),
    {
        match self {
            GenericError::Other => OTHER_ERROR,
            GenericError::NotSupported => NOT_SUPPORTED,
            GenericError::Internal => INTERNAL,
            GenericError::WouldBlock => WOULD_BLOCK,
            GenericError::TimedOut => TIMED_OUT,
            GenericError::AccessDenied => ACCESS_DENIED,
            GenericError::NoSuchOperation => NO_SUCH_OPERATION,
            GenericError::Interrupted => INTERRUPTED,
            GenericError::InProgress => IN_PROGRESS,
        }
    }
}

/// Errors caused by a malformed or inapplicable argument.
#[derive(Clone, Copy, Debug, Hash, PartialEq, Eq, PartialOrd, Ord, Structural)]
pub enum ArgumentError {
    InvalidArgument,
    WrongType,
    InvalidAddress,
    BadHandle,
}

impl ArgumentError {
    /// The wire code of this error.
    pub open spec fn spec_code(&self) -> u16 {
        match self {
            ArgumentError::InvalidArgument => INVALID_ARGUMENT,
            ArgumentError::WrongType => WRONG_TYPE,
            ArgumentError::InvalidAddress => INVALID_ADDRESS,
            ArgumentError::BadHandle => BAD_HANDLE,
        }
    }

    /// The typed error an argument-category code denotes.
    pub open spec fn spec_from_code(code: u16) -> TwzError {
        if code == INVALID_ARGUMENT {
            TwzError::Argument(ArgumentError::InvalidArgument)
        } else if code == WRONG_TYPE {
            TwzError::Argument(ArgumentError::WrongType)
        } else if code == INVALID_ADDRESS {
            TwzError::Argument(ArgumentError::InvalidAddress)
        } else if code == BAD_HANDLE {
            TwzError::Argument(ArgumentError::BadHandle)
        } else {
            TwzError::Uncategorized(code)
        }
    }

    fn twz_error_from_code(code: u16) -> (r: TwzError)
        ensures
            r == ArgumentError::spec_from_code(code),
    {
        if code == INVALID_ARGUMENT {
            TwzError::Argument(ArgumentError::InvalidArgument)
        } else if code == WRONG_TYPE {
            TwzError::Argument(ArgumentError::WrongType)
        } else if code == INVALID_ADDRESS {
            TwzError::Argument(ArgumentError::InvalidAddress)
        } else if code == BAD_HANDLE {
            TwzError::Argument(ArgumentError::BadHandle)
        } else {
            TwzError::Uncategorized(code)
        }
    }

    /// The wire code of this error.
    pub fn code(&self) -> (r: u16)
        ensures
            r == self.spec_code(),
    {
        match self {
            ArgumentError::InvalidArgument => INVALID_ARGUMENT,
            ArgumentError::WrongType => WRONG_TYPE,
            ArgumentError::InvalidAddress => INVALID_ADDRESS,
            ArgumentError::BadHandle => BAD_HANDLE,
        }
    }
}

/// Errors caused by exhaustion or unavailability of a resource.
#[derive(Clone, Copy, Debug, Hash, PartialEq, Eq, PartialOrd, Ord, Structural)]
pub enum ResourceError {
    OutOfMemory,
    OutOfResources,
    OutOfNames,
    Unavailable,
    Refused,
    Busy,
    NotConnected,
    Unreachable,
    NonAtomic,
}

impl ResourceError {
    /// The wire code of this error.
    pub open spec fn spec_code(&self) -> u16 {
        match self {
            ResourceError::OutOfMemory => OUT_OF_MEMORY,
            ResourceError::OutOfResources => OUT_OF_RESOURCES,
            ResourceError::OutOfNames => OUT_OF_NAMES,
            ResourceError::Unavailable => UNAVAILABLE,
            ResourceError::Refused => REFUSED,
            ResourceError::Busy => BUSY,
            ResourceError::NotConnected => NOT_CONNECTED,
            ResourceError::Unreachable => UNREACHABLE,
            ResourceError::NonAtomic => NON_ATOMIC,
        }
    }

    /// The typed error a resource-category code denotes.
    pub open spec fn spec_from_code(code: u16) -> TwzError {
        if code == OUT_OF_MEMORY {
            TwzError::Resource(ResourceError::OutOfMemory)
        } else if code == OUT_OF_RESOURCES {
            TwzError::Resource(ResourceError::OutOfResources)
        } else if code == OUT_OF_NAMES {
            TwzError::Resource(ResourceError::OutOfNames)
        } else if code == UNAVAILABLE {
            TwzError::Resource(ResourceError::Unavailable)
        } else if code == REFUSED {
            TwzError::Resource(ResourceError::Refused)
        } else if code == BUSY {
            TwzError::Resource(ResourceError::Busy)
        } else if code == NOT_CONNECTED {
            TwzError::Resource(ResourceError::NotConnected)
        } else if code == UNREACHABLE {
            TwzError::Resource(ResourceError::Unreachable)
        } else if code == NON_ATOMIC {
            TwzError::Resource(ResourceError::NonAtomic)
        } else {
            TwzError::Uncategorized(code)
        }
    }

    fn twz_error_from_code(code: u16) -> (r: TwzError)
        ensures
            r == ResourceError::spec_from_code(code),
    {
        if code == OUT_OF_MEMORY {
            TwzError::Resource(ResourceError::OutOfMemory)
        } else if code == OUT_OF_RESOURCES {
            TwzError::Resource(ResourceError::OutOfResources)
        } else if code == OUT_OF_NAMES {
            TwzError::Resource(ResourceError::OutOfNames)
        } else if code == UNAVAILABLE {
            TwzError::Resource(ResourceError::Unavailable)
        } else if code == REFUSED {
            TwzError::Resource(ResourceError::Refused)
        } else if code == BUSY {
            TwzError::Resource(ResourceError::Busy)
        } else if code == NOT_CONNECTED {
            TwzError::Resource(ResourceError::NotConnected)
        } else if code == UNREACHABLE {
            TwzError::Resource(ResourceError::Unreachable)
        } else if code == NON_ATOMIC {
            TwzError::Resource(ResourceError::NonAtomic)
        } else {
            TwzError::Uncategorized(code)
        }
    }

    /// The wire code of this error.
    pub fn code(&self) -> (r: u16)
        ensures
            r == self.spec_code(),
    {
        match self {
            ResourceError::OutOfMemory => OUT_OF_MEMORY,
            ResourceError::OutOfResources => OUT_OF_RESOURCES,
            ResourceError::OutOfNames => OUT_OF_NAMES,
            ResourceError::Unavailable => UNAVAILABLE,
            ResourceError::Refused => REFUSED,
            ResourceError::Busy => BUSY,
            ResourceError::NotConnected => NOT_CONNECTED,
            ResourceError::Unreachable => UNREACHABLE,
            ResourceError::NonAtomic => NON_ATOMIC,
        }
    }
}

/// Errors in the name service.
#[derive(Clone, Copy, Debug, Hash, PartialEq, Eq, PartialOrd, Ord, Structural)]
pub enum NamingError {
    NotFound,
    AlreadyExists,
    WrongNameKind,
    AlreadyBound,
    LinkLoop,
    NotEmpty,
}

impl NamingError {
    /// The wire code of this error.
    pub open spec fn spec_code(&self) -> u16 {
        match self {
            NamingError::NotFound => NOT_FOUND,
            NamingError::AlreadyExists => ALREADY_EXISTS,
            NamingError::WrongNameKind => WRONG_NAME_KIND,
            NamingError::AlreadyBound => ALREADY_BOUND,
            NamingError::LinkLoop => LINK_LOOP,
            NamingError::NotEmpty => NOT_EMPTY,
        }
    }

    /// The typed error a naming-category code denotes.
    pub open spec fn spec_from_code(code: u16) -> TwzError {
        if code == NOT_FOUND {
            TwzError::Naming(NamingError::NotFound)
        } else if code == ALREADY_EXISTS {
            TwzError::Naming(NamingError::AlreadyExists)
        } else if code == WRONG_NAME_KIND {
            TwzError::Naming(NamingError::WrongNameKind)
        } else if code == ALREADY_BOUND {
            TwzError::Naming(NamingError::AlreadyBound)
        } else if code == LINK_LOOP {
            TwzError::Naming(NamingError::LinkLoop)
        } else if code == NOT_EMPTY {
            TwzError::Naming(NamingError::NotEmpty)
        } else {
            TwzError::Uncategorized(code)
        }
    }

    fn twz_error_from_code(code: u16) -> (r: TwzError)
        ensures
            r == NamingError::spec_from_code(code),
    {
        if code == NOT_FOUND {
            TwzError::Naming(NamingError::NotFound)
        } else if code == ALREADY_EXISTS {
            TwzError::Naming(NamingError::AlreadyExists)
        } else if code == WRONG_NAME_KIND {
            TwzError::Naming(NamingError::WrongNameKind)
        } else if code == ALREADY_BOUND {
            TwzError::Naming(NamingError::AlreadyBound)
        } else if code == LINK_LOOP {
            TwzError::Naming(NamingError::LinkLoop)
        } else if code == NOT_EMPTY {
            TwzError::Naming(NamingError::NotEmpty)
        } else {
            TwzError::Uncategorized(code)
        }
    }

    /// The wire code of this error.
    pub fn code(&self) -> (r: u16)
        ensures
            r == self.spec_code(),
    {
        match self {
            NamingError::NotFound => NOT_FOUND,
            NamingError::AlreadyExists => ALREADY_EXISTS,
            NamingError::WrongNameKind => WRONG_NAME_KIND,
            NamingError::AlreadyBound => ALREADY_BOUND,
            NamingError::LinkLoop => LINK_LOOP,
            NamingError::NotEmpty => NOT_EMPTY,
        }
    }
}

/// Errors around objects, mappings and cross-object references.
#[derive(Clone, Copy, Debug, Hash, PartialEq, Eq, PartialOrd, Ord, Structural)]
pub enum ObjectError {
    MapFailed,
    NotMapped,
    InvalidFote,
    InvalidPtr,
    InvalidMeta,
    BaseTypeMismatch,
    NoSuchObject,
}

impl ObjectError {
    /// The wire code of this error.
    pub open spec fn spec_code(&self) -> u16 {
        match self {
            ObjectError::MapFailed => MAPPING_FAILED,
            ObjectError::NotMapped => NOT_MAPPED,
            ObjectError::InvalidFote => INVALID_FOTE,
            ObjectError::InvalidPtr => INVALID_PTR,
            ObjectError::InvalidMeta => INVALID_META,
            ObjectError::BaseTypeMismatch => BASETYPE_MISMATCH,
            ObjectError::NoSuchObject => NO_SUCH_OBJECT,
        }
    }

    /// The typed error an object-category code denotes.
    pub open spec fn spec_from_code(code: u16) -> TwzError {
        if code == MAPPING_FAILED {
            TwzError::Object(ObjectError::MapFailed)
        } else if code == NOT_MAPPED {
            TwzError::Object(ObjectError::NotMapped)
        } else if code == INVALID_FOTE {
            TwzError::Object(ObjectError::InvalidFote)
        } else if code == INVALID_PTR {
            TwzError::Object(ObjectError::InvalidPtr)
        } else if code == INVALID_META {
            TwzError::Object(ObjectError::InvalidMeta)
        } else if code == BASETYPE_MISMATCH {
            TwzError::Object(ObjectError::BaseTypeMismatch)
        } else if code == NO_SUCH_OBJECT {
            TwzError::Object(ObjectError::NoSuchObject)
        } else {
            TwzError::Uncategorized(code)
        }
    }

    fn twz_error_from_code(code: u16) -> (r: TwzError)
        ensures
            r == ObjectError::spec_from_code(code),
    {
        if code == MAPPING_FAILED {
            TwzError::Object(ObjectError::MapFailed)
        } else if code == NOT_MAPPED {
            TwzError::Object(ObjectError::NotMapped)
        } else if code == INVALID_FOTE {
            TwzError::Object(ObjectError::InvalidFote)
        } else if code == INVALID_PTR {
            TwzError::Object(ObjectError::InvalidPtr)
        } else if code == INVALID_META {
            TwzError::Object(ObjectError::InvalidMeta)
        } else if code == BASETYPE_MISMATCH {
            TwzError::Object(ObjectError::BaseTypeMismatch)
        } else if code == NO_SUCH_OBJECT {
            TwzError::Object(ObjectError::NoSuchObject)
        } else {
            TwzError::Uncategorized(code)
        }
    }

    /// The wire code of this error.
    pub fn code(&self) -> (r: u16)
        ensures
            r == self.spec_code(),
    {
        match self {
            ObjectError::MapFailed => MAPPING_FAILED,
            ObjectError::NotMapped => NOT_MAPPED,
            ObjectError::InvalidFote => INVALID_FOTE,
            ObjectError::InvalidPtr => INVALID_PTR,
            ObjectError::InvalidMeta => INVALID_META,
            ObjectError::BaseTypeMismatch => BASETYPE_MISMATCH,
            ObjectError::NoSuchObject => NO_SUCH_OBJECT,
        }
    }
}

/// Errors in input/output operations.
#[derive(Clone, Copy, Debug, Hash, PartialEq, Eq, PartialOrd, Ord, Structural)]
pub enum IoError {
    Other,
    DataLoss,
    DeviceError,
    SeekFailed,
    Reset,
}

impl IoError {
    /// The wire code of this error.
    pub open spec fn spec_code(&self) -> u16 {
        match self {
            IoError::Other => OTHER_IO_ERROR,
            IoError::DataLoss => DATA_LOSS,
            IoError::DeviceError => DEVICE_ERROR,
            IoError::SeekFailed => SEEK_FAILED,
            IoError::Reset => RESET,
        }
    }

    /// The typed error an I/O-category code denotes.
    pub open spec fn spec_from_code(code: u16) -> TwzError {
        if code == OTHER_IO_ERROR {
            TwzError::Io(IoError::Other)
        } else if code == DATA_LOSS {
            TwzError::Io(IoError::DataLoss)
        } else if code == DEVICE_ERROR {
            TwzError::Io(IoError::DeviceError)
        } else if code == SEEK_FAILED {
            TwzError::Io(IoError::SeekFailed)
        } else if code == RESET {
            TwzError::Io(IoError::Reset)
        } else {
            TwzError::Uncategorized(code)
        }
    }

    fn twz_error_from_code(code: u16) -> (r: TwzError)
        ensures
            r == IoError::spec_from_code(code),
    {
        if code == OTHER_IO_ERROR {
            TwzError::Io(IoError::Other)
        } else if code == DATA_LOSS {
            TwzError::Io(IoError::DataLoss)
        } else if code == DEVICE_ERROR {
            TwzError::Io(IoError::DeviceError)
        } else if code == SEEK_FAILED {
            TwzError::Io(IoError::SeekFailed)
        } else if code == RESET {
            TwzError::Io(IoError::Reset)
        } else {
            TwzError::Uncategorized(code)
        }
    }

    /// The wire code of this error.
    pub fn code(&self) -> (r: u16)
        ensures
            r == self.spec_code(),
    {
        match self {
            IoError::Other => OTHER_IO_ERROR,
            IoError::DataLoss => DATA_LOSS,
            IoError::DeviceError => DEVICE_ERROR,
            IoError::SeekFailed => SEEK_FAILED,
            IoError::Reset => RESET,
        }
    }
}

/// Errors in the security subsystem.
#[derive(Clone, Copy, Debug, Hash, PartialEq, Eq, PartialOrd, Ord, Structural)]
pub enum SecurityError {
    InvalidKey,
    InvalidScheme,
    SignatureMismatch,
    GateDenied,
    InvalidGate,
}

impl SecurityError {
    /// The wire code of this error.
    pub open spec fn spec_code(&self) -> u16 {
        match self {
            SecurityError::InvalidKey => INVALID_KEY,
            SecurityError::InvalidScheme => INVALID_SCHEME,
            SecurityError::SignatureMismatch => SIGNATURE_MISMATCH,
            SecurityError::GateDenied => GATE_DENIED,
            SecurityError::InvalidGate => INVALID_GATE,
        }
    }

    /// The typed error a security-category code denotes.
    pub open spec fn spec_from_code(code: u16) -> TwzError {
        if code == INVALID_KEY {
            TwzError::Security(SecurityError::InvalidKey)
        } else if code == INVALID_SCHEME {
            TwzError::Security(SecurityError::InvalidScheme)
        } else if code == SIGNATURE_MISMATCH {
            TwzError::Security(SecurityError::SignatureMismatch)
        } else if code == GATE_DENIED {
            TwzError::Security(SecurityError::GateDenied)
        } else if code == INVALID_GATE {
            TwzError::Security(SecurityError::InvalidGate)
        } else {
            TwzError::Uncategorized(code)
        }
    }

    fn twz_error_from_code(code: u16) -> (r: TwzError)
        ensures
            r == SecurityError::spec_from_code(code),
    {
        if code == INVALID_KEY {
            TwzError::Security(SecurityError::InvalidKey)
        } else if code == INVALID_SCHEME {
            TwzError::Security(SecurityError::InvalidScheme)
        } else if code == SIGNATURE_MISMATCH {
            TwzError::Security(SecurityError::SignatureMismatch)
        } else if code == GATE_DENIED {
            TwzError::Security(SecurityError::GateDenied)
        } else if code == INVALID_GATE {
            TwzError::Security(SecurityError::InvalidGate)
        } else {
            TwzError::Uncategorized(code)
        }
    }

    /// The wire code of this error.
    pub fn code(&self) -> (r: u16)
        ensures
            r == self.spec_code(),
    {
        match self {
            SecurityError::InvalidKey => INVALID_KEY,
            SecurityError::InvalidScheme => INVALID_SCHEME,
            SecurityError::SignatureMismatch => SIGNATURE_MISMATCH,
            SecurityError::GateDenied => GATE_DENIED,
            SecurityError::InvalidGate => INVALID_GATE,
        }
    }
}

/// A typed error, one variant per category; codes unknown to this version
/// are carried verbatim in [`TwzError::Uncategorized`].
#[derive(Clone, Copy, Debug, Hash, PartialEq, Eq, PartialOrd, Ord, Structural)]
pub enum TwzError {
    Uncategorized(u16),
    Generic(GenericError),
    Argument(ArgumentError),
    Resource(ResourceError),
    Object(ObjectError),
    Naming(NamingError),
    Io(IoError),
    Security(SecurityError),
}

impl TwzError {
    /// The category of this error.
    pub open spec fn spec_category(&self) -> ErrorCategory {
        match self {
            TwzError::Uncategorized(_) => ErrorCategory::Uncategorized,
            TwzError::Generic(_) => ErrorCategory::Generic,
            TwzError::Argument(_) => ErrorCategory::Argument,
            TwzError::Resource(_) => ErrorCategory::Resource,
            TwzError::Object(_) => ErrorCategory::Object,
            TwzError::Naming(_) => ErrorCategory::Naming,
            TwzError::Io(_) => ErrorCategory::Io,
            TwzError::Security(_) => ErrorCategory::Security,
        }
    }

    /// The wire code of this error.
    pub open spec fn spec_code(&self) -> u16 {
        match self {
            TwzError::Uncategorized(code) => *code,
            TwzError::Generic(e) => e.spec_code(),
            TwzError::Argument(e) => e.spec_code(),
            TwzError::Resource(e) => e.spec_code(),
            TwzError::Object(e) => e.spec_code(),
            TwzError::Naming(e) => e.spec_code(),
            TwzError::Io(e) => e.spec_code(),
            TwzError::Security(e) => e.spec_code(),
        }
    }

    /// The wire word encoding this error.
    pub open spec fn spec_raw(&self) -> u64 {
        spec_pack(self.spec_category().spec_raw(), self.spec_code())
    }

    /// The category of this error.
    pub fn category(&self) -> (r: ErrorCategory)
        ensures
            r == self.spec_category(),
    {
        match self {
            TwzError::Uncategorized(_) => ErrorCategory::Uncategorized,
            TwzError::Generic(_) => ErrorCategory::Generic,
            TwzError::Argument(_) => ErrorCategory::Argument,
            TwzError::Resource(_) => ErrorCategory::Resource,
            TwzError::Object(_) => ErrorCategory::Object,
            TwzError::Naming(_) => ErrorCategory::Naming,
            TwzError::Io(_) => ErrorCategory::Io,
            TwzError::Security(_) => ErrorCategory::Security,
        }
    }

    /// The wire code of this error.
    pub fn code(&self) -> (r: u16)
        ensures
            r == self.spec_code(),
    {
        match self {
            TwzError::Uncategorized(code) => *code,
            TwzError::Generic(e) => e.code(),
            TwzError::Argument(e) => e.code(),
            TwzError::Resource(e) => e.code(),
            TwzError::Object(e) => e.code(),
            TwzError::Naming(e) => e.code(),
            TwzError::Io(e) => e.code(),
            TwzError::Security(e) => e.code(),
        }
    }

    /// The wire word encoding this error.
    pub fn raw(&self) -> (r: u64)
        ensures
            r == self.spec_raw(),
    {
        let cat = self.category().raw();
        let code = self.code();
        RawTwzError::from_parts(cat, code).raw()
    }
}

/// Decoding of a wire word into the typed error it denotes, total over all
/// 64-bit values. Bits outside the two fields are ignored; an unknown
/// category or code falls back to [`TwzError::Uncategorized`].
pub open spec fn spec_decode(w: u64) -> TwzError {
    let cat = wire_category_field(w);
    let code = wire_code_field(w);
    if cat == GENERIC_ERROR {
        GenericError::spec_from_code(code)
    } else if cat == ARGUMENT_ERROR {
        ArgumentError::spec_from_code(code)
    } else if cat == RESOURCE_ERROR {
        ResourceError::spec_from_code(code)
    } else if cat == NAMING_ERROR {
        NamingError::spec_from_code(code)
    } else if cat == OBJECT_ERROR {
        ObjectError::spec_from_code(code)
    } else if cat == IO_ERROR {
        IoError::spec_from_code(code)
    } else if cat == SECURITY_ERROR {
        SecurityError::spec_from_code(code)
    } else {
        TwzError::Uncategorized(code)
    }
}

/// The packed wire form of an error word, as exchanged with the runtime
/// boundary.
#[derive(Clone, Copy, Debug, Hash, PartialEq, Eq, PartialOrd, Ord, Structural)]
pub struct RawTwzError(pub u64);

impl RawTwzError {
    /// Whether this word means "no error".
    pub open spec fn spec_is_success(&self) -> bool {
        wire_code_field(self.0) == SUCCESS
    }

    /// Wrap a raw wire word.
    pub fn new(raw: u64) -> (r: Self)
        ensures
            r.0 == raw,
    {
        RawTwzError(raw)
    }

    /// The raw wire word.
    pub fn raw(&self) -> (r: u64)
        ensures
            r == self.0,
    {
        self.0
    }

    /// The wire word meaning "no error".
    pub fn success() -> (r: Self)
        ensures
            r.0 == SUCCESS as u64,
            r.spec_is_success(),
    {
        proof {
            assert(wire_code_field(0u64) == 0u16) by (bit_vector);
        }
        RawTwzError(SUCCESS as u64)
    }

    /// Pack a category field and a code field into a wire word.
    pub fn from_parts(cat: u16, code: u16) -> (r: Self)
        ensures
            r.0 == spec_pack(cat, code),
    {
        let c: u64 = ((cat as u64) << ERROR_CATEGORY_SHIFT) & ERROR_CATEGORY_MASK;
        let d: u64 = ((code as u64) << ERROR_CODE_SHIFT) & ERROR_CODE_MASK;
        proof {
            assert((((cat as u64) << ERROR_CATEGORY_SHIFT) & ERROR_CATEGORY_MASK) | (((
            code as u64) << ERROR_CODE_SHIFT) & ERROR_CODE_MASK) == spec_pack(cat, code))
                by (bit_vector);
        }
        RawTwzError(c | d)
    }

    /// The category this word's category field denotes.
    pub fn category(&self) -> (r: ErrorCategory)
        ensures
            r == ErrorCategory::spec_from_raw(wire_category_field(self.0)),
    {
        let cat: u16 = ((self.0 & ERROR_CATEGORY_MASK) >> ERROR_CATEGORY_SHIFT) as u16;
        if cat == GENERIC_ERROR {
            ErrorCategory::Generic
        } else if cat == ARGUMENT_ERROR {
            ErrorCategory::Argument
        } else if cat == RESOURCE_ERROR {
            ErrorCategory::Resource
        } else if cat == NAMING_ERROR {
            ErrorCategory::Naming
        } else if cat == OBJECT_ERROR {
            ErrorCategory::Object
        } else if cat == IO_ERROR {
            ErrorCategory::Io
        } else if cat == SECURITY_ERROR {
            ErrorCategory::Security
        } else {
            ErrorCategory::Uncategorized
        }
    }

    /// The code field of this word.
    pub fn code(&self) -> (r: u16)
        ensures
            r == wire_code_field(self.0),
    {
        ((self.0 & ERROR_CODE_MASK) >> ERROR_CODE_SHIFT) as u16
    }

    /// Whether this word means "no error".
    pub fn is_success(&self) -> (r: bool)
        ensures
            r == self.spec_is_success(),
    {
        self.code() == SUCCESS
    }

    /// The typed error this word denotes. Total: every word decodes, and
    /// unknown categories or codes fall back to
    /// [`TwzError::Uncategorized`].
    pub fn error(&self) -> (r: TwzError)
        ensures
            r == spec_decode(self.0),
    {
        match self.category() {
            ErrorCategory::Uncategorized => TwzError::Uncategorized(self.code()),
            ErrorCategory::Generic => GenericError::twz_error_from_code(self.code()),
            ErrorCategory::Argument => ArgumentError::twz_error_from_code(self.code()),
            ErrorCategory::Resource => ResourceError::twz_error_from_code(self.code()),
            ErrorCategory::Naming => NamingError::twz_error_from_code(self.code()),
            ErrorCategory::Object => ObjectError::twz_error_from_code(self.code()),
            ErrorCategory::Io => IoError::twz_error_from_code(self.code()),
            ErrorCategory::Security => SecurityError::twz_error_from_code(self.code()),
        }
    }

    /// The outcome this word reports: success as `Ok`, anything else as the
    /// typed error it decodes to.
    pub fn result(&self) -> (r: Result<(), TwzError>)
        ensures
            self.spec_is_success() ==> r == Result::<(), TwzError>::Ok(()),
            !self.spec_is_success() ==> (r == Result::<(), TwzError>::Err(spec_decode(self.0))),
    {
        if self.is_success() {
            Ok(())
        } else {
            Err(self.error())
        }
    }
}

/// Round trip from the typed side: every typed error, encoded to its wire
/// word and decoded back, yields the identical typed error.
pub proof fn lemma_error_round_trip(e: TwzError)
    ensures
        spec_decode(e.spec_raw()) == e,
{
    lemma_pack_fields(e.spec_category().spec_raw(), e.spec_code());
}

/// Round trip from the wire side: a word without bits beyond the two
/// fields, whose fields the decoder recognizes (or whose category field is
/// the uncategorized one, under which every code is carried verbatim),
/// re-encodes to the identical bit pattern.
pub proof fn lemma_wire_round_trip(w: u64)
    requires
        w < 0x1_0000_0000,
        spec_decode(w) is Uncategorized ==> wire_category_field(w) == UNCATEGORIZED_ERROR,
    ensures
        spec_decode(w).spec_raw() == w,
{
    lemma_wire_split(w);
}

/// The success sentinel: the success word decodes to no error, and no
/// typed error carrying a code other than the success code encodes to a
/// word that reads as success. Every typed error except
/// `TwzError::Uncategorized(SUCCESS)` carries such a code.
pub proof fn lemma_success_sentinel()
    ensures
        RawTwzError(SUCCESS as u64).spec_is_success(),
        forall|e: TwzError| e.spec_code() != SUCCESS ==> wire_code_field(#[trigger] e.spec_raw())
            != SUCCESS,
        forall|e: TwzError| !(e is Uncategorized) ==> #[trigger] e.spec_code() != SUCCESS,
{
    assert(wire_code_field(0u64) == 0u16) by (bit_vector);
    assert forall|e: TwzError| e.spec_code() != SUCCESS implies wire_code_field(
        #[trigger] e.spec_raw(),
    ) != SUCCESS by {
        lemma_pack_fields(e.spec_category().spec_raw(), e.spec_code());
    }
}

} // verus!
