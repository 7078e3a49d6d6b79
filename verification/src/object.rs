//! Object identifiers, mapping flags, the object metadata layout, and the
//! object handle record.
//!
//! An [`ObjID`] is an opaque 128-bit value with a stable split into two
//! 64-bit halves for passing through registers; the split is lossless
//! ([`lemma_objid_round_trip`]). An [`ObjectHandle`] is the client-side
//! record of one active mapping; its reference-counting lifecycle lives in
//! [`crate::runtime`], since the shared counter belongs to runtime-owned
//! state, not to the handle value itself.

use vstd::prelude::*;

use crate::create::Protections;
use crate::error::spec_decode;
use crate::error::wire_code_field;
use crate::error::RawTwzError;
use crate::error::TwzError;
use crate::error::SUCCESS;

verus! {

/// The number of bytes one unit of a handle's stored length stands for.
/// The valid-length field of a raw handle counts these units, not bytes.
pub const LEN_MUL: u64 = 0x1000;

/// The high 64-bit half of a raw object ID.
pub open spec fn objid_hi(raw: u128) -> u64 {
    (raw >> 64) as u64
}

/// The low 64-bit half of a raw object ID.
pub open spec fn objid_lo(raw: u128) -> u64 {
    (raw & 0xffff_ffff_ffff_ffff) as u64
}

/// The raw object ID reassembled from its two halves, high half first.
pub open spec fn objid_from_parts(hi: u64, lo: u64) -> u128 {
    ((hi as u128) << 64) | (lo as u128)
}

/// Splitting a raw object ID into halves and reassembling them yields the
/// identical 128-bit value, for every value.
pub proof fn lemma_objid_round_trip(raw: u128)
    by (bit_vector)
    ensures
        objid_from_parts(objid_hi(raw), objid_lo(raw)) == raw,
{
}

/// The halves of a reassembled ID are the halves it was built from, for
/// every pair of halves.
pub proof fn lemma_objid_parts(hi: u64, lo: u64)
    by (bit_vector)
    ensures
        objid_hi(objid_from_parts(hi, lo)) == hi,
        objid_lo(objid_from_parts(hi, lo)) == lo,
{
}

/// An object ID: an opaque 128-bit identifier.
#[derive(Clone, Copy, Debug, Hash, PartialEq, Eq, PartialOrd, Ord, Default, Structural)]
pub struct ObjID(pub u128);

impl ObjID {
    /// The number of 64-bit components an object ID splits into.
    pub const NR_PARTS: usize = 2;

    /// Build a new object ID from its raw 128-bit value.
    pub fn new(raw: u128) -> (r: Self)
        ensures
            r.0 == raw,
    {
        ObjID(raw)
    }

    /// The raw 128-bit value.
    pub fn raw(&self) -> (r: u128)
        ensures
            r == self.0,
    {
        self.0
    }

    /// Build an object ID from its two 64-bit halves, high half first, as
    /// they come back out of registers.
    pub fn from_parts(parts: [u64; 2]) -> (r: Self)
        ensures
            r.0 == objid_from_parts(parts[0], parts[1]),
    {
        ObjID(((parts[0] as u128) << 64) | (parts[1] as u128))
    }

    /// Split the object ID into its two 64-bit halves, high half first,
    /// for packing into registers.
    pub fn parts(&self) -> (r: [u64; 2])
        ensures
            r[0] == objid_hi(self.0),
            r[1] == objid_lo(self.0),
    {
        [(self.0 >> 64) as u64, (self.0 & 0xffff_ffff_ffff_ffff) as u64]
    }
}

impl From<u128> for ObjID {
    /// An object ID is its raw 128-bit value, wrapped.
    fn from(id: u128) -> (r: Self) {
        ObjID(id)
    }
}

impl vstd::std_specs::convert::FromSpecImpl<u128> for ObjID {
    open spec fn obeys_from_spec() -> bool {
        true
    }

    open spec fn from_spec(id: u128) -> Self {
        ObjID(id)
    }
}

/// Mapping flag requesting read access.
pub const MAP_FLAG_R: u32 = 0x1;
/// Mapping flag requesting write access.
pub const MAP_FLAG_W: u32 = 0x2;
/// Mapping flag requesting execute access.
pub const MAP_FLAG_X: u32 = 0x4;
/// Mapping flag asking that changes persist on flush.
pub const MAP_FLAG_PERSIST: u32 = 0x8;
/// Mapping flag asking for runtime support for read stability.
pub const MAP_FLAG_INDIRECT: u32 = 0x10;
/// Mapping flag asking that the object's null page not be mapped.
pub const MAP_FLAG_NO_NULLPAGE: u32 = 0x20;
/// All defined mapping flag bits.
pub const MAP_FLAGS_ALL: u32 = 0x3f;

/// Flags for mapping objects: a bit set over read, write, execute,
/// persist, indirect, and no-null-page.
#[derive(Clone, Copy, Debug, Hash, PartialEq, Eq, Structural)]
pub struct MapFlags {
    pub bits: u32,
}

impl MapFlags {
    /// Well-formed: only defined flag bits are set.
    pub open spec fn wf(&self) -> bool {
        self.bits & !MAP_FLAGS_ALL == 0
    }

    /// The flag set holding the defined bits of `bits`.
    pub open spec fn spec_from_bits(bits: u32) -> MapFlags {
        MapFlags { bits: bits & MAP_FLAGS_ALL }
    }

    /// The union of two flag sets.
    pub open spec fn spec_union(&self, other: MapFlags) -> MapFlags {
        MapFlags { bits: self.bits | other.bits }
    }

    /// Whether every bit of `other` is also set in `self`.
    pub open spec fn spec_contains(&self, other: MapFlags) -> bool {
        self.bits & other.bits == other.bits
    }

    /// The empty flag set.
    pub fn empty() -> (r: MapFlags)
        ensures
            r.bits == 0,
            r.wf(),
    {
        proof {
            assert(0u32 & !MAP_FLAGS_ALL == 0) by (bit_vector);
        }
        MapFlags { bits: 0 }
    }

    /// The flag set holding the defined bits of `bits`; undefined bits are
    /// discarded.
    pub fn from_bits_truncate(bits: u32) -> (r: MapFlags)
        ensures
            r == MapFlags::spec_from_bits(bits),
            r.wf(),
    {
        proof {
            assert((bits & MAP_FLAGS_ALL) & !MAP_FLAGS_ALL == 0) by (bit_vector);
        }
        MapFlags { bits: bits & MAP_FLAGS_ALL }
    }

    /// The raw bit pattern.
    pub fn bits(&self) -> (r: u32)
        ensures
            r == self.bits,
    {
        self.bits
    }

    /// The union of two flag sets.
    pub fn union(&self, other: MapFlags) -> (r: MapFlags)
        ensures
            r == self.spec_union(other),
    {
        MapFlags { bits: self.bits | other.bits }
    }

    /// Whether every bit of `other` is also set in `self`.
    pub fn contains(&self, other: MapFlags) -> (r: bool)
        ensures
            r == self.spec_contains(other),
    {
        self.bits & other.bits == other.bits
    }

    /// Read and write access to memory persisted on flush.
    pub fn read_write_persist() -> (r: MapFlags)
        ensures
            r.bits == MAP_FLAG_R | MAP_FLAG_W | MAP_FLAG_PERSIST,
    {
        MapFlags { bits: MAP_FLAG_R | MAP_FLAG_W | MAP_FLAG_PERSIST }
    }

    /// Read and write access to volatile memory.
    pub fn read_write_volatile() -> (r: MapFlags)
        ensures
            r.bits == MAP_FLAG_R | MAP_FLAG_W,
    {
        MapFlags { bits: MAP_FLAG_R | MAP_FLAG_W }
    }

    /// Read-only access with read stability.
    pub fn read_only_indirect() -> (r: MapFlags)
        ensures
            r.bits == MAP_FLAG_R | MAP_FLAG_INDIRECT,
    {
        MapFlags { bits: MAP_FLAG_R | MAP_FLAG_INDIRECT }
    }

    /// Read and execute access with read stability.
    pub fn read_exec_indirect() -> (r: MapFlags)
        ensures
            r.bits == MAP_FLAG_R | MAP_FLAG_X | MAP_FLAG_INDIRECT,
    {
        MapFlags { bits: MAP_FLAG_R | MAP_FLAG_X | MAP_FLAG_INDIRECT }
    }
}

/// Per-object flags stored in the metadata header.
#[derive(Clone, Copy, Debug, Hash, PartialEq, Eq, PartialOrd, Ord, Default, Structural)]
pub struct MetaFlags(pub u32);

/// A per-object value for avoiding object ID collisions. Not a secret.
#[derive(Clone, Copy, Debug, Hash, PartialEq, Eq, PartialOrd, Ord, Default, Structural)]
pub struct Nonce(pub u128);

/// The tag of a metadata extension entry.
#[derive(Clone, Copy, Debug, Hash, PartialEq, Eq, PartialOrd, Ord, Structural)]
pub struct MetaExtTag(pub u64);

/// Tag of an empty (terminator) metadata extension entry.
pub const MEXT_EMPTY_TAG: u64 = 0;
/// Tag of the extension recording an object's explicit size.
pub const MEXT_SIZED_TAG: u64 = 1;

/// A metadata extension entry: a tag and a tag-specific value.
#[derive(Clone, Copy, Debug, Hash, PartialEq, Eq, Structural)]
pub struct MetaExt {
    /// The tag saying what the entry records.
    pub tag: MetaExtTag,
    /// A tag-specific value.
    pub value: u64,
}

/// The fixed metadata header every object carries. It is followed by
/// `extcount` metadata extension records and a foreign object table of
/// `fotcount` entries.
#[derive(Clone, Copy, Debug, PartialEq, Eq, Structural)]
pub struct MetaInfo {
    /// The ID nonce.
    pub nonce: Nonce,
    /// The ID of the object holding the owning public key.
    pub kuid: ObjID,
    /// The object flags.
    pub flags: MetaFlags,
    /// The object's default protections.
    pub def_prot: Protections,
    /// The number of foreign object table entries.
    pub fotcount: u16,
    /// The number of metadata extension records.
    pub extcount: u16,
}

/// The raw, fixed-layout handle record exchanged with the runtime
/// boundary: the object ID, the model addresses of the data start and of
/// the metadata block, the control region (absent for a non-owning
/// handle), the raw map-flag bits, and the valid length counted in
/// [`LEN_MUL`]-byte units.
#[derive(Clone, Copy, Debug, PartialEq, Eq, Structural)]
pub struct RawObjectHandle {
    /// The ID of the mapped object.
    pub id: ObjID,
    /// The control region the handle counts against, if any.
    pub runtime_info: Option<usize>,
    /// The address of the start of object data.
    pub start: u64,
    /// The address of the metadata block.
    pub meta: u64,
    /// The raw map-flag bits of the mapping.
    pub map_flags: u32,
    /// The valid mapped length, in units of [`LEN_MUL`] bytes.
    pub valid_len: u32,
}

impl Default for RawObjectHandle {
    /// The all-absent raw handle: zero ID, no control region, zero
    /// everything else.
    fn default() -> (r: Self)
        ensures
            r.id.0 == 0,
            r.runtime_info is None,
            r.start == 0,
            r.meta == 0,
            r.map_flags == 0,
            r.valid_len == 0,
    {
        RawObjectHandle {
            id: ObjID::new(0),
            runtime_info: None,
            start: 0,
            meta: 0,
            map_flags: 0,
            valid_len: 0,
        }
    }
}

/// A handle onto one active mapping of an object.
///
/// An owning handle names the control region whose counter it is counted
/// in; all handles cloned from one mapping name the same region. A handle
/// whose control region is absent is non-owning: cloning or dropping it
/// never touches any counter and never triggers a release. The counting
/// operations themselves live on [`crate::runtime::Runtime`], the model of
/// the runtime-owned state the counters sit in.
#[derive(Debug, PartialEq, Eq, Structural)]
pub struct ObjectHandle {
    /// The ID of the mapped object.
    pub id: ObjID,
    /// The control region this handle is counted in; `None` for a
    /// non-owning handle.
    pub runtime_info: Option<usize>,
    /// The address of the start of object data.
    pub start: u64,
    /// The address of the metadata block.
    pub meta: u64,
    /// The flags the mapping was made with.
    pub map_flags: MapFlags,
    /// The valid mapped length, in units of [`LEN_MUL`] bytes.
    pub valid_len_units: u32,
}

impl ObjectHandle {
    /// The number of valid bytes of object data, in raw bytes rather than
    /// length units.
    pub open spec fn spec_valid_len(&self) -> u64 {
        ((self.valid_len_units as u64) * LEN_MUL) as u64
    }

    /// Make a handle from already-validated parts. The valid length is
    /// given in raw bytes and stored in whole [`LEN_MUL`]-byte units.
    pub fn new(
        id: ObjID,
        runtime_info: Option<usize>,
        start: u64,
        meta: u64,
        map_flags: MapFlags,
        valid_len: u64,
    ) -> (r: Self)
        requires
            valid_len / LEN_MUL < 0x1_0000_0000,
        ensures
            r.id == id,
            r.runtime_info == runtime_info,
            r.start == start,
            r.meta == meta,
            r.map_flags == map_flags,
            r.valid_len_units == valid_len / LEN_MUL,
    {
        ObjectHandle {
            id,
            runtime_info,
            start,
            meta,
            map_flags,
            valid_len_units: (valid_len / LEN_MUL) as u32,
        }
    }

    /// The ID of the mapped object.
    pub fn id(&self) -> (r: ObjID)
        ensures
            r == self.id,
    {
        self.id
    }

    /// The address of the start of object data.
    pub fn start(&self) -> (r: u64)
        ensures
            r == self.start,
    {
        self.start
    }

    /// The address of the metadata block.
    pub fn meta(&self) -> (r: u64)
        ensures
            r == self.meta,
    {
        self.meta
    }

    /// The control region this handle is counted in, if any.
    pub fn runtime_info(&self) -> (r: Option<usize>)
        ensures
            r == self.runtime_info,
    {
        self.runtime_info
    }

    /// The flags the mapping was made with.
    pub fn map_flags(&self) -> (r: MapFlags)
        ensures
            r == self.map_flags,
    {
        self.map_flags
    }

    /// The number of valid bytes of object data after the start address.
    pub fn valid_len(&self) -> (r: u64)
        ensures
            r == self.spec_valid_len(),
    {
        (self.valid_len_units as u64) * LEN_MUL
    }

    /// Take the handle apart into the raw record form, without touching
    /// any reference count.
    pub fn into_raw(self) -> (r: RawObjectHandle)
        ensures
            r.id == self.id,
            r.runtime_info == self.runtime_info,
            r.start == self.start,
            r.meta == self.meta,
            r.map_flags == self.map_flags.bits,
            r.valid_len == self.valid_len_units,
    {
        RawObjectHandle {
            id: self.id,
            runtime_info: self.runtime_info,
            start: self.start,
            meta: self.meta,
            map_flags: self.map_flags.bits,
            valid_len: self.valid_len_units,
        }
    }

    /// Wrap a raw record as a handle, without touching any reference
    /// count. Undefined flag bits are discarded, as when reading the flags
    /// of a raw handle.
    pub fn from_raw(raw: RawObjectHandle) -> (r: Self)
        ensures
            r.id == raw.id,
            r.runtime_info == raw.runtime_info,
            r.start == raw.start,
            r.meta == raw.meta,
            r.map_flags == MapFlags::spec_from_bits(raw.map_flags),
            r.valid_len_units == raw.valid_len,
    {
        ObjectHandle {
            id: raw.id,
            runtime_info: raw.runtime_info,
            start: raw.start,
            meta: raw.meta,
            map_flags: MapFlags::from_bits_truncate(raw.map_flags),
            valid_len_units: raw.valid_len,
        }
    }
}

/// The handle a raw record denotes, with undefined flag bits discarded.
pub open spec fn spec_handle_of_raw(raw: RawObjectHandle) -> ObjectHandle {
    ObjectHandle {
        id: raw.id,
        runtime_info: raw.runtime_info,
        start: raw.start,
        meta: raw.meta,
        map_flags: MapFlags::spec_from_bits(raw.map_flags),
        valid_len_units: raw.valid_len,
    }
}

/// The result record of a mapping request: a raw handle beside a packed
/// error word. The word carrying the success code means the handle is the
/// payload; any other word carries the error.
#[derive(Clone, Copy, Debug, PartialEq, Eq, Structural)]
pub struct MapResult {
    /// The raw handle; meaningful only on success.
    pub handle: RawObjectHandle,
    /// The packed error word; the success code means no error.
    pub error: u64,
}

impl MapResult {
    /// Pack a mapping outcome into the result record: the handle beside
    /// the success word, or an absent handle beside the packed error.
    pub fn from_result(value: Result<ObjectHandle, TwzError>) -> (r: MapResult)
        ensures
            match value {
                Ok(h) => {
                    &&& r.handle.id == h.id
                    &&& r.handle.runtime_info == h.runtime_info
                    &&& r.handle.start == h.start
                    &&& r.handle.meta == h.meta
                    &&& r.handle.map_flags == h.map_flags.bits
                    &&& r.handle.valid_len == h.valid_len_units
                    &&& r.error == SUCCESS as u64
                },
                Err(e) => {
                    &&& r.handle.id.0 == 0
                    &&& r.handle.runtime_info is None
                    &&& r.error == e.spec_raw()
                },
            },
    {
        match value {
            Ok(handle) => MapResult {
                handle: handle.into_raw(),
                error: RawTwzError::success().raw(),
            },
            Err(e) => MapResult { handle: RawObjectHandle::default(), error: e.raw() },
        }
    }

    /// Unpack the result record: the handle when the error word reads as
    /// success, the decoded typed error otherwise.
    pub fn into_result(self) -> (r: Result<ObjectHandle, TwzError>)
        ensures
            wire_code_field(self.error) == SUCCESS ==> r == Result::<ObjectHandle, TwzError>::Ok(
                spec_handle_of_raw(self.handle),
            ),
            wire_code_field(self.error) != SUCCESS ==> r == Result::<ObjectHandle, TwzError>::Err(
                spec_decode(self.error),
            ),
    {
        let raw = RawTwzError::new(self.error);
        if raw.is_success() {
            Ok(ObjectHandle::from_raw(self.handle))
        } else {
            Err(raw.error())
        }
    }
}

/// The result record of a request answered by a 32-bit value — a foreign
/// object table insertion returning the assigned index — beside a packed
/// error word.
#[derive(Clone, Copy, Debug, Hash, PartialEq, Eq, Structural)]
pub struct U32Result {
    /// The value; meaningful only on success.
    pub val: u32,
    /// The packed error word; the success code means no error.
    pub err: u64,
}

impl U32Result {
    /// Pack an outcome into the result record: the value beside the
    /// success word, or zero beside the packed error.
    pub fn from_result(value: Result<u32, TwzError>) -> (r: U32Result)
        ensures
            match value {
                Ok(v) => r.val == v && r.err == SUCCESS as u64,
                Err(e) => r.val == 0 && r.err == e.spec_raw(),
            },
    {
        match value {
            Ok(val) => U32Result { val, err: RawTwzError::success().raw() },
            Err(e) => U32Result { val: 0, err: e.raw() },
        }
    }

    /// Unpack the result record: the value when the error word reads as
    /// success, the decoded typed error otherwise.
    pub fn into_result(self) -> (r: Result<u32, TwzError>)
        ensures
            wire_code_field(self.err) == SUCCESS ==> r == Result::<u32, TwzError>::Ok(self.val),
            wire_code_field(self.err) != SUCCESS ==> r == Result::<u32, TwzError>::Err(
                spec_decode(self.err),
            ),
    {
        let raw = RawTwzError::new(self.err);
        if raw.is_success() {
            Ok(self.val)
        } else {
            Err(raw.error())
        }
    }
}

} // verus!
