//! The client-visible model of the runtime boundary, and the object handle
//! lifecycle against it.
//!
//! The real boundary — the kernel or runtime performing the mappings — is
//! out of scope; what the client can observe of it is typed state:
//! the objects it knows (metadata, extensions, foreign object table,
//! length) and one control region per active mapping, whose first word is
//! the shared reference count of every handle cloned from that mapping.
//! [`Runtime`] holds exactly that state, and the handle operations are
//! verified against it:
//!
//! - [`Runtime::clone_handle`] increments the shared count of an owning
//!   handle and merely copies a non-owning one;
//! - [`Runtime::drop_handle`] decrements the count and, exactly when the
//!   count falls to zero, appends the mapping's object ID to the release
//!   log — the model of the one release call to the boundary;
//! - [`lemma_release_exactly_once`] states the lifecycle law: N clones
//!   followed by N + 1 drops release exactly once, and never before the
//!   last drop.
//!
//! The reference count crossing the signed 64-bit maximum is a fatal
//! program error, not a recoverable one; the contracts exclude it, so no
//! verified caller can reach the abort.

use vstd::prelude::*;

use crate::create::ObjectCreate;
use crate::create::Protections;
use crate::error::GenericError;
use crate::error::NamingError;
use crate::error::ObjectError;
use crate::error::ResourceError;
use crate::error::TwzError;
use crate::fot::entry_active;
use crate::fot::entry_custom_resolver;
use crate::fot::entry_deleted;
use crate::fot::FotEntry;
use crate::fot::FotTable;
use crate::fot::FOT_FLAG_ACTIVE;
use crate::fot::FOT_FLAG_ALLOCATED;
use crate::fot::FOT_FLAG_DELETED;
use crate::fot::FOT_FLAG_RESOLVER;
use crate::fot::FOT_MAX_ENTRIES;
use crate::object::objid_from_parts;
use crate::object::MapFlags;
use crate::object::MetaExt;
use crate::object::MetaExtTag;
use crate::object::MetaFlags;
use crate::object::MetaInfo;
use crate::object::Nonce;
use crate::object::ObjID;
use crate::object::ObjectHandle;
use crate::object::LEN_MUL;

verus! {

/// A reference count at or above this value means a runaway cloning bug;
/// the process aborts rather than continuing. It equals the signed 64-bit
/// maximum. The contracts here keep every count strictly below it, so
/// verified callers never reach the abort.
pub const REF_COUNT_MAX: u64 = 0x7fff_ffff_ffff_ffff;

/// Each mapping occupies its own slot of this many bytes in the model
/// address space.
pub const SLOT_BYTES: u64 = 0x4000_0000;

/// The metadata block sits at the top of a mapping's slot: this far above
/// the slot's data start, one length unit below the slot's end.
pub const META_OFFSET: u64 = SLOT_BYTES - LEN_MUL;

/// The mappings the boundary can hold at once in this model; slot
/// addresses stay within the 64-bit address space below this bound.
pub const MAX_REGIONS: usize = 0xffff_ffff;

/// One control region: the runtime-private state of one active mapping.
/// Its `count` models the atomic reference-count word at the region's
/// start, shared by all handles cloned from the mapping.
#[derive(Clone, Copy, Debug, PartialEq, Eq, Structural)]
pub struct Region {
    /// The mapped object.
    pub id: ObjID,
    /// How many handles are counted against this mapping. Zero once the
    /// mapping has been released.
    pub count: u64,
    /// The address of the start of object data.
    pub start: u64,
    /// The address of the metadata block.
    pub meta: u64,
    /// The valid mapped length, in [`LEN_MUL`]-byte units.
    pub len_units: u32,
    /// The flags the mapping was made with.
    pub map_flags: MapFlags,
}

/// What the client can observe of one object held by the boundary: the
/// metadata header fields, the extension records and the foreign object
/// table that follow it, and the object's mapped length.
pub struct ObjectState {
    /// The object's ID.
    pub id: ObjID,
    /// The ID nonce in the metadata header.
    pub nonce: Nonce,
    /// The ID of the object holding the owning public key.
    pub kuid: ObjID,
    /// The object flags in the metadata header.
    pub flags: MetaFlags,
    /// The object's default protections.
    pub def_prot: Protections,
    /// The metadata extension records, in layout order.
    pub exts: Vec<MetaExt>,
    /// The foreign object table.
    pub fot: FotTable,
    /// The object's length, in [`LEN_MUL`]-byte units.
    pub len_units: u32,
}

impl ObjectState {
    /// Well-formed: the extension count fits the header's 16-bit field and
    /// the foreign object table is well-formed.
    pub open spec fn wf(&self) -> bool {
        &&& self.exts@.len() <= 0xffff
        &&& self.fot.wf()
    }

    /// The metadata header this object presents: its header fields, with
    /// the entry counts taken from the actual extension and table lengths,
    /// so header and layout can never disagree.
    pub open spec fn spec_meta_info(&self) -> MetaInfo {
        MetaInfo {
            nonce: self.nonce,
            kuid: self.kuid,
            flags: self.flags,
            def_prot: self.def_prot,
            fotcount: self.fot@.len() as u16,
            extcount: self.exts@.len() as u16,
        }
    }

    /// The metadata header of this object.
    pub fn meta_info(&self) -> (r: MetaInfo)
        requires
            self.wf(),
        ensures
            r == self.spec_meta_info(),
    {
        MetaInfo {
            nonce: self.nonce,
            kuid: self.kuid,
            flags: self.flags,
            def_prot: self.def_prot,
            fotcount: self.fot.len() as u16,
            extcount: self.exts.len() as u16,
        }
    }
}

/// Two object states that agree on everything but their foreign object
/// table.
pub open spec fn same_object_but_fot(a: ObjectState, b: ObjectState) -> bool {
    &&& a.id == b.id
    &&& a.nonce == b.nonce
    &&& a.kuid == b.kuid
    &&& a.flags == b.flags
    &&& a.def_prot == b.def_prot
    &&& a.exts@ == b.exts@
    &&& a.len_units == b.len_units
}

/// Two object states that agree on everything but their extension records.
pub open spec fn same_object_but_exts(a: ObjectState, b: ObjectState) -> bool {
    &&& a.id == b.id
    &&& a.nonce == b.nonce
    &&& a.kuid == b.kuid
    &&& a.flags == b.flags
    &&& a.def_prot == b.def_prot
    &&& a.fot@ == b.fot@
    &&& a.len_units == b.len_units
}

/// A freshly created object: empty extension list and table, the given
/// length, key and protections from the creation specification, and a zero
/// nonce (the model keeps no entropy source).
pub open spec fn is_fresh_object(
    o: ObjectState,
    id: ObjID,
    create: ObjectCreate,
    len_units: u32,
) -> bool {
    &&& o.id == id
    &&& o.nonce == (Nonce(0))
    &&& o.kuid == create.kuid
    &&& o.flags == (MetaFlags(0))
    &&& o.def_prot == create.def_prot
    &&& o.exts@ == Seq::<MetaExt>::empty()
    &&& o.fot@ == Seq::<FotEntry>::empty()
    &&& o.len_units == len_units
}

/// The model address of the mapping placed in the given slot.
pub open spec fn spec_slot_start(slot: int) -> u64 {
    (((slot + 1) * (SLOT_BYTES as int)) as u64)
}

/// The model address of the metadata block of the mapping placed in the
/// given slot.
pub open spec fn spec_slot_meta(slot: int) -> u64 {
    ((spec_slot_start(slot) + META_OFFSET) as u64)
}

/// The client-visible state of the runtime boundary: the objects it
/// holds, one control region per mapping it has made, and the log of
/// release calls it has received. The handle lifecycle operations below
/// are the typed requests the boundary accepts.
pub struct Runtime {
    /// The objects the boundary holds, with distinct IDs.
    pub objects: Vec<ObjectState>,
    /// One control region per mapping, in creation order. Regions are
    /// never removed, so a handle's region index stays valid.
    pub regions: Vec<Region>,
    /// The object ID of every release call, in order. One entry is
    /// appended each time the last handle onto a mapping is dropped.
    pub release_log: Vec<ObjID>,
}

impl Runtime {
    /// Well-formed: object IDs are distinct and every object is
    /// well-formed.
    pub open spec fn wf(&self) -> bool {
        &&& forall|i: int|
            0 <= i < self.objects@.len() ==> (#[trigger] self.objects@[i]).wf()
        &&& forall|i: int, j: int|
            0 <= i < j < self.objects@.len() ==> (#[trigger] self.objects@[i]).id != (
            #[trigger] self.objects@[j]).id
    }

    /// Whether the boundary holds an object with this ID.
    pub open spec fn spec_has_object(&self, id: ObjID) -> bool {
        exists|i: int| 0 <= i < self.objects@.len() && (#[trigger] self.objects@[i]).id == id
    }

    /// The index of the object with this ID.
    pub open spec fn spec_object_index(&self, id: ObjID) -> int {
        choose|i: int| 0 <= i < self.objects@.len() && (#[trigger] self.objects@[i]).id == id
    }

    /// The object with this ID.
    pub open spec fn spec_object(&self, id: ObjID) -> ObjectState {
        self.objects@[self.spec_object_index(id)]
    }

    /// Whether a handle is consistent with this state: an owning handle
    /// names an existing region that maps the handle's object and still
    /// counts at least one handle. A non-owning handle is always
    /// consistent.
    pub open spec fn spec_valid_handle(&self, h: ObjectHandle) -> bool {
        h.runtime_info matches Some(i) ==> {
            &&& i < self.regions@.len()
            &&& self.regions@[i as int].count >= 1
            &&& self.regions@[i as int].id == h.id
        }
    }

    /// A boundary holding no objects and no mappings.
    pub fn new() -> (r: Runtime)
        ensures
            r.objects@ == Seq::<ObjectState>::empty(),
            r.regions@ == Seq::<Region>::empty(),
            r.release_log@ == Seq::<ObjID>::empty(),
            r.wf(),
    {
        Runtime { objects: Vec::new(), regions: Vec::new(), release_log: Vec::new() }
    }

    /// The index of the object with the given ID, or `None` when the
    /// boundary holds no such object.
    fn find_object_index(&self, id: ObjID) -> (r: Option<usize>)
        requires
            self.wf(),
        ensures
            match r {
                Some(i) => {
                    &&& i < self.objects@.len()
                    &&& self.objects@[i as int].id == id
                    &&& self.spec_has_object(id)
                    &&& self.spec_object_index(id) == i as int
                    &&& self.spec_object(id) == self.objects@[i as int]
                },
                None => !self.spec_has_object(id),
            },
    {
        let n = self.objects.len();
        let mut k: usize = 0;
        while k < n
            invariant
                n == self.objects@.len(),
                k <= n,
                self.wf(),
                forall|j: int| 0 <= j < k ==> (#[trigger] self.objects@[j]).id != id,
            decreases n - k,
        {
            if self.objects[k].id == id {
                proof {
                    assert(self.spec_has_object(id));
                    let j = self.spec_object_index(id);
                    assert(0 <= j < self.objects@.len() && self.objects@[j].id == id);
                    if j < k as int {
                        assert(self.objects@[j].id != self.objects@[k as int].id);
                    } else if j > k as int {
                        assert(self.objects@[k as int].id != self.objects@[j].id);
                    }
                }
                return Some(k);
            }
            k += 1;
        }
        None
    }

    /// Ask the boundary to create an object described by a creation
    /// specification, with the given length. Succeeds exactly when the ID
    /// is not yet taken; otherwise nothing changes and the name service
    /// reports that the name already exists.
    pub fn create_object(&mut self, id: ObjID, create: &ObjectCreate, len_units: u32) -> (r: Result<
        (),
        TwzError,
    >)
        requires
            old(self).wf(),
        ensures
            final(self).wf(),
            match r {
                Ok(()) => {
                    &&& !old(self).spec_has_object(id)
                    &&& final(self).objects@.len() == old(self).objects@.len() + 1
                    &&& forall|j: int|
                        0 <= j < old(self).objects@.len() ==> final(self).objects@[j] == old(
                            self,
                        ).objects@[j]
                    &&& is_fresh_object(
                        final(self).objects@[old(self).objects@.len() as int],
                        id,
                        *create,
                        len_units,
                    )
                    &&& final(self).spec_has_object(id)
                    &&& final(self).spec_object_index(id) == old(self).objects@.len() as int
                    &&& final(self).regions@ == old(self).regions@
                    &&& final(self).release_log@ == old(self).release_log@
                },
                Err(e) => {
                    &&& e == TwzError::Naming(NamingError::AlreadyExists)
                    &&& old(self).spec_has_object(id)
                    &&& *final(self) == *old(self)
                },
            },
    {
        if self.find_object_index(id).is_some() {
            return Err(TwzError::Naming(NamingError::AlreadyExists));
        }
        let fresh = ObjectState {
            id,
            nonce: Nonce(0),
            kuid: create.kuid,
            flags: MetaFlags(0),
            def_prot: create.def_prot,
            exts: Vec::new(),
            fot: FotTable::new(),
            len_units,
        };
        let ghost n = self.objects@.len() as int;
        self.objects.push(fresh);
        proof {
            assert(self.objects@[n].id == id);
            assert(self.spec_has_object(id));
            let j = self.spec_object_index(id);
            assert(0 <= j < self.objects@.len() && self.objects@[j].id == id);
            if j < n {
                assert(old(self).objects@[j].id == id);
                assert(old(self).spec_has_object(id));
            }
            assert forall|i: int, j2: int|
                0 <= i < j2 < self.objects@.len() implies (#[trigger] self.objects@[i]).id != (
            #[trigger] self.objects@[j2]).id by {
                if j2 < n {
                    assert(old(self).objects@[i].id != old(self).objects@[j2].id);
                } else {
                    if old(self).objects@[i].id == id {
                        assert(old(self).spec_has_object(id));
                    }
                }
            }
        }
        Ok(())
    }

    /// Ask the boundary to map the object with the given ID under the
    /// given flags. Succeeds exactly when the object exists and a mapping
    /// slot is free: a fresh control region counting one handle is created
    /// and an owning handle onto it returned. On failure nothing changes:
    /// a missing object reports that no such object exists, and a boundary
    /// out of mapping slots reports resource exhaustion.
    pub fn map_object(&mut self, id: ObjID, flags: MapFlags) -> (r: Result<ObjectHandle, TwzError>)
        requires
            old(self).wf(),
        ensures
            final(self).wf(),
            final(self).objects@ == old(self).objects@,
            final(self).release_log@ == old(self).release_log@,
            match r {
                Ok(h) => {
                    &&& old(self).spec_has_object(id)
                    &&& old(self).regions@.len() < MAX_REGIONS
                    &&& h.id == id
                    &&& h.map_flags == flags
                    &&& h.runtime_info == Some(old(self).regions@.len() as usize)
                    &&& h.start == spec_slot_start(old(self).regions@.len() as int)
                    &&& h.meta == spec_slot_meta(old(self).regions@.len() as int)
                    &&& h.valid_len_units == old(self).spec_object(id).len_units
                    &&& final(self).regions@ == old(self).regions@.push(
                        (Region {
                            id,
                            count: 1,
                            start: h.start,
                            meta: h.meta,
                            len_units: h.valid_len_units,
                            map_flags: flags,
                        }),
                    )
                    &&& final(self).spec_valid_handle(h)
                },
                Err(e) => {
                    &&& *final(self) == *old(self)
                    &&& (e == TwzError::Object(ObjectError::NoSuchObject) || e == TwzError::Resource(
                        ResourceError::OutOfResources,
                    ))
                    &&& (e == TwzError::Object(ObjectError::NoSuchObject) <==> !old(
                        self,
                    ).spec_has_object(id))
                    &&& (e == TwzError::Resource(ResourceError::OutOfResources) <==> (old(
                        self,
                    ).spec_has_object(id) && old(self).regions@.len() >= MAX_REGIONS))
                },
            },
    {
        match self.find_object_index(id) {
            None => Err(TwzError::Object(ObjectError::NoSuchObject)),
            Some(i) => {
                if self.regions.len() >= MAX_REGIONS {
                    return Err(TwzError::Resource(ResourceError::OutOfResources));
                }
                let len_units = self.objects[i].len_units;
                let slot = self.regions.len();
                let start = (slot as u64 + 1) * SLOT_BYTES;
                let meta = start + META_OFFSET;
                self.regions.push(
                    Region { id, count: 1, start, meta, len_units, map_flags: flags },
                );
                Ok(
                    ObjectHandle {
                        id,
                        runtime_info: Some(slot),
                        start,
                        meta,
                        map_flags: flags,
                        valid_len_units: len_units,
                    },
                )
            },
        }
    }

    /// The number of handles counted against the mapping an owning handle
    /// names, or `None` for a non-owning handle.
    pub fn ref_count(&self, h: &ObjectHandle) -> (r: Option<u64>)
        requires
            self.spec_valid_handle(*h),
        ensures
            r == match h.runtime_info {
                Some(i) => Some(self.regions@[i as int].count),
                None => None::<u64>,
            },
    {
        match h.runtime_info {
            Some(i) => Some(self.regions[i].count),
            None => None,
        }
    }

    /// Clone a handle.
    ///
    /// For an owning handle, the shared count of its mapping goes up by
    /// one and the clone is counted against the same mapping; nothing else
    /// changes, and in particular no release happens. Incrementing past
    /// [`REF_COUNT_MAX`] would abort the process, so the contract demands
    /// the count stays below it. For a non-owning handle the raw fields
    /// are copied and no shared state is touched at all.
    pub fn clone_handle(&mut self, h: &ObjectHandle) -> (r: ObjectHandle)
        requires
            old(self).spec_valid_handle(*h),
            h.runtime_info matches Some(i) ==> old(self).regions@[i as int].count < REF_COUNT_MAX,
        ensures
            r == *h,
            final(self).objects@ == old(self).objects@,
            final(self).release_log@ == old(self).release_log@,
            h.runtime_info matches Some(i) ==> final(self).regions@ == old(self).regions@.update(
                i as int,
                (Region {
                    count: (old(self).regions@[i as int].count + 1) as u64,
                    ..old(self).regions@[i as int]
                }),
            ),
            h.runtime_info is None ==> *final(self) == *old(self),
            final(self).spec_valid_handle(*h),
            final(self).spec_valid_handle(r),
            old(self).wf() ==> final(self).wf(),
    {
        match h.runtime_info {
            Some(i) => {
                let region = self.regions[i];
                self.regions.set(i, Region { count: region.count + 1, ..region });
            },
            None => (),
        }
        ObjectHandle {
            id: h.id,
            runtime_info: h.runtime_info,
            start: h.start,
            meta: h.meta,
            map_flags: h.map_flags,
            valid_len_units: h.valid_len_units,
        }
    }

    /// Drop a handle.
    ///
    /// For an owning handle, the shared count of its mapping goes down by
    /// one; exactly when this handle was the last one counted — the count
    /// falls to zero — the boundary receives the one release call for the
    /// mapping, recorded by appending the object's ID to the release log.
    /// Dropping a non-owning handle does nothing at all.
    pub fn drop_handle(&mut self, h: ObjectHandle)
        requires
            old(self).spec_valid_handle(h),
        ensures
            final(self).objects@ == old(self).objects@,
            h.runtime_info is None ==> *final(self) == *old(self),
            h.runtime_info matches Some(i) ==> {
                &&& final(self).regions@ == old(self).regions@.update(
                    i as int,
                    (Region {
                        count: (old(self).regions@[i as int].count - 1) as u64,
                        ..old(self).regions@[i as int]
                    }),
                )
                &&& final(self).release_log@ == if old(self).regions@[i as int].count == 1 {
                    old(self).release_log@.push(h.id)
                } else {
                    old(self).release_log@
                }
            },
            old(self).wf() ==> final(self).wf(),
    {
        match h.runtime_info {
            Some(i) => {
                let region = self.regions[i];
                self.regions.set(i, Region { count: region.count - 1, ..region });
                if region.count == 1 {
                    self.release_log.push(h.id);
                }
            },
            None => (),
        }
    }
}

/// Two runtimes whose objects carry the same IDs slot for slot agree on
/// which objects exist and where they sit.
proof fn lemma_same_ids_same_index(a: Runtime, b: Runtime, id: ObjID)
    requires
        a.wf(),
        b.objects@.len() == a.objects@.len(),
        forall|j: int|
            0 <= j < a.objects@.len() ==> (#[trigger] a.objects@[j]).id == b.objects@[j].id,
    ensures
        b.spec_has_object(id) == a.spec_has_object(id),
        a.spec_has_object(id) ==> b.spec_object_index(id) == a.spec_object_index(id),
{
    if a.spec_has_object(id) {
        let ia = a.spec_object_index(id);
        assert(b.objects@[ia].id == id);
        assert(b.spec_has_object(id));
        let ib = b.spec_object_index(id);
        assert(a.objects@[ib].id == id);
        if ia < ib {
            assert(a.objects@[ia].id != a.objects@[ib].id);
        } else if ib < ia {
            assert(a.objects@[ib].id != a.objects@[ia].id);
        }
    }
    if b.spec_has_object(id) {
        let ib = b.spec_object_index(id);
        assert(a.objects@[ib].id == id);
        assert(a.spec_has_object(id));
    }
}

/// Replacing an object by one with the same ID keeps the object list
/// well-formed.
proof fn lemma_wf_after_update(a: Runtime, b: Runtime, oi: int)
    requires
        a.wf(),
        0 <= oi < a.objects@.len(),
        b.objects@.len() == a.objects@.len(),
        forall|j: int| 0 <= j < a.objects@.len() && j != oi ==> b.objects@[j] == a.objects@[j],
        b.objects@[oi].id == a.objects@[oi].id,
        b.objects@[oi].wf(),
    ensures
        b.wf(),
        forall|j: int|
            0 <= j < a.objects@.len() ==> (#[trigger] a.objects@[j]).id == b.objects@[j].id,
{
    assert forall|j: int| 0 <= j < b.objects@.len() implies (#[trigger] b.objects@[j]).wf() by {
        if j != oi {
            assert(a.objects@[j].wf());
        }
    }
    assert forall|i: int, j: int| 0 <= i < j < b.objects@.len() implies (
    #[trigger] b.objects@[i]).id != (#[trigger] b.objects@[j]).id by {
        assert(a.objects@[i].id != a.objects@[j].id);
    }
}

/// The flags a freshly inserted table entry ends up with: allocated and
/// active, keeping the custom-resolver bit of the entry handed in.
pub open spec fn spec_inserted_flags(custom: bool) -> u32 {
    if custom {
        (FOT_FLAG_ALLOCATED | FOT_FLAG_RESOLVER) | FOT_FLAG_ACTIVE
    } else {
        FOT_FLAG_ALLOCATED | FOT_FLAG_ACTIVE
    }
}

/// The object a table entry resolves to, or the error resolution reports:
/// an index beyond the table, an entry not (or no longer) active, is an
/// invalid-entry error in the object category; an entry owned by a custom
/// resolver cannot be resolved by the boundary itself.
pub open spec fn spec_resolve_target(o: ObjectState, idx: u64) -> Result<ObjID, TwzError> {
    if idx >= o.fot@.len() {
        Err(TwzError::Object(ObjectError::InvalidFote))
    } else {
        let e = o.fot@[idx as int];
        if !entry_active(e) || entry_deleted(e) {
            Err(TwzError::Object(ObjectError::InvalidFote))
        } else if entry_custom_resolver(e) {
            Err(TwzError::Generic(GenericError::NotSupported))
        } else {
            Ok(ObjID(objid_from_parts(e.val_hi, e.val_lo)))
        }
    }
}

/// Whether a live mapping's span contains the given address.
pub open spec fn region_covers(r: Region, addr: u64) -> bool {
    &&& r.count >= 1
    &&& r.start <= addr
    &&& addr - r.start < (r.len_units as int) * (LEN_MUL as int)
}

impl Runtime {
    /// Append a cross-object reference to the foreign object table of the
    /// handle's object. The new entry is assigned the next free index —
    /// indices grow monotonically and no existing entry moves — and ends
    /// up allocated and active. Fails, changing nothing, when the handle's
    /// object does not exist or its table is full.
    pub fn insert_fot(&mut self, h: &ObjectHandle, entry: FotEntry) -> (r: Result<u32, TwzError>)
        requires
            old(self).wf(),
        ensures
            final(self).wf(),
            final(self).regions@ == old(self).regions@,
            final(self).release_log@ == old(self).release_log@,
            match r {
                Ok(idx) => {
                    let oi = old(self).spec_object_index(h.id);
                    &&& old(self).spec_has_object(h.id)
                    &&& old(self).spec_object(h.id).fot@.len() < FOT_MAX_ENTRIES
                    &&& idx == old(self).spec_object(h.id).fot@.len()
                    &&& final(self).objects@.len() == old(self).objects@.len()
                    &&& forall|j: int|
                        0 <= j < old(self).objects@.len() && j != oi ==> final(self).objects@[j]
                            == old(self).objects@[j]
                    &&& same_object_but_fot(final(self).objects@[oi], old(self).spec_object(h.id))
                    &&& final(self).objects@[oi].fot@ == old(self).spec_object(h.id).fot@.push(
                        (FotEntry {
                            val_hi: entry.val_hi,
                            val_lo: entry.val_lo,
                            resolver: entry.resolver,
                            flags: spec_inserted_flags(entry_custom_resolver(entry)),
                        }),
                    )
                    &&& final(self).spec_has_object(h.id)
                    &&& final(self).spec_object_index(h.id) == oi
                },
                Err(e) => {
                    &&& *final(self) == *old(self)
                    &&& (e == TwzError::Object(ObjectError::NoSuchObject) || e == TwzError::Resource(
                        ResourceError::OutOfResources,
                    ))
                    &&& (e == TwzError::Object(ObjectError::NoSuchObject) <==> !old(
                        self,
                    ).spec_has_object(h.id))
                    &&& (e == TwzError::Resource(ResourceError::OutOfResources) <==> (old(
                        self,
                    ).spec_has_object(h.id) && old(self).spec_object(h.id).fot@.len()
                        >= FOT_MAX_ENTRIES))
                },
            },
    {
        let oi = match self.find_object_index(h.id) {
            None => {
                return Err(TwzError::Object(ObjectError::NoSuchObject));
            },
            Some(i) => i,
        };
        if self.objects[oi].fot.len() >= FOT_MAX_ENTRIES {
            return Err(TwzError::Resource(ResourceError::OutOfResources));
        }
        let custom = entry.flags & FOT_FLAG_RESOLVER != 0;
        let ghost before = *self;
        let obj = &mut self.objects[oi];
        let ghost old_fot = obj.fot@;
        let idx = obj.fot.insert(entry.val_hi, entry.val_lo, entry.resolver, custom);
        proof {
            assert(FOT_FLAG_ALLOCATED & FOT_FLAG_ALLOCATED != 0 && FOT_FLAG_ALLOCATED
                & FOT_FLAG_DELETED == 0 && (FOT_FLAG_ALLOCATED | FOT_FLAG_RESOLVER)
                & FOT_FLAG_ALLOCATED != 0 && (FOT_FLAG_ALLOCATED | FOT_FLAG_RESOLVER)
                & FOT_FLAG_DELETED == 0) by (bit_vector);
        }
        obj.fot.activate(idx as usize);
        proof {
            let e_final = FotEntry {
                val_hi: entry.val_hi,
                val_lo: entry.val_lo,
                resolver: entry.resolver,
                flags: spec_inserted_flags(entry_custom_resolver(entry)),
            };
            assert(custom == entry_custom_resolver(entry));
            assert(obj.fot@ =~= old_fot.push(e_final));
            assert(self.objects@ == before.objects@.update(oi as int, *obj));
            lemma_wf_after_update(before, *self, oi as int);
            lemma_same_ids_same_index(before, *self, h.id);
        }
        Ok(idx)
    }

    /// Mark an entry of the handle's object's table deleted. The entry is
    /// never removed and no other entry changes, so concurrent resolutions
    /// against other indices stay valid; resolving the deleted index
    /// afterwards reports an invalid entry. Fails, changing nothing, when
    /// the handle's object does not exist or the index names no active
    /// entry.
    pub fn delete_fot(&mut self, h: &ObjectHandle, idx: u64) -> (r: Result<(), TwzError>)
        requires
            old(self).wf(),
        ensures
            final(self).wf(),
            final(self).regions@ == old(self).regions@,
            final(self).release_log@ == old(self).release_log@,
            match r {
                Ok(()) => {
                    let oi = old(self).spec_object_index(h.id);
                    let fot = old(self).spec_object(h.id).fot@;
                    &&& old(self).spec_has_object(h.id)
                    &&& idx < fot.len()
                    &&& entry_active(fot[idx as int])
                    &&& !entry_deleted(fot[idx as int])
                    &&& final(self).objects@.len() == old(self).objects@.len()
                    &&& forall|j: int|
                        0 <= j < old(self).objects@.len() && j != oi ==> final(self).objects@[j]
                            == old(self).objects@[j]
                    &&& same_object_but_fot(final(self).objects@[oi], old(self).spec_object(h.id))
                    &&& final(self).objects@[oi].fot@ == fot.update(
                        idx as int,
                        (FotEntry { flags: fot[idx as int].flags | FOT_FLAG_DELETED, ..fot[
                            idx as int
                        ] }),
                    )
                    &&& final(self).spec_has_object(h.id)
                    &&& final(self).spec_object_index(h.id) == oi
                },
                Err(e) => {
                    &&& *final(self) == *old(self)
                    &&& (e == TwzError::Object(ObjectError::NoSuchObject) || e == TwzError::Object(
                        ObjectError::InvalidFote,
                    ))
                    &&& (e == TwzError::Object(ObjectError::NoSuchObject) <==> !old(
                        self,
                    ).spec_has_object(h.id))
                    &&& (e == TwzError::Object(ObjectError::InvalidFote) <==> (old(
                        self,
                    ).spec_has_object(h.id) && (idx >= old(self).spec_object(h.id).fot@.len()
                        || !entry_active(old(self).spec_object(h.id).fot@[idx as int])
                        || entry_deleted(old(self).spec_object(h.id).fot@[idx as int]))))
                },
            },
    {
        let oi = match self.find_object_index(h.id) {
            None => {
                return Err(TwzError::Object(ObjectError::NoSuchObject));
            },
            Some(i) => i,
        };
        if idx >= self.objects[oi].fot.len() as u64 {
            return Err(TwzError::Object(ObjectError::InvalidFote));
        }
        let e = self.objects[oi].fot.entry(idx as usize);
        if e.flags & FOT_FLAG_ACTIVE == 0 || e.flags & FOT_FLAG_DELETED != 0 {
            return Err(TwzError::Object(ObjectError::InvalidFote));
        }
        let ghost before = *self;
        let obj = &mut self.objects[oi];
        obj.fot.mark_deleted(idx as usize);
        proof {
            assert(self.objects@ == before.objects@.update(oi as int, *obj));
            lemma_wf_after_update(before, *self, oi as int);
            lemma_same_ids_same_index(before, *self, h.id);
        }
        Ok(())
    }

    /// Resolve an entry of the handle's object's table into a fresh
    /// owning handle onto the referenced object, mapped under the same
    /// flags as the handle. Fails, changing nothing, when the handle's
    /// object does not exist, the index names no live entry
    /// ([`spec_resolve_target`] says which error), the referenced object
    /// does not exist, or the boundary is out of mapping slots.
    pub fn resolve_fot(&mut self, h: &ObjectHandle, idx: u64) -> (r: Result<
        ObjectHandle,
        TwzError,
    >)
        requires
            old(self).wf(),
        ensures
            final(self).wf(),
            final(self).objects@ == old(self).objects@,
            final(self).release_log@ == old(self).release_log@,
            !old(self).spec_has_object(h.id) ==> r == Result::<ObjectHandle, TwzError>::Err(
                TwzError::Object(ObjectError::NoSuchObject),
            ) && *final(self) == *old(self),
            old(self).spec_has_object(h.id) ==> match spec_resolve_target(
                old(self).spec_object(h.id),
                idx,
            ) {
                Err(e) => r == Result::<ObjectHandle, TwzError>::Err(e) && *final(self) == *old(
                    self,
                ),
                Ok(tid) => {
                    &&& !old(self).spec_has_object(tid) ==> r == Result::<
                        ObjectHandle,
                        TwzError,
                    >::Err(TwzError::Object(ObjectError::NoSuchObject)) && *final(self) == *old(
                        self,
                    )
                    &&& (old(self).spec_has_object(tid) && old(self).regions@.len() >= MAX_REGIONS)
                        ==> r == Result::<ObjectHandle, TwzError>::Err(
                        TwzError::Resource(ResourceError::OutOfResources),
                    ) && *final(self) == *old(self)
                    &&& (old(self).spec_has_object(tid) && old(self).regions@.len() < MAX_REGIONS)
                        ==> (r matches Ok(h2) && {
                        &&& h2.id == tid
                        &&& h2.map_flags == h.map_flags
                        &&& h2.runtime_info == Some(old(self).regions@.len() as usize)
                        &&& h2.start == spec_slot_start(old(self).regions@.len() as int)
                        &&& h2.meta == spec_slot_meta(old(self).regions@.len() as int)
                        &&& h2.valid_len_units == old(self).spec_object(tid).len_units
                        &&& final(self).regions@ == old(self).regions@.push(
                            (Region {
                                id: tid,
                                count: 1,
                                start: h2.start,
                                meta: h2.meta,
                                len_units: h2.valid_len_units,
                                map_flags: h.map_flags,
                            }),
                        )
                        &&& final(self).spec_valid_handle(h2)
                    })
                },
            },
    {
        let oi = match self.find_object_index(h.id) {
            None => {
                return Err(TwzError::Object(ObjectError::NoSuchObject));
            },
            Some(i) => i,
        };
        if idx >= self.objects[oi].fot.len() as u64 {
            return Err(TwzError::Object(ObjectError::InvalidFote));
        }
        let e = self.objects[oi].fot.entry(idx as usize);
        if e.flags & FOT_FLAG_ACTIVE == 0 || e.flags & FOT_FLAG_DELETED != 0 {
            return Err(TwzError::Object(ObjectError::InvalidFote));
        }
        if e.flags & FOT_FLAG_RESOLVER != 0 {
            return Err(TwzError::Generic(GenericError::NotSupported));
        }
        let target = ObjID::from_parts([e.val_hi, e.val_lo]);
        self.map_object(target, h.map_flags)
    }

    /// Change the recorded length of an object, as when its backing grows.
    /// Existing handles keep their old valid length until they are
    /// refreshed with [`Runtime::update_handle`]. Fails, changing nothing,
    /// when no such object exists.
    pub fn resize_object(&mut self, id: ObjID, len_units: u32) -> (r: Result<(), TwzError>)
        requires
            old(self).wf(),
        ensures
            final(self).wf(),
            final(self).regions@ == old(self).regions@,
            final(self).release_log@ == old(self).release_log@,
            match r {
                Ok(()) => {
                    let oi = old(self).spec_object_index(id);
                    &&& old(self).spec_has_object(id)
                    &&& final(self).objects@.len() == old(self).objects@.len()
                    &&& forall|j: int|
                        0 <= j < old(self).objects@.len() && j != oi ==> final(self).objects@[j]
                            == old(self).objects@[j]
                    &&& final(self).objects@[oi] == (ObjectState {
                        len_units,
                        ..old(self).spec_object(id)
                    })
                    &&& final(self).spec_has_object(id)
                    &&& final(self).spec_object_index(id) == oi
                },
                Err(e) => {
                    &&& e == TwzError::Object(ObjectError::NoSuchObject)
                    &&& !old(self).spec_has_object(id)
                    &&& *final(self) == *old(self)
                },
            },
    {
        let oi = match self.find_object_index(id) {
            None => {
                return Err(TwzError::Object(ObjectError::NoSuchObject));
            },
            Some(i) => i,
        };
        let ghost before = *self;
        let obj = &mut self.objects[oi];
        obj.len_units = len_units;
        proof {
            assert(self.objects@ == before.objects@.update(oi as int, *obj));
            lemma_wf_after_update(before, *self, oi as int);
            lemma_same_ids_same_index(before, *self, id);
        }
        Ok(())
    }

    /// Append a metadata extension record to an object. Fails, changing
    /// nothing, when no such object exists or its extension count would no
    /// longer fit the header's 16-bit field.
    pub fn push_meta_ext(&mut self, id: ObjID, ext: MetaExt) -> (r: Result<(), TwzError>)
        requires
            old(self).wf(),
        ensures
            final(self).wf(),
            final(self).regions@ == old(self).regions@,
            final(self).release_log@ == old(self).release_log@,
            match r {
                Ok(()) => {
                    let oi = old(self).spec_object_index(id);
                    &&& old(self).spec_has_object(id)
                    &&& old(self).spec_object(id).exts@.len() < 0xffff
                    &&& final(self).objects@.len() == old(self).objects@.len()
                    &&& forall|j: int|
                        0 <= j < old(self).objects@.len() && j != oi ==> final(self).objects@[j]
                            == old(self).objects@[j]
                    &&& same_object_but_exts(final(self).objects@[oi], old(self).spec_object(id))
                    &&& final(self).objects@[oi].exts@ == old(self).spec_object(id).exts@.push(ext)
                    &&& final(self).spec_has_object(id)
                    &&& final(self).spec_object_index(id) == oi
                },
                Err(e) => {
                    &&& *final(self) == *old(self)
                    &&& (e == TwzError::Object(ObjectError::NoSuchObject) || e == TwzError::Resource(
                        ResourceError::OutOfResources,
                    ))
                    &&& (e == TwzError::Object(ObjectError::NoSuchObject) <==> !old(
                        self,
                    ).spec_has_object(id))
                    &&& (e == TwzError::Resource(ResourceError::OutOfResources) <==> (old(
                        self,
                    ).spec_has_object(id) && old(self).spec_object(id).exts@.len() >= 0xffff))
                },
            },
    {
        let oi = match self.find_object_index(id) {
            None => {
                return Err(TwzError::Object(ObjectError::NoSuchObject));
            },
            Some(i) => i,
        };
        if self.objects[oi].exts.len() >= 0xffff {
            return Err(TwzError::Resource(ResourceError::OutOfResources));
        }
        let ghost before = *self;
        let obj = &mut self.objects[oi];
        obj.exts.push(ext);
        proof {
            assert(self.objects@ == before.objects@.update(oi as int, *obj));
            lemma_wf_after_update(before, *self, oi as int);
            lemma_same_ids_same_index(before, *self, id);
        }
        Ok(())
    }

    /// Refresh a handle in place after its object changed, taking over the
    /// object's current length. On failure — the object no longer exists —
    /// the handle is left unchanged.
    pub fn update_handle(&self, h: &mut ObjectHandle) -> (r: Result<(), TwzError>)
        requires
            self.wf(),
        ensures
            match r {
                Ok(()) => {
                    &&& self.spec_has_object(old(h).id)
                    &&& *final(h) == (ObjectHandle {
                        valid_len_units: self.spec_object(old(h).id).len_units,
                        ..*old(h)
                    })
                },
                Err(e) => {
                    &&& e == TwzError::Object(ObjectError::NoSuchObject)
                    &&& !self.spec_has_object(old(h).id)
                    &&& *final(h) == *old(h)
                },
            },
    {
        match self.find_object_index(h.id) {
            None => Err(TwzError::Object(ObjectError::NoSuchObject)),
            Some(i) => {
                h.valid_len_units = self.objects[i].len_units;
                Ok(())
            },
        }
    }

    /// Map two objects in one request. When both exist, both mappings are
    /// made, in order. When the second is missing, the first mapping has
    /// already been made and is released again before the error returns —
    /// its dead region and the release-log entry remain, as the model of
    /// the release call the boundary received.
    pub fn map_two_objects(
        &mut self,
        id1: ObjID,
        flags1: MapFlags,
        id2: ObjID,
        flags2: MapFlags,
    ) -> (r: Result<(ObjectHandle, ObjectHandle), TwzError>)
        requires
            old(self).wf(),
            old(self).regions@.len() + 1 < MAX_REGIONS,
        ensures
            final(self).wf(),
            final(self).objects@ == old(self).objects@,
            match r {
                Ok((h1, h2)) => {
                    &&& old(self).spec_has_object(id1)
                    &&& old(self).spec_has_object(id2)
                    &&& h1.id == id1 && h1.map_flags == flags1
                    &&& h1.runtime_info == Some(old(self).regions@.len() as usize)
                    &&& h1.start == spec_slot_start(old(self).regions@.len() as int)
                    &&& h1.meta == spec_slot_meta(old(self).regions@.len() as int)
                    &&& h1.valid_len_units == old(self).spec_object(id1).len_units
                    &&& h2.id == id2 && h2.map_flags == flags2
                    &&& h2.runtime_info == Some((old(self).regions@.len() + 1) as usize)
                    &&& h2.start == spec_slot_start(old(self).regions@.len() as int + 1)
                    &&& h2.meta == spec_slot_meta(old(self).regions@.len() as int + 1)
                    &&& h2.valid_len_units == old(self).spec_object(id2).len_units
                    &&& final(self).regions@ == old(self).regions@.push(
                        (Region {
                            id: id1,
                            count: 1,
                            start: h1.start,
                            meta: h1.meta,
                            len_units: h1.valid_len_units,
                            map_flags: flags1,
                        }),
                    ).push(
                        (Region {
                            id: id2,
                            count: 1,
                            start: h2.start,
                            meta: h2.meta,
                            len_units: h2.valid_len_units,
                            map_flags: flags2,
                        }),
                    )
                    &&& final(self).release_log@ == old(self).release_log@
                    &&& final(self).spec_valid_handle(h1)
                    &&& final(self).spec_valid_handle(h2)
                },
                Err(e) => {
                    &&& e == TwzError::Object(ObjectError::NoSuchObject)
                    &&& (!old(self).spec_has_object(id1) || !old(self).spec_has_object(id2))
                    &&& !old(self).spec_has_object(id1) ==> *final(self) == *old(self)
                    &&& (old(self).spec_has_object(id1) && !old(self).spec_has_object(id2)) ==> {
                        &&& final(self).regions@ == old(self).regions@.push(
                            (Region {
                                id: id1,
                                count: 0,
                                start: spec_slot_start(old(self).regions@.len() as int),
                                meta: spec_slot_meta(old(self).regions@.len() as int),
                                len_units: old(self).spec_object(id1).len_units,
                                map_flags: flags1,
                            }),
                        )
                        &&& final(self).release_log@ == old(self).release_log@.push(id1)
                    }
                },
            },
    {
        let h1 = match self.map_object(id1, flags1) {
            Err(e) => {
                return Err(e);
            },
            Ok(h) => h,
        };
        let ghost mid = *self;
        match self.map_object(id2, flags2) {
            Ok(h2) => Ok((h1, h2)),
            Err(e) => {
                self.drop_handle(h1);
                proof {
                    assert(self.regions@ =~= old(self).regions@.push(
                        (Region {
                            id: id1,
                            count: 0,
                            start: spec_slot_start(old(self).regions@.len() as int),
                            meta: spec_slot_meta(old(self).regions@.len() as int),
                            len_units: old(self).spec_object(id1).len_units,
                            map_flags: flags1,
                        }),
                    ));
                }
                Err(e)
            },
        }
    }

    /// Look up the live mapping whose span contains an address and hand
    /// out a fresh owning handle onto it, counted against the same
    /// mapping. When no live mapping covers the address there is no error
    /// word to report, only absence: the not-mapped error is returned.
    pub fn get_object_handle(&mut self, addr: u64) -> (r: Result<ObjectHandle, TwzError>)
        requires
            forall|i: int|
                0 <= i < old(self).regions@.len() ==> (#[trigger] old(self).regions@[i]).count
                    < REF_COUNT_MAX,
        ensures
            final(self).objects@ == old(self).objects@,
            final(self).release_log@ == old(self).release_log@,
            old(self).wf() ==> final(self).wf(),
            match r {
                Ok(h) => h.runtime_info matches Some(i) && {
                    &&& i < old(self).regions@.len()
                    &&& region_covers(old(self).regions@[i as int], addr)
                    &&& forall|j: int|
                        0 <= j < i as int ==> !region_covers(#[trigger] old(self).regions@[j], addr)
                    &&& h.id == old(self).regions@[i as int].id
                    &&& h.start == old(self).regions@[i as int].start
                    &&& h.meta == old(self).regions@[i as int].meta
                    &&& h.map_flags == old(self).regions@[i as int].map_flags
                    &&& h.valid_len_units == old(self).regions@[i as int].len_units
                    &&& final(self).regions@ == old(self).regions@.update(
                        i as int,
                        (Region {
                            count: (old(self).regions@[i as int].count + 1) as u64,
                            ..old(self).regions@[i as int]
                        }),
                    )
                    &&& final(self).spec_valid_handle(h)
                },
                Err(e) => {
                    &&& e == TwzError::Object(ObjectError::NotMapped)
                    &&& forall|j: int|
                        0 <= j < old(self).regions@.len() ==> !region_covers(
                            #[trigger] old(self).regions@[j],
                            addr,
                        )
                    &&& *final(self) == *old(self)
                },
            },
    {
        let n = self.regions.len();
        let mut k: usize = 0;
        while k < n
            invariant
                *self == *old(self),
                n == self.regions@.len(),
                k <= n,
                forall|i: int|
                    0 <= i < self.regions@.len() ==> (#[trigger] self.regions@[i]).count
                        < REF_COUNT_MAX,
                forall|j: int| 0 <= j < k ==> !region_covers(#[trigger] self.regions@[j], addr),
            decreases n - k,
        {
            let region = self.regions[k];
            if region.count >= 1 && region.start <= addr && addr - region.start < (
            region.len_units as u64) * LEN_MUL {
                self.regions.set(k, Region { count: region.count + 1, ..region });
                return Ok(
                    ObjectHandle {
                        id: region.id,
                        runtime_info: Some(k),
                        start: region.start,
                        meta: region.meta,
                        map_flags: region.map_flags,
                        valid_len_units: region.len_units,
                    },
                );
            }
            k += 1;
        }
        Err(TwzError::Object(ObjectError::NotMapped))
    }
}

/// The index at which the first extension record carrying the given tag
/// sits, in the layout order of the records.
pub open spec fn is_first_ext_match(exts: Seq<MetaExt>, tag: MetaExtTag, j: int) -> bool {
    &&& 0 <= j < exts.len()
    &&& exts[j].tag == tag
    &&& forall|k: int| 0 <= k < j ==> (#[trigger] exts[k]).tag != tag
}

impl ObjectHandle {
    /// The metadata header of the handle's object, or `None` when the
    /// boundary no longer holds the object.
    pub fn meta_info(&self, rt: &Runtime) -> (r: Option<MetaInfo>)
        requires
            rt.wf(),
        ensures
            match r {
                Some(m) => rt.spec_has_object(self.id) && m == rt.spec_object(
                    self.id,
                ).spec_meta_info(),
                None => !rt.spec_has_object(self.id),
            },
    {
        match rt.find_object_index(self.id) {
            None => None,
            Some(i) => Some(rt.objects[i].meta_info()),
        }
    }

    /// The metadata extension records of the handle's object, in layout
    /// order, or `None` when the boundary no longer holds the object.
    pub fn meta_exts<'a>(&self, rt: &'a Runtime) -> (r: Option<&'a Vec<MetaExt>>)
        requires
            rt.wf(),
        ensures
            match r {
                Some(v) => rt.spec_has_object(self.id) && v@ == rt.spec_object(self.id).exts@,
                None => !rt.spec_has_object(self.id),
            },
    {
        match rt.find_object_index(self.id) {
            None => None,
            Some(i) => Some(&rt.objects[i].exts),
        }
    }

    /// The first metadata extension record of the handle's object carrying
    /// the given tag: a linear scan in layout order. `None` when no record
    /// matches, or when the boundary no longer holds the object.
    pub fn find_meta_ext(&self, rt: &Runtime, tag: MetaExtTag) -> (r: Option<MetaExt>)
        requires
            rt.wf(),
        ensures
            match r {
                Some(e) => {
                    &&& rt.spec_has_object(self.id)
                    &&& exists|j: int|
                        #[trigger] is_first_ext_match(rt.spec_object(self.id).exts@, tag, j) && e
                            == rt.spec_object(self.id).exts@[j]
                },
                None => rt.spec_has_object(self.id) ==> forall|k: int|
                    0 <= k < rt.spec_object(self.id).exts@.len() ==> (#[trigger] rt.spec_object(
                        self.id,
                    ).exts@[k]).tag != tag,
            },
    {
        let oi = match rt.find_object_index(self.id) {
            None => {
                return None;
            },
            Some(i) => i,
        };
        let exts = &rt.objects[oi].exts;
        let n = exts.len();
        let mut k: usize = 0;
        while k < n
            invariant
                n == exts@.len(),
                k <= n,
                rt.spec_has_object(self.id),
                exts@ == rt.spec_object(self.id).exts@,
                forall|j: int| 0 <= j < k ==> (#[trigger] exts@[j]).tag != tag,
            decreases n - k,
        {
            if exts[k].tag.0 == tag.0 {
                proof {
                    assert(is_first_ext_match(rt.spec_object(self.id).exts@, tag, k as int));
                }
                return Some(exts[k]);
            }
            k += 1;
        }
        None
    }
}

/// The shared reference count after mapping once and cloning the handle
/// the given number of times.
pub open spec fn count_after_clones(clones: nat) -> nat {
    clones + 1
}

/// How many release calls fire while dropping handles of one mapping the
/// given number of times, starting from the given count: each drop lowers
/// the count by one, and releases exactly when it hits zero.
pub open spec fn releases_during(count: nat, drops: nat) -> nat
    decreases drops,
{
    if drops == 0 {
        0
    } else {
        (if count == 1 {
            1nat
        } else {
            0nat
        }) + releases_during(if count >= 1 { (count - 1) as nat } else { 0nat }, (drops - 1) as nat)
    }
}

/// While more handles remain than drops performed, no release fires.
proof fn lemma_releases_while_shared(count: nat, drops: nat)
    requires
        drops < count,
    ensures
        releases_during(count, drops) == 0,
    decreases drops,
{
    if drops > 0 {
        lemma_releases_while_shared((count - 1) as nat, (drops - 1) as nat);
    }
}

/// Dropping exactly as many times as the count releases exactly once.
proof fn lemma_releases_last(count: nat)
    requires
        count >= 1,
    ensures
        releases_during(count, count) == 1,
    decreases count,
{
    if count == 1 {
        assert(releases_during(0, 0) == 0);
        assert(releases_during(1, 1) == 1 + releases_during(0, 0));
    } else {
        lemma_releases_last((count - 1) as nat);
    }
}

/// The lifecycle law: after mapping once and cloning N times, the count
/// stands at N + 1; the N + 1 drops that follow trigger exactly one
/// release call, and no release fires before the last drop.
pub proof fn lemma_release_exactly_once(n: nat)
    ensures
        releases_during(count_after_clones(n), n + 1) == 1,
        forall|j: nat| j <= n ==> #[trigger] releases_during(count_after_clones(n), j) == 0,
{
    lemma_releases_last(n + 1);
    assert forall|j: nat| j <= n implies #[trigger] releases_during(count_after_clones(n), j)
        == 0 by {
        lemma_releases_while_shared(n + 1, j);
    }
}

} // verus!
