//! Protection bits and the object-creation specification record.
//!
//! [`Protections`] is the narrow access-rights set used at object-creation
//! time: read, write and execute. It converts losslessly to and from the
//! three bits of [`MapFlags`](crate::object::MapFlags) it overlaps with;
//! [`lemma_protections_round_trip`] states that law. [`ObjectCreate`]
//! bundles everything the runtime boundary needs to create an object.

use vstd::prelude::*;

use crate::object::MapFlags;
use crate::object::ObjID;

verus! {

/// Protection bit granting read access.
pub const PROT_READ: u32 = 0x1;
/// Protection bit granting write access.
pub const PROT_WRITE: u32 = 0x2;
/// Protection bit granting execute access.
pub const PROT_EXEC: u32 = 0x4;
/// All defined protection bits. The values coincide with the read, write
/// and execute bits of [`MapFlags`], so the two sets overlap bit for bit.
pub const PROT_ALL: u32 = 0x7;

/// Access rights over an object's memory: a bit set over read, write and
/// execute.
#[derive(Clone, Copy, Debug, Hash, PartialEq, Eq, Structural)]
pub struct Protections {
    pub bits: u32,
}

impl Protections {
    /// Well-formed: only defined protection bits are set.
    pub open spec fn wf(&self) -> bool {
        self.bits & !PROT_ALL == 0
    }

    /// The protection set a [`MapFlags`] value implies: exactly its read,
    /// write and execute bits.
    pub open spec fn spec_from_map_flags(flags: MapFlags) -> Protections {
        Protections { bits: flags.bits & PROT_ALL }
    }

    /// The [`MapFlags`] value this protection set implies: exactly its
    /// read, write and execute bits, and nothing else.
    pub open spec fn spec_to_map_flags(&self) -> MapFlags {
        MapFlags { bits: self.bits & PROT_ALL }
    }

    /// No access at all.
    pub fn empty() -> (r: Protections)
        ensures
            r.bits == 0,
            r.wf(),
    {
        proof {
            assert(0u32 & !PROT_ALL == 0) by (bit_vector);
        }
        Protections { bits: 0 }
    }

    /// Full access: read, write and execute.
    pub fn all() -> (r: Protections)
        ensures
            r.bits == PROT_ALL,
            r.wf(),
    {
        proof {
            assert(PROT_ALL & !PROT_ALL == 0) by (bit_vector);
        }
        Protections { bits: PROT_ALL }
    }

    /// The protection set holding the defined bits of `bits`; undefined
    /// bits are discarded.
    pub fn from_bits_truncate(bits: u32) -> (r: Protections)
        ensures
            r.bits == bits & PROT_ALL,
            r.wf(),
    {
        proof {
            assert((bits & PROT_ALL) & !PROT_ALL == 0) by (bit_vector);
        }
        Protections { bits: bits & PROT_ALL }
    }

    /// The raw bit pattern.
    pub fn bits(&self) -> (r: u32)
        ensures
            r == self.bits,
    {
        self.bits
    }

    /// Whether every bit of `other` is also set in `self`.
    pub fn contains(&self, other: Protections) -> (r: bool)
        ensures
            r == (self.bits & other.bits == other.bits),
    {
        self.bits & other.bits == other.bits
    }

    /// The union of two protection sets.
    pub fn union(&self, other: Protections) -> (r: Protections)
        requires
            self.wf(),
            other.wf(),
        ensures
            r.bits == self.bits | other.bits,
            r.wf(),
    {
        proof {
            let a = self.bits;
            let b = other.bits;
            assert((a & !PROT_ALL == 0 && b & !PROT_ALL == 0) ==> (a | b) & !PROT_ALL == 0)
                by (bit_vector);
        }
        Protections { bits: self.bits | other.bits }
    }

    /// The map-flags value granting exactly these access rights.
    pub fn to_map_flags(&self) -> (r: MapFlags)
        ensures
            r == self.spec_to_map_flags(),
            self.wf() ==> r.bits == self.bits,
    {
        proof {
            let b = self.bits;
            assert(b & !PROT_ALL == 0 ==> b & PROT_ALL == b) by (bit_vector);
        }
        MapFlags { bits: self.bits & PROT_ALL }
    }

    /// The access rights a map-flags value grants: exactly its read, write
    /// and execute bits, whatever its other bits say.
    pub fn from_map_flags(flags: MapFlags) -> (r: Protections)
        ensures
            r == Protections::spec_from_map_flags(flags),
            r.wf(),
    {
        proof {
            let b = flags.bits;
            assert((b & PROT_ALL) & !PROT_ALL == 0) by (bit_vector);
        }
        Protections { bits: flags.bits & PROT_ALL }
    }
}

/// Round trip: turning a protection set into map flags, setting any
/// combination of non-protection flag bits beside it, and reading the
/// protections back preserves exactly the read, write and execute bits.
pub proof fn lemma_protections_round_trip(p: Protections, extra: MapFlags)
    requires
        p.wf(),
        extra.bits & PROT_ALL == 0,
    ensures
        Protections::spec_from_map_flags(p.spec_to_map_flags().spec_union(extra)) == p,
{
    let b = p.bits;
    let x = extra.bits;
    assert((b & !PROT_ALL == 0 && x & PROT_ALL == 0) ==> ((b & PROT_ALL) | x) & PROT_ALL == b)
        by (bit_vector);
}

/// The other direction: the protections a map-flags value implies, turned
/// back into map flags, are exactly the value's read, write and execute
/// bits.
pub proof fn lemma_map_flags_protection_bits(flags: MapFlags)
    ensures
        Protections::spec_from_map_flags(flags).spec_to_map_flags().bits == flags.bits & PROT_ALL,
{
    let b = flags.bits;
    assert(((b & PROT_ALL) & PROT_ALL) == b & PROT_ALL) by (bit_vector);
}

/// How an object's backing storage behaves.
#[derive(Clone, Copy, Debug, Hash, PartialEq, Eq, Structural)]
pub enum BackingType {
    /// Ordinary storage.
    Normal,
}

/// How long an object lives.
#[derive(Clone, Copy, Debug, Hash, PartialEq, Eq, Structural)]
pub enum LifetimeType {
    /// The object vanishes with the system.
    Volatile,
    /// The object persists across restarts.
    Persistent,
}

/// Creation flag: delete the object when its last tie is removed.
pub const CREATE_FLAG_DELETE_ON_LAST_TIE: u32 = 0x1;
/// Creation flag: do not stamp a fresh nonce into the object's metadata.
pub const CREATE_FLAG_NO_NONCE: u32 = 0x2;
/// All defined creation flag bits.
pub const CREATE_FLAGS_ALL: u32 = 0x3;

/// Flags controlling object creation.
#[derive(Clone, Copy, Debug, Hash, PartialEq, Eq, Structural)]
pub struct CreateFlags {
    pub bits: u32,
}

impl CreateFlags {
    /// No creation flags.
    pub fn empty() -> (r: CreateFlags)
        ensures
            r.bits == 0,
    {
        CreateFlags { bits: 0 }
    }

    /// Whether every bit of `other` is also set in `self`.
    pub fn contains(&self, other: CreateFlags) -> (r: bool)
        ensures
            r == (self.bits & other.bits == other.bits),
    {
        self.bits & other.bits == other.bits
    }
}

/// Everything the runtime boundary needs to create an object, laid out for
/// direct use as a creation-call argument.
#[derive(Clone, Copy, Debug, PartialEq, Eq, Structural)]
pub struct ObjectCreate {
    /// The ID of the object holding the owning public key.
    pub kuid: ObjID,
    /// The backing type of the new object.
    pub bt: BackingType,
    /// The lifetime of the new object.
    pub lt: LifetimeType,
    /// Flags for the creation operation.
    pub flags: CreateFlags,
    /// The default protections of the new object.
    pub def_prot: Protections,
}

impl Default for ObjectCreate {
    /// The default creation specification: normal backing, volatile
    /// lifetime, no creation flags, no owning key, and full protections.
    fn default() -> (r: Self)
        ensures
            r.kuid.0 == 0,
            r.bt is Normal,
            r.lt is Volatile,
            r.flags.bits == 0,
            r.def_prot.bits == PROT_ALL,
            r.def_prot.wf(),
    {
        ObjectCreate {
            kuid: ObjID::new(0),
            bt: BackingType::Normal,
            lt: LifetimeType::Volatile,
            flags: CreateFlags::empty(),
            def_prot: Protections::all(),
        }
    }
}

} // verus!
