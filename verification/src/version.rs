//! Version numbers of the FF-A implementation.
use crate::error::Error;
use vstd::prelude::*;

verus! {

/// Version number of the FF-A implementation, `.0` is the major, `.1` is minor the version.
#[derive(Clone, Copy, Debug, Eq, PartialEq, PartialOrd, Ord)]
pub struct Version(pub u16, pub u16);

/// Bit 31 of an encoded version number, which the FF-A spec mandates to be 0.
pub const VERSION_MBZ_BITS: u32 = 0x8000_0000;

impl Version {
    /// The 32-bit encoding of the version: major in bits [31:16], minor in bits [15:0].
    pub open spec fn bits(self) -> u32 {
        ((self.0 as u32) << 16u32) | (self.1 as u32)
    }

    /// Whether the version can be encoded: bit 31 of its encoding is 0.
    pub open spec fn is_valid(self) -> bool {
        self.bits() & VERSION_MBZ_BITS == 0
    }

    /// The version that a 32-bit value encodes, or `InvalidVersion` when bit 31 is set.
    pub open spec fn from_bits(v: u32) -> Result<Version, Error> {
        if v & VERSION_MBZ_BITS != 0 {
            Err(Error::InvalidVersion(v))
        } else {
            Ok(Version((v >> 16u32) as u16, v as u16))
        }
    }

    /// Whether this version comes strictly before `other` (major first, then minor).
    pub open spec fn spec_older_than(self, other: Version) -> bool {
        self.0 < other.0 || (self.0 == other.0 && self.1 < other.1)
    }

    /// Returns whether the caller's version (self) is compatible with the callee's version (input
    /// parameter)
    pub fn is_compatible_to(&self, callee_version: &Version) -> (r: bool)
        ensures
            r == (self.0 == callee_version.0 && self.1 <= callee_version.1),
    {
        self.0 == callee_version.0 && self.1 <= callee_version.1
    }

    /// Returns whether this version comes strictly before `other`, as `<` orders versions.
    pub fn older_than(&self, other: &Version) -> (r: bool)
        ensures
            r == self.spec_older_than(*other),
    {
        self.0 < other.0 || (self.0 == other.0 && self.1 < other.1)
    }

    /// Returns whether the version can be encoded: its major number leaves bit 31 clear.
    pub fn fits_encoding(&self) -> (r: bool)
        ensures
            r == self.is_valid(),
    {
        proof {
            lemma_version_valid(*self);
        }
        self.0 < 0x8000
    }

    /// Encodes the version as a 32-bit value. The version must have bit 31 of its encoding clear.
    pub fn to_bits(&self) -> (r: u32)
        requires
            self.is_valid(),
        ensures
            r == self.bits(),
    {
        ((self.0 as u32) << 16u32) | (self.1 as u32)
    }
}

impl TryFrom<u32> for Version {
    type Error = Error;

    fn try_from(val: u32) -> (r: Result<Self, Error>)
        ensures
            r == Version::from_bits(val),
    {
        if (val & VERSION_MBZ_BITS) != 0 {
            Err(Error::InvalidVersion(val))
        } else {
            Ok(Version((val >> 16u32) as u16, val as u16))
        }
    }
}

impl vstd::std_specs::convert::TryFromSpecImpl<u32> for Version {
    open spec fn obeys_try_from_spec() -> bool {
        true
    }

    open spec fn try_from_spec(v: u32) -> Result<Self, Error> {
        Version::from_bits(v)
    }
}

/// A version can be encoded exactly when its major number is below 0x8000.
pub proof fn lemma_version_valid(v: Version)
    ensures
        v.is_valid() <==> v.0 < 0x8000,
{
    let a = v.0;
    let b = v.1;
    assert((((a as u32) << 16u32) | (b as u32)) & 0x8000_0000u32 == 0 <==> a < 0x8000u16)
        by (bit_vector);
}

/// Decoding the encoding of a valid version gives the version back.
pub proof fn lemma_version_roundtrip(v: Version)
    requires
        v.is_valid(),
    ensures
        Version::from_bits(v.bits()) == Ok::<Version, Error>(v),
{
    let a = v.0;
    let b = v.1;
    assert(((((a as u32) << 16u32) | (b as u32)) >> 16u32) as u16 == a) by (bit_vector);
    assert((((a as u32) << 16u32) | (b as u32)) as u16 == b) by (bit_vector);
}

/// A value that decodes to a version is the encoding of that version.
pub proof fn lemma_version_bits_roundtrip(x: u32)
    ensures
        Version::from_bits(x) matches Ok(v) ==> v.is_valid() && v.bits() == x,
{
    assert(((((x >> 16u32) as u16) as u32) << 16u32) | ((x as u16) as u32) == x) by (bit_vector);
}

} // verus!
