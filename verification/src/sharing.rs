//! Queue ownership of resources.

use vstd::prelude::*;

verus! {

/// Which queues may use a resource.
#[derive(Clone, Copy, Debug, PartialEq, Eq, Hash)]
pub enum SharingMode {
    /// Every queue family, without ownership transfers.
    Concurrent,
    /// One queue, given as family and index, or a queue that is not known yet.
    Exclusive(Option<(u32, u32)>),
}

/// One past the largest queue index, and the weight of the family in an encoded mode.
pub const FAMILY_WEIGHT: u64 = 0x1_0000_0000;

/// The encoding of [`SharingMode::Concurrent`].
pub const CONCURRENT_CODE: u64 = 0xffff_ffff_ffff_ffff;

/// The encoding of an exclusive mode whose owner is not known.
pub const UNKNOWN_CODE: u64 = 0xffff_ffff_ffff_fffe;

/// The family that stands for no family at all (`VK_QUEUE_FAMILY_IGNORED`).
pub const QUEUE_FAMILY_IGNORED: u32 = 0xffff_ffff;

impl SharingMode {
    /// A mode that names no queue, or a queue of a real family.
    pub open spec fn valid(self) -> bool {
        match self {
            SharingMode::Exclusive(Some((family, _))) => family != QUEUE_FAMILY_IGNORED,
            _ => true,
        }
    }

    /// The 64-bit encoding: the owner's family in the upper half and its index in the lower one.
    pub open spec fn code(self) -> u64 {
        match self {
            SharingMode::Concurrent => CONCURRENT_CODE,
            SharingMode::Exclusive(None) => UNKNOWN_CODE,
            SharingMode::Exclusive(Some((family, index))) => (family * FAMILY_WEIGHT
                + index) as u64,
        }
    }

    /// The mode that an encoding stands for.
    pub open spec fn of_code(code: u64) -> Self {
        if code == CONCURRENT_CODE {
            SharingMode::Concurrent
        } else if code == UNKNOWN_CODE {
            SharingMode::Exclusive(None)
        } else {
            SharingMode::Exclusive(
                Some(((code / FAMILY_WEIGHT) as u32, (code % FAMILY_WEIGHT) as u32)),
            )
        }
    }

    /// The family that owns the resource, where one is known.
    pub open spec fn owner(self) -> Option<u32> {
        match self {
            SharingMode::Exclusive(Some((family, _))) => Some(family),
            _ => None,
        }
    }

    /// Encodes the mode.
    pub fn encode(self) -> (code: u64)
        ensures
            code == self.code(),
    {
        match self {
            SharingMode::Concurrent => CONCURRENT_CODE,
            SharingMode::Exclusive(None) => UNKNOWN_CODE,
            SharingMode::Exclusive(Some((family, index))) => family as u64 * FAMILY_WEIGHT
                + index as u64,
        }
    }

    /// Decodes an encoded mode.
    pub fn decode(code: u64) -> (mode: Self)
        ensures
            mode == Self::of_code(code),
    {
        if code == CONCURRENT_CODE {
            SharingMode::Concurrent
        } else if code == UNKNOWN_CODE {
            SharingMode::Exclusive(None)
        } else {
            SharingMode::Exclusive(
                Some(((code / FAMILY_WEIGHT) as u32, (code % FAMILY_WEIGHT) as u32)),
            )
        }
    }

    /// Whether two modes are the same.
    pub fn is_same(self, other: Self) -> (same: bool)
        ensures
            same == (self == other),
    {
        match (self, other) {
            (SharingMode::Concurrent, SharingMode::Concurrent) => true,
            (SharingMode::Exclusive(None), SharingMode::Exclusive(None)) => true,
            (
                SharingMode::Exclusive(Some((family, index))),
                SharingMode::Exclusive(Some((other_family, other_index))),
            ) => family == other_family && index == other_index,
            _ => false,
        }
    }

    /// The family that owns the resource, where one is known.
    pub fn queue_family_index(self) -> (family: Option<u32>)
        ensures
            family == self.owner(),
    {
        match self {
            SharingMode::Exclusive(Some((family, _))) => Some(family),
            _ => None,
        }
    }
}

/// Decoding undoes encoding for every valid mode.
pub proof fn decode_undoes_encode(mode: SharingMode)
    requires
        mode.valid(),
    ensures
        SharingMode::of_code(mode.code()) == mode,
{
}

/// Encoding undoes decoding for every number.
pub proof fn encode_undoes_decode(code: u64)
    ensures
        SharingMode::of_code(code).code() == code,
{
}

/// The owner is read from the upper half of an encoding. The two largest encodings have none.
pub proof fn owners_are_in_the_upper_half(code: u64)
    ensures
        code < 0xffff_ffff_ffff_fffe ==> SharingMode::of_code(code).owner() == Some(
            (code / 0x1_0000_0000) as u32,
        ),
        code >= 0xffff_ffff_ffff_fffe ==> SharingMode::of_code(code).owner() is None,
        (SharingMode::of_code(code) is Concurrent) == (code == 0xffff_ffff_ffff_ffff),
{
}

/// Modes with one encoding are one mode.
pub proof fn encodings_are_distinct(a: SharingMode, b: SharingMode)
    requires
        a.valid(),
        b.valid(),
        a.code() == b.code(),
    ensures
        a == b,
{
    decode_undoes_encode(a);
    decode_undoes_encode(b);
}

} // verus!
