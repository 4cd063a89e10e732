use vstd::prelude::*;

verus! {

/// Unsynchronisation is used in the tag.
pub const HEADER_UNSYNC: u8 = 0b1000_0000;

/// The header is followed by an extended header.
pub const HEADER_EXTENDED: u8 = 0b0100_0000;

/// The tag is in an experimental stage.
pub const HEADER_EXPERIMENTAL: u8 = 0b0010_0000;

/// A footer is present at the very end of the tag.
pub const HEADER_FOOTER: u8 = 0b0001_0000;

/// All four flags of a tag header.
pub const HEADER_ALL: u8 = 0b1111_0000;

/// The flags of a tag header: a byte in which no bit outside the four
/// defined flags is set.
///
/// `HEADER_FOOTER` belongs to version 4 of the format; it is accepted so
/// that a footer can be detected and skipped.
#[derive(Debug, Clone, Copy, PartialEq, Eq)]
pub struct HeaderFlags {
    bits: u8,
}

impl View for HeaderFlags {
    type V = u8;

    /// The underlying bit representation.
    closed spec fn view(&self) -> u8 {
        self.bits
    }
}

impl HeaderFlags {
    /// True of a byte in which only bits of defined flags are set.
    pub open spec fn known(bits: u8) -> bool {
        bits & !HEADER_ALL == 0
    }

    #[verifier::type_invariant]
    spec fn only_known_bits(self) -> bool {
        Self::known(self.bits)
    }

    /// Convert from underlying bit representation, unless that
    /// representation contains bits that do not correspond to a flag.
    pub fn from_bits(bits: u8) -> (flags: Option<HeaderFlags>)
        ensures
            match flags {
                Some(flags) => Self::known(bits) && flags@ == bits,
                None => !Self::known(bits),
            },
    {
        if bits & !HEADER_ALL == 0 {
            Some(HeaderFlags { bits })
        } else {
            None
        }
    }

    /// Returns the raw value of the flags currently stored.
    pub fn bits(&self) -> (bits: u8)
        ensures
            bits == self@,
            Self::known(bits),
    {
        proof {
            use_type_invariant(self);
        }
        self.bits
    }

    /// Returns `true` if some flag of `mask` is set.
    pub fn intersects(&self, mask: u8) -> (hit: bool)
        ensures
            hit == (self@ & mask != 0),
    {
        self.bits & mask != 0
    }
}

/// A flag byte is accepted exactly when its four low bits are clear: setting
/// any one of them makes the byte unknown, whatever the high bits are.
pub proof fn lemma_header_flags_known(bits: u8)
    ensures
        HeaderFlags::known(bits) <==> bits & 0b0000_1111 == 0,
        HeaderFlags::known(bits) <==> bits % 16 == 0,
        forall|i: u8| i < 4 && bits & (1u8 << i) != 0 ==> !HeaderFlags::known(bits),
{
    assert(bits & !0b1111_0000u8 == 0 <==> bits & 0b0000_1111 == 0) by (bit_vector);
    assert(bits & !0b1111_0000u8 == 0 <==> bits % 16 == 0) by (bit_vector);
    assert forall|i: u8| i < 4 && bits & (1u8 << i) != 0 implies !HeaderFlags::known(bits) by {
        assert(i < 4 && bits & (1u8 << i) != 0 ==> bits & !0b1111_0000u8 != 0) by (bit_vector);
    }
}

} // verus!
