use vstd::prelude::*;

verus! {

/// The frame should be preserved if it is unknown and the tag is altered.
pub const STATUS_TAG_PRESERVE: u8 = 0b1000_0000;

/// The frame should be preserved if it is unknown and the file, excluding the tag, is altered.
pub const STATUS_FILE_PRESERVE: u8 = 0b0100_0000;

/// The contents of the frame are intended to be read only.
pub const STATUS_READ_ONLY: u8 = 0b0010_0000;

/// All three status flags of a frame header.
pub const STATUS_ALL: u8 = 0b1110_0000;

/// The frame is compressed.
pub const ENCODING_COMPRESSION: u8 = 0b1000_0000;

/// The frame is encrypted.
pub const ENCODING_ENCRYPTION: u8 = 0b0100_0000;

/// The frame belongs in a group with other frames.
pub const ENCODING_GROUPING: u8 = 0b0010_0000;

/// All three encoding flags of a frame header.
pub const ENCODING_ALL: u8 = 0b1110_0000;

/// The status flags of a frame header: a byte in which no bit outside the
/// three defined flags is set.
#[derive(Debug, Clone, Copy, PartialEq, Eq)]
pub struct StatusFlags {
    bits: u8,
}

impl View for StatusFlags {
    type V = u8;

    /// The underlying bit representation.
    closed spec fn view(&self) -> u8 {
        self.bits
    }
}

impl StatusFlags {
    /// True of a byte in which only bits of defined flags are set.
    pub open spec fn known(bits: u8) -> bool {
        bits & !STATUS_ALL == 0
    }

    #[verifier::type_invariant]
    spec fn only_known_bits(self) -> bool {
        Self::known(self.bits)
    }

    /// Convert from underlying bit representation, unless that
    /// representation contains bits that do not correspond to a flag.
    pub fn from_bits(bits: u8) -> (flags: Option<StatusFlags>)
        ensures
            match flags {
                Some(flags) => Self::known(bits) && flags@ == bits,
                None => !Self::known(bits),
            },
    {
        if bits & !STATUS_ALL == 0 {
            Some(StatusFlags { bits })
        } else {
            None
        }
    }

    /// Returns the raw value of the flags currently stored.
    pub fn bits(&self) -> (bits: u8)
        ensures
            bits == self@,
            Self::known(bits),
    {
        proof {
            use_type_invariant(self);
        }
        self.bits
    }

    /// Returns `true` if some flag of `mask` is set.
    pub fn intersects(&self, mask: u8) -> (hit: bool)
        ensures
            hit == (self@ & mask != 0),
    {
        self.bits & mask != 0
    }
}

/// The encoding flags of a frame header: a byte in which no bit outside the
/// three defined flags is set.
#[derive(Debug, Clone, Copy, PartialEq, Eq)]
pub struct EncodingFlags {
    bits: u8,
}

impl View for EncodingFlags {
    type V = u8;

    /// The underlying bit representation.
    closed spec fn view(&self) -> u8 {
        self.bits
    }
}

impl EncodingFlags {
    /// True of a byte in which only bits of defined flags are set.
    pub open spec fn known(bits: u8) -> bool {
        bits & !ENCODING_ALL == 0
    }

    #[verifier::type_invariant]
    spec fn only_known_bits(self) -> bool {
        Self::known(self.bits)
    }

    /// Convert from underlying bit representation, unless that
    /// representation contains bits that do not correspond to a flag.
    pub fn from_bits(bits: u8) -> (flags: Option<EncodingFlags>)
        ensures
            match flags {
                Some(flags) => Self::known(bits) && flags@ == bits,
                None => !Self::known(bits),
            },
    {
        if bits & !ENCODING_ALL == 0 {
            Some(EncodingFlags { bits })
        } else {
            None
        }
    }

    /// Returns the raw value of the flags currently stored.
    pub fn bits(&self) -> (bits: u8)
        ensures
            bits == self@,
            Self::known(bits),
    {
        proof {
            use_type_invariant(self);
        }
        self.bits
    }

    /// Returns `true` if some flag of `mask` is set.
    pub fn intersects(&self, mask: u8) -> (hit: bool)
        ensures
            hit == (self@ & mask != 0),
    {
        self.bits & mask != 0
    }
}

/// A status flag byte is accepted exactly when its five low bits are clear:
/// setting any one of them makes the byte unknown, whatever the high bits are.
pub proof fn lemma_status_flags_known(bits: u8)
    ensures
        StatusFlags::known(bits) <==> bits & 0b0001_1111 == 0,
        StatusFlags::known(bits) <==> bits % 32 == 0,
        forall|i: u8| i < 5 && bits & (1u8 << i) != 0 ==> !StatusFlags::known(bits),
{
    assert(bits & !0b1110_0000u8 == 0 <==> bits & 0b0001_1111 == 0) by (bit_vector);
    assert(bits & !0b1110_0000u8 == 0 <==> bits % 32 == 0) by (bit_vector);
    assert forall|i: u8| i < 5 && bits & (1u8 << i) != 0 implies !StatusFlags::known(bits) by {
        assert(i < 5 && bits & (1u8 << i) != 0 ==> bits & !0b1110_0000u8 != 0) by (bit_vector);
    }
}

/// An encoding flag byte is accepted exactly when its five low bits are
/// clear: setting any one of them makes the byte unknown, whatever the high
/// bits are.
pub proof fn lemma_encoding_flags_known(bits: u8)
    ensures
        EncodingFlags::known(bits) <==> bits & 0b0001_1111 == 0,
        EncodingFlags::known(bits) <==> bits % 32 == 0,
        forall|i: u8| i < 5 && bits & (1u8 << i) != 0 ==> !EncodingFlags::known(bits),
{
    assert(bits & !0b1110_0000u8 == 0 <==> bits & 0b0001_1111 == 0) by (bit_vector);
    assert(bits & !0b1110_0000u8 == 0 <==> bits % 32 == 0) by (bit_vector);
    assert forall|i: u8| i < 5 && bits & (1u8 << i) != 0 implies !EncodingFlags::known(bits) by {
        assert(i < 5 && bits & (1u8 << i) != 0 ==> bits & !0b1110_0000u8 != 0) by (bit_vector);
    }
}

} // verus!
