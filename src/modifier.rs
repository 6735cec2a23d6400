use vstd::prelude::*;

verus! {

/// The eight modifier keys of a boot-protocol keyboard. Each owns one bit of
/// the modifier byte, from bit 0 (left control) to bit 7 (right meta).
#[derive(Clone, Copy, Debug, PartialEq, Eq, Structural)]
pub enum UsbHidModifier {
    LeftControl,
    LeftShift,
    LeftAlt,
    LeftMeta,
    RightControl,
    RightShift,
    RightAlt,
    RightMeta,
}

/// The modifier that a Linux input key code stands for, if it is one.
pub open spec fn modifier_for_key(code: u16) -> Option<UsbHidModifier> {
    match code {
        29 => Some(UsbHidModifier::LeftControl),  // KEY_LEFTCTRL
        97 => Some(UsbHidModifier::RightControl),  // KEY_RIGHTCTRL
        42 => Some(UsbHidModifier::LeftShift),  // KEY_LEFTSHIFT
        54 => Some(UsbHidModifier::RightShift),  // KEY_RIGHTSHIFT
        56 => Some(UsbHidModifier::LeftAlt),  // KEY_LEFTALT
        100 => Some(UsbHidModifier::RightAlt),  // KEY_RIGHTALT
        125 => Some(UsbHidModifier::LeftMeta),  // KEY_LEFTMETA
        126 => Some(UsbHidModifier::RightMeta),  // KEY_RIGHTMETA
        _ => None,
    }
}

/// The modifier byte with the bit of `flag` set (`on`) or cleared.
pub open spec fn with_modifier(bits: u8, flag: UsbHidModifier, on: bool) -> u8 {
    if on {
        bits | flag.mask()
    } else {
        bits & !flag.mask()
    }
}

impl UsbHidModifier {
    /// The position of the modifier's bit in the modifier byte.
    pub open spec fn index(self) -> u8 {
        match self {
            UsbHidModifier::LeftControl => 0,
            UsbHidModifier::LeftShift => 1,
            UsbHidModifier::LeftAlt => 2,
            UsbHidModifier::LeftMeta => 3,
            UsbHidModifier::RightControl => 4,
            UsbHidModifier::RightShift => 5,
            UsbHidModifier::RightAlt => 6,
            UsbHidModifier::RightMeta => 7,
        }
    }

    /// The modifier's bit as a byte.
    pub open spec fn mask(self) -> u8 {
        1u8 << self.index()
    }

    /// The modifier whose bit is at position `i`.
    pub open spec fn at_index(i: u8) -> UsbHidModifier {
        if i == 0 {
            UsbHidModifier::LeftControl
        } else if i == 1 {
            UsbHidModifier::LeftShift
        } else if i == 2 {
            UsbHidModifier::LeftAlt
        } else if i == 3 {
            UsbHidModifier::LeftMeta
        } else if i == 4 {
            UsbHidModifier::RightControl
        } else if i == 5 {
            UsbHidModifier::RightShift
        } else if i == 6 {
            UsbHidModifier::RightAlt
        } else {
            UsbHidModifier::RightMeta
        }
    }

    /// The modifier's bit as a byte.
    pub fn bit(self) -> (r: u8)
        ensures
            r == self.mask(),
    {
        let i: u8 = match self {
            UsbHidModifier::LeftControl => 0,
            UsbHidModifier::LeftShift => 1,
            UsbHidModifier::LeftAlt => 2,
            UsbHidModifier::LeftMeta => 3,
            UsbHidModifier::RightControl => 4,
            UsbHidModifier::RightShift => 5,
            UsbHidModifier::RightAlt => 6,
            UsbHidModifier::RightMeta => 7,
        };
        1u8 << i
    }

    /// The modifier that a Linux input key code stands for, if it is one.
    pub fn from_key(code: u16) -> (r: Option<Self>)
        ensures
            r == modifier_for_key(code),
    {
        match code {
            29 => Some(UsbHidModifier::LeftControl),
            97 => Some(UsbHidModifier::RightControl),
            42 => Some(UsbHidModifier::LeftShift),
            54 => Some(UsbHidModifier::RightShift),
            56 => Some(UsbHidModifier::LeftAlt),
            100 => Some(UsbHidModifier::RightAlt),
            125 => Some(UsbHidModifier::LeftMeta),
            126 => Some(UsbHidModifier::RightMeta),
            _ => None,
        }
    }
}

/// Setting or clearing one modifier's bit leaves the other modifiers' bits as
/// they were, and the bit itself then says `on`.
pub proof fn lemma_with_modifier_bits(bits: u8, flag: UsbHidModifier, on: bool, other: UsbHidModifier)
    ensures
        (with_modifier(bits, flag, on) & other.mask() != 0) == if other == flag {
            on
        } else {
            bits & other.mask() != 0
        },
{
    let i = other.index();
    let j = flag.index();
    assert(i < 8 && j < 8);
    if other == flag {
        assert((bits | (1u8 << j)) & (1u8 << j) != 0) by (bit_vector)
            requires
                j < 8,
        ;
        assert((bits & !(1u8 << j)) & (1u8 << j) == 0) by (bit_vector)
            requires
                j < 8,
        ;
    } else {
        assert(i != j);
        assert(((bits | (1u8 << j)) & (1u8 << i) != 0) == (bits & (1u8 << i) != 0)) by (bit_vector)
            requires
                i < 8,
                j < 8,
                i != j,
        ;
        assert(((bits & !(1u8 << j)) & (1u8 << i) != 0) == (bits & (1u8 << i) != 0)) by (bit_vector)
            requires
                i < 8,
                j < 8,
                i != j,
        ;
    }
}

/// A byte is the bitwise OR of the masks of the modifiers whose bit it has.
pub proof fn lemma_byte_from_bits(bits: u8)
    ensures
        bits == mask_if(bits & 1 != 0, 1) | mask_if(bits & 2 != 0, 2) | mask_if(bits & 4 != 0, 4)
            | mask_if(bits & 8 != 0, 8) | mask_if(bits & 16 != 0, 16) | mask_if(bits & 32 != 0, 32)
            | mask_if(bits & 64 != 0, 64) | mask_if(bits & 128 != 0, 128),
{
    assert(bits == (if bits & 1 != 0 { 1u8 } else { 0u8 }) | (if bits & 2 != 0 { 2u8 } else { 0u8 })
        | (if bits & 4 != 0 { 4u8 } else { 0u8 }) | (if bits & 8 != 0 { 8u8 } else { 0u8 }) | (if bits
        & 16 != 0 { 16u8 } else { 0u8 }) | (if bits & 32 != 0 { 32u8 } else { 0u8 }) | (if bits & 64
        != 0 { 64u8 } else { 0u8 }) | (if bits & 128 != 0 { 128u8 } else { 0u8 })) by (bit_vector);
}

/// The mask of each modifier, from 1 for left control to 128 for right meta.
pub proof fn lemma_mask_values()
    ensures
        UsbHidModifier::LeftControl.mask() == 1,
        UsbHidModifier::LeftShift.mask() == 2,
        UsbHidModifier::LeftAlt.mask() == 4,
        UsbHidModifier::LeftMeta.mask() == 8,
        UsbHidModifier::RightControl.mask() == 16,
        UsbHidModifier::RightShift.mask() == 32,
        UsbHidModifier::RightAlt.mask() == 64,
        UsbHidModifier::RightMeta.mask() == 128,
{
    assert(1u8 << 0u8 == 1u8) by (bit_vector);
    assert(1u8 << 1u8 == 2u8) by (bit_vector);
    assert(1u8 << 2u8 == 4u8) by (bit_vector);
    assert(1u8 << 3u8 == 8u8) by (bit_vector);
    assert(1u8 << 4u8 == 16u8) by (bit_vector);
    assert(1u8 << 5u8 == 32u8) by (bit_vector);
    assert(1u8 << 6u8 == 64u8) by (bit_vector);
    assert(1u8 << 7u8 == 128u8) by (bit_vector);
}

/// `m` when `b` holds, else 0.
pub open spec fn mask_if(b: bool, m: u8) -> u8 {
    if b {
        m
    } else {
        0
    }
}

} // verus!
