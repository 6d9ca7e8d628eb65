//! A 16-bit machine word that may be read as signed, unsigned, or boolean.
//!
//! The bit pattern is the value; reinterpretation never converts.

use vstd::prelude::*;

verus! {

/// The signed (two's complement) reading of a 16-bit pattern.
pub open spec fn signed16(bits: u16) -> int {
    if bits < 0x8000 {
        bits as int
    } else {
        bits as int - 0x10000
    }
}

/// The 16-bit pattern whose signed reading is `v`.
pub open spec fn unsigned16(v: i16) -> u16 {
    if v >= 0 {
        v as u16
    } else {
        (v + 0x10000) as u16
    }
}

/// A 16-bit word. The sign is determined by the reader: `as_u16`, `as_i16`
/// and `as_bool` reinterpret the same bit pattern.
#[allow(non_camel_case_types)]
#[derive(Clone, Copy, Debug, PartialEq, Eq, Structural)]
pub struct s16 {
    pub bits: u16,
}

impl s16 {
    /// The all-zero word.
    pub fn zero() -> (r: s16)
        ensures
            r.bits == 0,
    {
        s16 { bits: 0 }
    }

    /// The word as an unsigned integer.
    pub fn as_u16(&self) -> (r: u16)
        ensures
            r == self.bits,
    {
        self.bits
    }

    /// The word as a signed (two's complement) integer.
    pub fn as_i16(&self) -> (r: i16)
        ensures
            r as int == signed16(self.bits),
    {
        proof {
            let b = self.bits;
            assert((b as i16) as int == if b < 0x8000 {
                b as int
            } else {
                b as int - 0x10000
            }) by (bit_vector);
        }
        #[verifier::truncate] (self.bits as i16)
    }

    /// The word as a boolean: any nonzero pattern reads as true.
    pub fn as_bool(&self) -> (r: bool)
        ensures
            r == (self.bits != 0),
    {
        self.bits != 0
    }

    /// The word with the given unsigned value.
    pub fn from_u16(v: u16) -> (r: s16)
        ensures
            r.bits == v,
    {
        s16 { bits: v }
    }

    /// The word whose signed reading is `v`.
    pub fn from_i16(v: i16) -> (r: s16)
        ensures
            signed16(r.bits) == v,
            r.bits == unsigned16(v),
    {
        proof {
            assert((v as u16) as int == if v >= 0 {
                v as int
            } else {
                v as int + 0x10000
            }) by (bit_vector);
        }
        s16 { bits: #[verifier::truncate] (v as u16) }
    }

    /// The word holding a zero-extended byte.
    pub fn from_u8(v: u8) -> (r: s16)
        ensures
            r.bits == v,
    {
        s16 { bits: v as u16 }
    }

    /// The word encoding a boolean as 1 or 0.
    pub fn from_bool(v: bool) -> (r: s16)
        ensures
            r.bits == (if v {
                1u16
            } else {
                0u16
            }),
    {
        if v {
            s16 { bits: 1 }
        } else {
            s16 { bits: 0 }
        }
    }
}

impl Default for s16 {
    /// The default word is zero.
    fn default() -> (r: s16)
        ensures
            r.bits == 0,
    {
        s16 { bits: 0 }
    }
}

} // verus!
