//! Scalars: single typed values, as attributes hold them.
//!
//! A scalar is kept as the name of its type and the bit pattern of its value. For an integer
//! that is its two's complement, extended to 64 bits by its sign; for a floating-point number,
//! the bits of its IEEE 754 form, which only the caller can give and take.

use crate::array::Datatype;
use vstd::prelude::*;

verus! {

/// One typed value, as an attribute holds it: the bit pattern of the value, in the low bits.
#[derive(Debug, Clone, Copy, PartialEq, Eq, Structural)]
pub struct Scalar {
    /// The type of the value.
    pub datatype: Datatype,
    /// The bit pattern of the value.
    pub bits: u64,
}

/// The type of a signed integer as wide as a pointer.
pub open spec fn pointer_sized_signed() -> Datatype {
    if usize::BITS == 64 {
        Datatype::Int64
    } else {
        Datatype::Int32
    }
}

/// The type of an unsigned integer as wide as a pointer.
pub open spec fn pointer_sized_unsigned() -> Datatype {
    if usize::BITS == 64 {
        Datatype::UInt64
    } else {
        Datatype::UInt32
    }
}

impl Scalar {
    /// The scalar of an `i8`.
    pub fn from_i8(value: i8) -> (scalar: Scalar)
        ensures
            scalar == (Scalar { datatype: Datatype::Int8, bits: value as u64 }),
            scalar.bits as i8 == value,
    {
        assert((value as u64) as i8 == value) by (bit_vector);
        Scalar { datatype: Datatype::Int8, bits: value as u64 }
    }

    /// The value as an `i8`, if it is one.
    pub fn to_i8(&self) -> (value: Option<i8>)
        ensures
            value == if self.datatype == Datatype::Int8 {
                Some(self.bits as i8)
            } else {
                None
            },
    {
        if self.datatype.same(Datatype::Int8) {
            Some(#[verifier::truncate] (self.bits as i8))
        } else {
            None
        }
    }

    /// The scalar of an `i16`.
    pub fn from_i16(value: i16) -> (scalar: Scalar)
        ensures
            scalar == (Scalar { datatype: Datatype::Int16, bits: value as u64 }),
            scalar.bits as i16 == value,
    {
        assert((value as u64) as i16 == value) by (bit_vector);
        Scalar { datatype: Datatype::Int16, bits: value as u64 }
    }

    /// The value as an `i16`, if it is one.
    pub fn to_i16(&self) -> (value: Option<i16>)
        ensures
            value == if self.datatype == Datatype::Int16 {
                Some(self.bits as i16)
            } else {
                None
            },
    {
        if self.datatype.same(Datatype::Int16) {
            Some(#[verifier::truncate] (self.bits as i16))
        } else {
            None
        }
    }

    /// The scalar of an `i32`.
    pub fn from_i32(value: i32) -> (scalar: Scalar)
        ensures
            scalar == (Scalar { datatype: Datatype::Int32, bits: value as u64 }),
            scalar.bits as i32 == value,
    {
        assert((value as u64) as i32 == value) by (bit_vector);
        Scalar { datatype: Datatype::Int32, bits: value as u64 }
    }

    /// The value as an `i32`, if it is one.
    pub fn to_i32(&self) -> (value: Option<i32>)
        ensures
            value == if self.datatype == Datatype::Int32 {
                Some(self.bits as i32)
            } else {
                None
            },
    {
        if self.datatype.same(Datatype::Int32) {
            Some(#[verifier::truncate] (self.bits as i32))
        } else {
            None
        }
    }

    /// The scalar of an `i64`.
    pub fn from_i64(value: i64) -> (scalar: Scalar)
        ensures
            scalar == (Scalar { datatype: Datatype::Int64, bits: value as u64 }),
            scalar.bits as i64 == value,
    {
        assert((value as u64) as i64 == value) by (bit_vector);
        Scalar { datatype: Datatype::Int64, bits: value as u64 }
    }

    /// The value as an `i64`, if it is one.
    pub fn to_i64(&self) -> (value: Option<i64>)
        ensures
            value == if self.datatype == Datatype::Int64 {
                Some(self.bits as i64)
            } else {
                None
            },
    {
        if self.datatype.same(Datatype::Int64) {
            Some(#[verifier::truncate] (self.bits as i64))
        } else {
            None
        }
    }

    /// The scalar of an `u8`.
    pub fn from_u8(value: u8) -> (scalar: Scalar)
        ensures
            scalar == (Scalar { datatype: Datatype::UInt8, bits: value as u64 }),
            scalar.bits as u8 == value,
    {
        assert((value as u64) as u8 == value) by (bit_vector);
        Scalar { datatype: Datatype::UInt8, bits: value as u64 }
    }

    /// The value as an `u8`, if it is one.
    pub fn to_u8(&self) -> (value: Option<u8>)
        ensures
            value == if self.datatype == Datatype::UInt8 {
                Some(self.bits as u8)
            } else {
                None
            },
    {
        if self.datatype.same(Datatype::UInt8) {
            Some(#[verifier::truncate] (self.bits as u8))
        } else {
            None
        }
    }

    /// The scalar of an `u16`.
    pub fn from_u16(value: u16) -> (scalar: Scalar)
        ensures
            scalar == (Scalar { datatype: Datatype::UInt16, bits: value as u64 }),
            scalar.bits as u16 == value,
    {
        assert((value as u64) as u16 == value) by (bit_vector);
        Scalar { datatype: Datatype::UInt16, bits: value as u64 }
    }

    /// The value as an `u16`, if it is one.
    pub fn to_u16(&self) -> (value: Option<u16>)
        ensures
            value == if self.datatype == Datatype::UInt16 {
                Some(self.bits as u16)
            } else {
                None
            },
    {
        if self.datatype.same(Datatype::UInt16) {
            Some(#[verifier::truncate] (self.bits as u16))
        } else {
            None
        }
    }

    /// The scalar of an `u32`.
    pub fn from_u32(value: u32) -> (scalar: Scalar)
        ensures
            scalar == (Scalar { datatype: Datatype::UInt32, bits: value as u64 }),
            scalar.bits as u32 == value,
    {
        assert((value as u64) as u32 == value) by (bit_vector);
        Scalar { datatype: Datatype::UInt32, bits: value as u64 }
    }

    /// The value as an `u32`, if it is one.
    pub fn to_u32(&self) -> (value: Option<u32>)
        ensures
            value == if self.datatype == Datatype::UInt32 {
                Some(self.bits as u32)
            } else {
                None
            },
    {
        if self.datatype.same(Datatype::UInt32) {
            Some(#[verifier::truncate] (self.bits as u32))
        } else {
            None
        }
    }

    /// The scalar of an `u64`.
    pub fn from_u64(value: u64) -> (scalar: Scalar)
        ensures
            scalar == (Scalar { datatype: Datatype::UInt64, bits: value as u64 }),
            scalar.bits as u64 == value,
    {
        assert((value as u64) as u64 == value) by (bit_vector);
        Scalar { datatype: Datatype::UInt64, bits: value as u64 }
    }

    /// The value as an `u64`, if it is one.
    pub fn to_u64(&self) -> (value: Option<u64>)
        ensures
            value == if self.datatype == Datatype::UInt64 {
                Some(self.bits as u64)
            } else {
                None
            },
    {
        if self.datatype.same(Datatype::UInt64) {
            Some(#[verifier::truncate] (self.bits as u64))
        } else {
            None
        }
    }

    /// The scalar of an `isize`.
    pub fn from_isize(value: isize) -> (scalar: Scalar)
        ensures
            scalar == (Scalar { datatype: pointer_sized_signed(), bits: value as i64 as u64 }),
            scalar.bits as i64 == value,
    {
        let wide: i64 = value as i64;
        assert((wide as u64) as i64 == wide) by (bit_vector);
        Scalar {
            datatype: if usize::BITS == 64 {
                Datatype::Int64
            } else {
                Datatype::Int32
            },
            bits: wide as u64,
        }
    }

    /// The scalar of a `usize`.
    pub fn from_usize(value: usize) -> (scalar: Scalar)
        ensures
            scalar == (Scalar { datatype: pointer_sized_unsigned(), bits: value as u64 }),
    {
        Scalar {
            datatype: if usize::BITS == 64 {
                Datatype::UInt64
            } else {
                Datatype::UInt32
            },
            bits: value as u64,
        }
    }

    /// The value as an `isize`, if it is one.
    pub fn to_isize(&self) -> (value: Option<isize>)
        ensures
            value == if self.datatype == pointer_sized_signed() {
                Some(self.bits as isize)
            } else {
                None
            },
    {
        let datatype = if usize::BITS == 64 {
            Datatype::Int64
        } else {
            Datatype::Int32
        };
        if self.datatype.same(datatype) {
            Some(#[verifier::truncate] (self.bits as isize))
        } else {
            None
        }
    }

    /// The value as a `usize`, if it is one.
    pub fn to_usize(&self) -> (value: Option<usize>)
        ensures
            value == if self.datatype == pointer_sized_unsigned() {
                Some(self.bits as usize)
            } else {
                None
            },
    {
        let datatype = if usize::BITS == 64 {
            Datatype::UInt64
        } else {
            Datatype::UInt32
        };
        if self.datatype.same(datatype) {
            Some(#[verifier::truncate] (self.bits as usize))
        } else {
            None
        }
    }

    /// The scalar of a value whose bit pattern is `bits`.
    pub fn from_bits(datatype: Datatype, bits: u64) -> (scalar: Scalar)
        ensures
            scalar == (Scalar { datatype, bits }),
    {
        Scalar { datatype, bits }
    }
}

} // verus!
