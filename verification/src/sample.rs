//! On-disk sample encodings and the exact scalar values they decode to.

use vstd::prelude::*;

verus! {

/// The on-disk encoding of each scalar component (I or Q) of a sample.
/// Which one a capture file uses depends on the SDR tool that produced it.
#[derive(Clone, Copy, PartialEq, Eq, Structural, Debug)]
pub enum SampleType {
    /// Scalars stored as unsigned 8-bit integers.
    U8,
    /// Scalars stored as signed 8-bit integers.
    I8,
    /// Scalars stored as unsigned 16-bit integers.
    U16,
    /// Scalars stored as signed 16-bit integers.
    I16,
    /// Scalars stored as 32-bit IEEE-754 floating point numbers.
    F32,
    /// Scalars stored as 64-bit IEEE-754 floating point numbers.
    F64,
}

impl SampleType {
    /// Bytes one scalar component (I or Q) occupies on disk.
    pub open spec fn spec_element_len(self) -> nat {
        match self {
            SampleType::U8 => 1,
            SampleType::I8 => 1,
            SampleType::U16 => 2,
            SampleType::I16 => 2,
            SampleType::F32 => 4,
            SampleType::F64 => 8,
        }
    }

    /// Bytes one full sample (I followed by Q) occupies on disk.
    pub open spec fn spec_sample_len(self) -> nat {
        2 * self.spec_element_len()
    }

    /// The number of bytes per scalar component.
    pub fn element_len(&self) -> (n: usize)
        ensures
            n == self.spec_element_len(),
            1 <= n <= 8,
    {
        match self {
            SampleType::U8 => 1,
            SampleType::I8 => 1,
            SampleType::U16 => 2,
            SampleType::I16 => 2,
            SampleType::F32 => 4,
            SampleType::F64 => 8,
        }
    }

    /// The number of bytes per sample.
    /// One sample has 2 values: I and Q.
    /// Therefore the total number of bytes per sample is twice the length
    /// of the datatype.
    pub fn sample_len(&self) -> (n: usize)
        ensures
            n == self.spec_sample_len(),
            2 <= n <= 16,
    {
        match self {
            SampleType::U8 => 2,
            SampleType::I8 => 2,
            SampleType::U16 => 4,
            SampleType::I16 => 4,
            SampleType::F32 => 8,
            SampleType::F64 => 16,
        }
    }
}

/// One decoded scalar component, carried exactly as the stream stored it.
///
/// Integer encodings carry the integer value itself; the two floating-point
/// encodings carry the raw IEEE-754 bit pattern, so that no precision is lost
/// before the caller widens or narrows the value to its target float type.
#[derive(Clone, Copy, PartialEq, Eq, Structural, Debug)]
pub enum Scalar {
    /// Value of a `SampleType::U8` scalar.
    U8(u8),
    /// Value of a `SampleType::I8` scalar.
    I8(i8),
    /// Value of a `SampleType::U16` scalar.
    U16(u16),
    /// Value of a `SampleType::I16` scalar.
    I16(i16),
    /// Bit pattern of a `SampleType::F32` scalar.
    F32Bits(u32),
    /// Bit pattern of a `SampleType::F64` scalar.
    F64Bits(u64),
}

/// One decoded IQ sample: the in-phase scalar followed by the quadrature
/// scalar, in the order they stood in the stream.
#[derive(Clone, Copy, PartialEq, Eq, Structural, Debug)]
pub struct IqSample {
    /// The in-phase component (stored first on disk).
    pub i: Scalar,
    /// The quadrature component (stored second on disk).
    pub q: Scalar,
}

/// The unsigned 16-bit value stored little-endian in two bytes.
pub open spec fn spec_u16_le(b0: u8, b1: u8) -> int {
    b0 + 0x100 * b1
}

/// The unsigned 32-bit value stored little-endian in four bytes.
pub open spec fn spec_u32_le(b: Seq<u8>) -> int
    recommends
        b.len() == 4,
{
    b[0] + 0x100 * b[1] + 0x1_0000 * b[2] + 0x100_0000 * b[3]
}

/// The unsigned 64-bit value stored little-endian in eight bytes.
pub open spec fn spec_u64_le(b: Seq<u8>) -> int
    recommends
        b.len() == 8,
{
    b[0] + 0x100 * b[1] + 0x1_0000 * b[2] + 0x100_0000 * b[3] + 0x1_0000_0000 * b[4]
        + 0x100_0000_0000 * b[5] + 0x1_0000_0000_0000 * b[6] + 0x100_0000_0000_0000 * b[7]
}

/// The value of a byte reinterpreted as a two's-complement signed 8-bit
/// integer.
pub open spec fn spec_i8_val(b: u8) -> int {
    if b < 0x80 {
        b as int
    } else {
        b - 0x100
    }
}

/// The value of an unsigned 16-bit quantity reinterpreted as a
/// two's-complement signed 16-bit integer.
pub open spec fn spec_i16_val(u: int) -> int {
    if u < 0x8000 {
        u
    } else {
        u - 0x1_0000
    }
}

/// The scalar that one element's bytes decode to under the given encoding.
pub open spec fn spec_decode_scalar(t: SampleType, b: Seq<u8>) -> Scalar
    recommends
        b.len() == t.spec_element_len(),
{
    match t {
        SampleType::U8 => Scalar::U8(b[0]),
        SampleType::I8 => Scalar::I8(spec_i8_val(b[0]) as i8),
        SampleType::U16 => Scalar::U16(spec_u16_le(b[0], b[1]) as u16),
        SampleType::I16 => Scalar::I16(spec_i16_val(spec_u16_le(b[0], b[1])) as i16),
        SampleType::F32 => Scalar::F32Bits(spec_u32_le(b) as u32),
        SampleType::F64 => Scalar::F64Bits(spec_u64_le(b) as u64),
    }
}

/// The sample that one record's bytes decode to: the I half first, then the
/// Q half, each `spec_element_len` bytes wide.
pub open spec fn spec_decode_sample(t: SampleType, b: Seq<u8>) -> IqSample
    recommends
        b.len() == t.spec_sample_len(),
{
    IqSample {
        i: spec_decode_scalar(t, b.subrange(0, t.spec_element_len() as int)),
        q: spec_decode_scalar(
            t,
            b.subrange(t.spec_element_len() as int, t.spec_sample_len() as int),
        ),
    }
}

/// Decodes a signed 8-bit scalar from its single byte.
pub fn decode_i8(b: u8) -> (v: i8)
    ensures
        v as int == spec_i8_val(b),
{
    if b < 0x80 {
        b as i8
    } else {
        ((b as i16) - 0x100) as i8
    }
}

/// Decodes an unsigned 16-bit scalar from its two little-endian bytes.
pub fn decode_u16_le(b0: u8, b1: u8) -> (v: u16)
    ensures
        v as int == spec_u16_le(b0, b1),
{
    b0 as u16 + 0x100 * (b1 as u16)
}

/// Decodes a signed 16-bit scalar from its two little-endian bytes.
pub fn decode_i16_le(b0: u8, b1: u8) -> (v: i16)
    ensures
        v as int == spec_i16_val(spec_u16_le(b0, b1)),
{
    let u = decode_u16_le(b0, b1);
    if u < 0x8000 {
        u as i16
    } else {
        ((u as i32) - 0x1_0000) as i16
    }
}

/// Assembles the bit pattern of a 32-bit scalar from its four little-endian
/// bytes.
pub fn decode_u32_le(b0: u8, b1: u8, b2: u8, b3: u8) -> (v: u32)
    ensures
        v as int == spec_u32_le(seq![b0, b1, b2, b3]),
{
    b0 as u32 + 0x100 * (b1 as u32) + 0x1_0000 * (b2 as u32) + 0x100_0000 * (b3 as u32)
}

/// Assembles the bit pattern of a 64-bit scalar from its eight little-endian
/// bytes.
pub fn decode_u64_le(b0: u8, b1: u8, b2: u8, b3: u8, b4: u8, b5: u8, b6: u8, b7: u8) -> (v: u64)
    ensures
        v as int == spec_u64_le(seq![b0, b1, b2, b3, b4, b5, b6, b7]),
{
    b0 as u64 + 0x100 * (b1 as u64) + 0x1_0000 * (b2 as u64) + 0x100_0000 * (b3 as u64)
        + 0x1_0000_0000 * (b4 as u64) + 0x100_0000_0000 * (b5 as u64)
        + 0x1_0000_0000_0000 * (b6 as u64) + 0x100_0000_0000_0000 * (b7 as u64)
}

/// Decodes the scalar whose element bytes start at `off` in `buf`.
pub fn decode_scalar_at(t: SampleType, buf: &Vec<u8>, off: usize) -> (s: Scalar)
    requires
        off + t.spec_element_len() <= buf@.len(),
    ensures
        s == spec_decode_scalar(t, buf@.subrange(off as int, off + t.spec_element_len())),
{
    proof {
        broadcast use vstd::std_specs::vec::axiom_spec_len;

        assert(buf.len() <= usize::MAX);
    }
    match t {
        SampleType::U8 => Scalar::U8(buf[off]),
        SampleType::I8 => Scalar::I8(decode_i8(buf[off])),
        SampleType::U16 => Scalar::U16(decode_u16_le(buf[off], buf[off + 1])),
        SampleType::I16 => Scalar::I16(decode_i16_le(buf[off], buf[off + 1])),
        SampleType::F32 => Scalar::F32Bits(
            decode_u32_le(buf[off], buf[off + 1], buf[off + 2], buf[off + 3]),
        ),
        SampleType::F64 => Scalar::F64Bits(
            decode_u64_le(
                buf[off],
                buf[off + 1],
                buf[off + 2],
                buf[off + 3],
                buf[off + 4],
                buf[off + 5],
                buf[off + 6],
                buf[off + 7],
            ),
        ),
    }
}

/// Decodes the sample whose record bytes start at `off` in `buf`: the I
/// scalar from the first element, the Q scalar from the second.
pub fn decode_sample_at(t: SampleType, buf: &Vec<u8>, off: usize) -> (s: IqSample)
    requires
        off + t.spec_sample_len() <= buf@.len(),
    ensures
        s == spec_decode_sample(t, buf@.subrange(off as int, off + t.spec_sample_len())),
{
    proof {
        broadcast use vstd::std_specs::vec::axiom_spec_len;

        assert(buf.len() <= usize::MAX);
    }
    let e = t.element_len();
    let i = decode_scalar_at(t, buf, off);
    let q = decode_scalar_at(t, buf, off + e);
    proof {
        let rec = buf@.subrange(off as int, off + t.spec_sample_len());
        assert(buf@.subrange(off as int, off + t.spec_element_len()) =~= rec.subrange(
            0,
            t.spec_element_len() as int,
        ));
        assert(buf@.subrange(off + t.spec_element_len(), off + t.spec_sample_len()) =~= rec.subrange(
            t.spec_element_len() as int,
            t.spec_sample_len() as int,
        ));
    }
    IqSample { i, q }
}

} // verus!
