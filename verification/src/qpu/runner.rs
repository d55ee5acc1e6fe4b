//! Decoding the raw buffers that come back from an execution into registers of shot values.
//!
//! Floating-point values are decoded to their bit patterns: an `f64` to the `u64` of its bits,
//! a single-precision complex number to the `u32` bits of its real and imaginary parts.
use vstd::bytes::{
    spec_u16_from_le_bytes, spec_u32_from_le_bytes, spec_u64_from_le_bytes, u16_from_le_bytes,
    u32_from_le_bytes, u64_from_le_bytes,
};
use vstd::prelude::*;
use vstd::slice::slice_subrange;

verus! {

/// Errors that can occur when decoding the results from the QPU
#[derive(Debug, PartialEq, Eq, Structural)]
pub enum DecodeError {
    /// Only 1-dimensional buffer shapes are currently supported
    InvalidShape,
    /// The buffer does not hold as many bytes as its shape and data type call for.
    BufferLength {
        /// The number of bytes expected.
        expected: usize,
        /// The number of bytes held.
        actual: usize,
    },
}

/// The type of the values in a buffer.
#[derive(Debug, Clone, Copy, PartialEq, Eq, Structural)]
pub enum DataType {
    /// 64-bit floating point numbers.
    Float64,
    /// 16-bit signed integers.
    Int16,
    /// Complex numbers of two 32-bit floating point parts.
    Complex64,
    /// 8-bit signed integers.
    Int8,
}

impl DataType {
    /// The name of the type, as NumPy spells it.
    pub open spec fn spec_name(self) -> Seq<char> {
        match self {
            DataType::Float64 => "float64"@,
            DataType::Int16 => "int16"@,
            DataType::Complex64 => "complex64"@,
            DataType::Int8 => "int8"@,
        }
    }

    /// The name of the type, as NumPy spells it.
    pub fn to_string(&self) -> (name: String)
        ensures
            name@ == self.spec_name(),
    {
        match self {
            DataType::Float64 => "float64".to_owned(),
            DataType::Int16 => "int16".to_owned(),
            DataType::Complex64 => "complex64".to_owned(),
            DataType::Int8 => "int8".to_owned(),
        }
    }

    /// The number of bytes that one value of the type takes.
    pub open spec fn spec_width(self) -> nat {
        match self {
            DataType::Float64 => 8,
            DataType::Int16 => 2,
            DataType::Complex64 => 8,
            DataType::Int8 => 1,
        }
    }
}

/// The raw form of the data which comes back from an execution.
#[derive(Debug, PartialEq, Eq)]
pub struct Buffer {
    /// The dimensions of the data; only one dimension, the number of shots, is supported.
    pub shape: Vec<usize>,
    /// The values, each in little-endian byte order, one after another.
    pub data: Vec<u8>,
    /// The type of the values.
    pub dtype: DataType,
}

impl Buffer {
    fn check_shape(&self) -> (checked: Result<(), DecodeError>)
        ensures
            checked is Ok <==> self.shape@.len() == 1,
            checked is Err ==> checked == Err::<(), DecodeError>(DecodeError::InvalidShape),
    {
        if self.shape.len() == 1 {
            Ok(())
        } else {
            Err(DecodeError::InvalidShape)
        }
    }

    fn assert_len(&self, expected: usize) -> (checked: Result<(), DecodeError>)
        ensures
            checked is Ok <==> self.data@.len() == expected,
            checked is Err ==> checked == Err::<(), DecodeError>(
                DecodeError::BufferLength { expected, actual: self.data@.len() as usize },
            ),
    {
        let actual = self.data.len();
        if expected == actual {
            Ok(())
        } else {
            Err(DecodeError::BufferLength { expected, actual })
        }
    }
}

/// Data from an individual register. Each variant contains a vector with the expected data type
/// where each value in the vector corresponds to a shot.
#[derive(Debug, PartialEq, Eq)]
pub enum Register {
    /// The NumPy `float64` type: the bits of each `f64`.
    F64(Vec<u64>),
    /// The NumPy `int16` type.
    I16(Vec<i16>),
    /// The NumPy `complex64` type: the bits of the real and the imaginary `f32` part.
    Complex32(Vec<(u32, u32)>),
    /// The NumPy `int8` type.
    I8(Vec<i8>),
}

/// The bits of the `f64` of a shot: eight bytes, least significant first.
pub open spec fn f64_bits_at(data: Seq<u8>, shot: int) -> u64 {
    spec_u64_from_le_bytes(data.subrange(8 * shot, 8 * shot + 8))
}

/// The `i16` of a shot: two bytes, least significant first, in two's complement.
pub open spec fn i16_at(data: Seq<u8>, shot: int) -> i16 {
    spec_u16_from_le_bytes(data.subrange(2 * shot, 2 * shot + 2)) as i16
}

/// The bits of the real and the imaginary `f32` of a shot: four bytes each, least significant
/// first, the real part first.
pub open spec fn complex_bits_at(data: Seq<u8>, shot: int) -> (u32, u32) {
    (
        spec_u32_from_le_bytes(data.subrange(8 * shot, 8 * shot + 4)),
        spec_u32_from_le_bytes(data.subrange(8 * shot + 4, 8 * shot + 8)),
    )
}

/// The `i8` of a shot: its byte in two's complement.
pub open spec fn i8_at(data: Seq<u8>, shot: int) -> i8 {
    data[shot] as i8
}

/// Whether a register holds the values of a buffer of `shots` values of type `dtype`.
pub open spec fn decodes_to(dtype: DataType, data: Seq<u8>, shots: nat, register: Register) -> bool {
    match dtype {
        DataType::Float64 => register matches Register::F64(values) && values@.len() == shots
            && forall|i: int| 0 <= i < shots ==> #[trigger] values@[i] == f64_bits_at(data, i),
        DataType::Int16 => register matches Register::I16(values) && values@.len() == shots
            && forall|i: int| 0 <= i < shots ==> #[trigger] values@[i] == i16_at(data, i),
        DataType::Complex64 => register matches Register::Complex32(values) && values@.len()
            == shots && forall|i: int| 0 <= i < shots ==> #[trigger] values@[i] == complex_bits_at(data, i),
        DataType::Int8 => register matches Register::I8(values) && values@.len() == shots
            && forall|i: int| 0 <= i < shots ==> #[trigger] values@[i] == i8_at(data, i),
    }
}

impl Register {
    /// Decodes a buffer: its shape must be one-dimensional, giving the number of shots, and it
    /// must hold exactly as many bytes as that many values of its type take.
    pub fn try_from(buffer: Buffer) -> (register: Result<Register, DecodeError>)
        requires
            buffer.shape@.len() == 1 ==> buffer.shape@[0] * buffer.dtype.spec_width() <= usize::MAX,
        ensures
            buffer.shape@.len() != 1 ==> register == Err::<Register, DecodeError>(
                DecodeError::InvalidShape,
            ),
            buffer.shape@.len() == 1 && buffer.data@.len() != buffer.shape@[0]
                * buffer.dtype.spec_width() ==> register == Err::<Register, DecodeError>(
                DecodeError::BufferLength {
                    expected: (buffer.shape@[0] * buffer.dtype.spec_width()) as usize,
                    actual: buffer.data@.len() as usize,
                },
            ),
            buffer.shape@.len() == 1 && buffer.data@.len() == buffer.shape@[0]
                * buffer.dtype.spec_width() ==> register is Ok && decodes_to(
                buffer.dtype,
                buffer.data@,
                buffer.shape@[0] as nat,
                register->Ok_0,
            ),
    {
        buffer.check_shape()?;
        let shots = buffer.shape[0];
        let expected_len: usize = match buffer.dtype {
            DataType::Float64 => shots * 8,
            DataType::Int16 => shots * 2,
            DataType::Complex64 => shots * 8,
            DataType::Int8 => shots,
        };
        buffer.assert_len(expected_len)?;
        let data = buffer.data.as_slice();
        let register = match buffer.dtype {
            DataType::Float64 => Register::F64(decode_f64_bits(data, shots)),
            DataType::Int16 => Register::I16(decode_i16(data, shots)),
            DataType::Complex64 => Register::Complex32(decode_complex_bits(data, shots)),
            DataType::Int8 => Register::I8(decode_i8(data, shots)),
        };
        Ok(register)
    }
}

fn decode_f64_bits(data: &[u8], shots: usize) -> (values: Vec<u64>)
    requires
        data@.len() == shots * 8,
        shots * 8 <= usize::MAX,
    ensures
        values@.len() == shots,
        forall|i: int| 0 <= i < shots ==> #[trigger] values@[i] == f64_bits_at(data@, i),
{
    let mut values: Vec<u64> = Vec::new();
    let mut i: usize = 0;
    while i < shots
        invariant
            i <= shots,
            data@.len() == shots * 8,
            shots * 8 <= usize::MAX,
            values@.len() == i,
            forall|j: int| 0 <= j < i ==> #[trigger] values@[j] == f64_bits_at(data@, j),
        decreases shots - i,
    {
        assert(i * 8 + 8 <= shots * 8) by (nonlinear_arith)
            requires
                i < shots,
        ;
        let start = i * 8;
        values.push(u64_from_le_bytes(slice_subrange(data, start, start + 8)));
        i = i + 1;
    }
    values
}

fn decode_i16(data: &[u8], shots: usize) -> (values: Vec<i16>)
    requires
        data@.len() == shots * 2,
        shots * 2 <= usize::MAX,
    ensures
        values@.len() == shots,
        forall|i: int| 0 <= i < shots ==> #[trigger] values@[i] == i16_at(data@, i),
{
    let mut values: Vec<i16> = Vec::new();
    let mut i: usize = 0;
    while i < shots
        invariant
            i <= shots,
            data@.len() == shots * 2,
            shots * 2 <= usize::MAX,
            values@.len() == i,
            forall|j: int| 0 <= j < i ==> #[trigger] values@[j] == i16_at(data@, j),
        decreases shots - i,
    {
        assert(i * 2 + 2 <= shots * 2) by (nonlinear_arith)
            requires
                i < shots,
        ;
        let start = i * 2;
        values.push(#[verifier::truncate] (u16_from_le_bytes(slice_subrange(data, start, start + 2)) as i16));
        i = i + 1;
    }
    values
}

fn decode_complex_bits(data: &[u8], shots: usize) -> (values: Vec<(u32, u32)>)
    requires
        data@.len() == shots * 8,
        shots * 8 <= usize::MAX,
    ensures
        values@.len() == shots,
        forall|i: int| 0 <= i < shots ==> #[trigger] values@[i] == complex_bits_at(data@, i),
{
    let mut values: Vec<(u32, u32)> = Vec::new();
    let mut i: usize = 0;
    while i < shots
        invariant
            i <= shots,
            data@.len() == shots * 8,
            shots * 8 <= usize::MAX,
            values@.len() == i,
            forall|j: int| 0 <= j < i ==> #[trigger] values@[j] == complex_bits_at(data@, j),
        decreases shots - i,
    {
        assert(i * 8 + 8 <= shots * 8) by (nonlinear_arith)
            requires
                i < shots,
        ;
        let start = i * 8;
        let real_bits = u32_from_le_bytes(slice_subrange(data, start, start + 4));
        let imaginary_bits = u32_from_le_bytes(slice_subrange(data, start + 4, start + 8));
        values.push((real_bits, imaginary_bits));
        i = i + 1;
    }
    values
}

fn decode_i8(data: &[u8], shots: usize) -> (values: Vec<i8>)
    requires
        data@.len() == shots,
    ensures
        values@.len() == shots,
        forall|i: int| 0 <= i < shots ==> #[trigger] values@[i] == i8_at(data@, i),
{
    let mut values: Vec<i8> = Vec::new();
    let mut i: usize = 0;
    while i < shots
        invariant
            i <= shots,
            data@.len() == shots,
            values@.len() == i,
            forall|j: int| 0 <= j < i ==> #[trigger] values@[j] == i8_at(data@, j),
        decreases shots - i,
    {
        values.push(data[i] as i8);
        i = i + 1;
    }
    values
}

} // verus!
