use qcs::qpu::runner::{Buffer, DataType, DecodeError, Register};

#[test]
fn float64_buffers_decode_to_little_endian_bits() {
    let values = [1.5f64, -0.25];
    let data: Vec<u8> = values.iter().flat_map(|v| v.to_le_bytes()).collect();
    let buffer = Buffer {
        shape: vec![2],
        data,
        dtype: DataType::Float64,
    };
    match Register::try_from(buffer).unwrap() {
        Register::F64(bits) => {
            let decoded: Vec<f64> = bits.into_iter().map(f64::from_bits).collect();
            assert_eq!(decoded, values);
        }
        other => panic!("unexpected register {other:?}"),
    }
}

#[test]
fn int16_buffers_decode_in_twos_complement() {
    let buffer = Buffer {
        shape: vec![3],
        data: vec![0x01, 0x00, 0xff, 0xff, 0x00, 0x80],
        dtype: DataType::Int16,
    };
    assert_eq!(
        Register::try_from(buffer).unwrap(),
        Register::I16(vec![1, -1, i16::MIN])
    );
}

#[test]
fn complex64_buffers_decode_to_real_and_imaginary_bits() {
    let data: Vec<u8> = [1.0f32, -2.0, 0.5, 4.0]
        .iter()
        .flat_map(|v| v.to_le_bytes())
        .collect();
    let buffer = Buffer {
        shape: vec![2],
        data,
        dtype: DataType::Complex64,
    };
    match Register::try_from(buffer).unwrap() {
        Register::Complex32(values) => {
            let decoded: Vec<(f32, f32)> = values
                .into_iter()
                .map(|(re, im)| (f32::from_bits(re), f32::from_bits(im)))
                .collect();
            assert_eq!(decoded, vec![(1.0, -2.0), (0.5, 4.0)]);
        }
        other => panic!("unexpected register {other:?}"),
    }
}

#[test]
fn int8_buffers_decode_bytes() {
    let buffer = Buffer {
        shape: vec![3],
        data: vec![0, 1, 255],
        dtype: DataType::Int8,
    };
    assert_eq!(Register::try_from(buffer).unwrap(), Register::I8(vec![0, 1, -1]));
}

#[test]
fn only_one_dimensional_buffers_decode() {
    for shape in [vec![], vec![1, 1]] {
        let buffer = Buffer {
            shape,
            data: vec![0],
            dtype: DataType::Int8,
        };
        assert_eq!(Register::try_from(buffer), Err(DecodeError::InvalidShape));
    }
}

#[test]
fn buffers_must_hold_exactly_their_values() {
    let buffer = Buffer {
        shape: vec![2],
        data: vec![0; 15],
        dtype: DataType::Float64,
    };
    assert_eq!(
        Register::try_from(buffer),
        Err(DecodeError::BufferLength {
            expected: 16,
            actual: 15
        })
    );
}

#[test]
fn data_types_are_named_as_numpy_names_them() {
    assert_eq!(DataType::Float64.to_string(), "float64");
    assert_eq!(DataType::Int16.to_string(), "int16");
    assert_eq!(DataType::Complex64.to_string(), "complex64");
    assert_eq!(DataType::Int8.to_string(), "int8");
}
