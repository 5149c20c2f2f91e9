use sdr_iq_file_reader::decoder::{ChunkDecoder, DecodeError};
use sdr_iq_file_reader::sample::{
    decode_i16_le, decode_i8, decode_u16_le, decode_u32_le, decode_u64_le, IqSample, SampleType,
    Scalar,
};

/// Mimics one read attempt of the surrounding application: take up to one
/// chunk's bytes from `data` at `*pos`, advance the position by what the
/// stream yielded, and hand the bytes to the decoder.
fn read_one(
    d: &ChunkDecoder,
    data: &[u8],
    pos: &mut usize,
) -> Result<Option<Vec<IqSample>>, DecodeError> {
    let cb = d.chunk_byte_len();
    let avail = data.len() - *pos;
    let filled = if avail < cb { avail } else { cb };
    let mut buf = vec![0u8; cb];
    buf[..filled].copy_from_slice(&data[*pos..*pos + filled]);
    *pos += filled;
    d.next_chunk(&buf, filled)
}

fn to_f32(s: Scalar) -> f32 {
    match s {
        Scalar::U8(v) => v as f32,
        Scalar::I8(v) => v as f32,
        Scalar::U16(v) => v as f32,
        Scalar::I16(v) => v as f32,
        Scalar::F32Bits(b) => f32::from_bits(b),
        Scalar::F64Bits(b) => f64::from_bits(b) as f32,
    }
}

fn to_f64(s: Scalar) -> f64 {
    match s {
        Scalar::U8(v) => v as f64,
        Scalar::I8(v) => v as f64,
        Scalar::U16(v) => v as f64,
        Scalar::I16(v) => v as f64,
        Scalar::F32Bits(b) => f32::from_bits(b) as f64,
        Scalar::F64Bits(b) => f64::from_bits(b),
    }
}

const ALL_TYPES: [SampleType; 6] = [
    SampleType::U8,
    SampleType::I8,
    SampleType::U16,
    SampleType::I16,
    SampleType::F32,
    SampleType::F64,
];

/// One sample's record bytes for each encoding, little-endian, I first.
fn record_bytes(t: SampleType, i_val: f64, q_val: f64) -> Vec<u8> {
    match t {
        SampleType::U8 => vec![i_val as u8, q_val as u8],
        SampleType::I8 => vec![(i_val as i8) as u8, (q_val as i8) as u8],
        SampleType::U16 => {
            let mut b = (i_val as u16).to_le_bytes().to_vec();
            b.extend_from_slice(&(q_val as u16).to_le_bytes());
            b
        }
        SampleType::I16 => {
            let mut b = (i_val as i16).to_le_bytes().to_vec();
            b.extend_from_slice(&(q_val as i16).to_le_bytes());
            b
        }
        SampleType::F32 => {
            let mut b = (i_val as f32).to_le_bytes().to_vec();
            b.extend_from_slice(&(q_val as f32).to_le_bytes());
            b
        }
        SampleType::F64 => {
            let mut b = i_val.to_le_bytes().to_vec();
            b.extend_from_slice(&q_val.to_le_bytes());
            b
        }
    }
}

#[test]
fn sample_len_matches_encoding_widths() {
    assert_eq!(SampleType::U8.sample_len(), 2);
    assert_eq!(SampleType::I8.sample_len(), 2);
    assert_eq!(SampleType::U16.sample_len(), 4);
    assert_eq!(SampleType::I16.sample_len(), 4);
    assert_eq!(SampleType::F32.sample_len(), 8);
    assert_eq!(SampleType::F64.sample_len(), 16);
    for t in ALL_TYPES {
        assert_eq!(t.sample_len(), 2 * t.element_len());
    }
}

#[test]
fn chunk_byte_len_is_samples_times_sample_len() {
    assert_eq!(ChunkDecoder::new(3, SampleType::F64).chunk_byte_len(), 48);
    assert_eq!(ChunkDecoder::new(1024, SampleType::F32).chunk_byte_len(), 8192);
    assert_eq!(ChunkDecoder::new(1, SampleType::U8).chunk_byte_len(), 2);
}

#[test]
fn signed_byte_boundary_values() {
    assert_eq!(decode_i8(0xFF), -1);
    assert_eq!(decode_i8(0x80), -128);
    assert_eq!(decode_i8(0x7F), 127);
    assert_eq!(decode_i8(0), 0);
}

#[test]
fn sixteen_bit_boundary_values() {
    assert_eq!(decode_i16_le(0xFF, 0xFF), -1);
    assert_eq!(decode_i16_le(0x00, 0x80), i16::MIN);
    assert_eq!(decode_i16_le(0xFF, 0x7F), i16::MAX);
    assert_eq!(decode_u16_le(0xFF, 0xFF), 65535);
    assert_eq!(decode_u16_le(0x01, 0x02), 0x0201);
}

#[test]
fn wide_bit_patterns_assemble_little_endian() {
    assert_eq!(decode_u32_le(0x78, 0x56, 0x34, 0x12), 0x1234_5678);
    assert_eq!(
        decode_u64_le(0xF0, 0xDE, 0xBC, 0x9A, 0x78, 0x56, 0x34, 0x12),
        0x1234_5678_9ABC_DEF0
    );
}

#[test]
fn unsigned_byte_max_decodes_to_255() {
    let d = ChunkDecoder::new(1, SampleType::U8);
    let r = d.next_chunk(&vec![0xFF, 0xFF], 2).unwrap().unwrap();
    assert_eq!(r[0].i, Scalar::U8(255));
    assert_eq!(to_f32(r[0].i), 255.0);
    assert_eq!(to_f64(r[0].q), 255.0);
}

#[test]
fn signed_byte_ff_decodes_to_minus_one() {
    let d = ChunkDecoder::new(1, SampleType::I8);
    let r = d.next_chunk(&vec![0xFF, 0x00], 2).unwrap().unwrap();
    assert_eq!(r[0].i, Scalar::I8(-1));
    assert_eq!(to_f32(r[0].i), -1.0);
    assert_eq!(to_f64(r[0].i), -1.0);
    assert_eq!(to_f32(r[0].q), 0.0);
}

#[test]
fn signed_sixteen_ff_ff_decodes_to_minus_one() {
    let d = ChunkDecoder::new(1, SampleType::I16);
    let r = d.next_chunk(&vec![0xFF, 0xFF, 0x02, 0x00], 4).unwrap().unwrap();
    assert_eq!(r[0].i, Scalar::I16(-1));
    assert_eq!(to_f32(r[0].i), -1.0);
    assert_eq!(r[0].q, Scalar::I16(2));
}

#[test]
fn f32_one_and_a_half_decodes_exactly_at_both_precisions() {
    let d = ChunkDecoder::new(1, SampleType::F32);
    let mut bytes = 1.5f32.to_le_bytes().to_vec();
    bytes.extend_from_slice(&(-0.25f32).to_le_bytes());
    let r = d.next_chunk(&bytes, 8).unwrap().unwrap();
    assert_eq!(r[0].i, Scalar::F32Bits(1.5f32.to_bits()));
    assert_eq!(to_f32(r[0].i), 1.5);
    assert_eq!(to_f64(r[0].i), 1.5);
    assert_eq!(to_f32(r[0].q), -0.25);
    assert_eq!(to_f64(r[0].q), -0.25);
}

#[test]
fn f64_passthrough_keeps_bits() {
    let d = ChunkDecoder::new(1, SampleType::F64);
    let mut bytes = 1.25f64.to_le_bytes().to_vec();
    bytes.extend_from_slice(&(-3.5f64).to_le_bytes());
    let r = d.next_chunk(&bytes, 16).unwrap().unwrap();
    assert_eq!(r[0].i, Scalar::F64Bits(1.25f64.to_bits()));
    assert_eq!(to_f64(r[0].i), 1.25);
    assert_eq!(to_f64(r[0].q), -3.5);
    assert_eq!(to_f32(r[0].q), -3.5);
}

#[test]
fn u8_stream_scenario_truncated_second_read() {
    // samples_per_chunk = 2, U8, stream [10,20,30,40,50,60]: the first read
    // consumes 4 bytes and yields samples (10,20) and (30,40); only 2 of the
    // 4 bytes of the next chunk remain, so the second read must be a
    // truncation error, not a short chunk.
    let d = ChunkDecoder::new(2, SampleType::U8);
    let data = [10u8, 20, 30, 40, 50, 60];
    let mut pos = 0usize;
    let first = read_one(&d, &data, &mut pos).unwrap().unwrap();
    assert_eq!(
        first,
        vec![
            IqSample { i: Scalar::U8(10), q: Scalar::U8(20) },
            IqSample { i: Scalar::U8(30), q: Scalar::U8(40) },
        ]
    );
    let second = read_one(&d, &data, &mut pos);
    assert_eq!(second, Err(DecodeError::TruncatedChunk));
}

#[test]
fn empty_stream_signals_exhaustion_not_error() {
    for t in ALL_TYPES {
        let d = ChunkDecoder::new(4, t);
        let data: [u8; 0] = [];
        let mut pos = 0usize;
        assert_eq!(read_one(&d, &data, &mut pos), Ok(None));
        // and again: exhaustion is terminal
        assert_eq!(read_one(&d, &data, &mut pos), Ok(None));
    }
}

#[test]
fn exact_multiple_yields_full_chunks_then_exhaustion() {
    // k = 2 chunks of n = 2 samples for every encoding: two full chunks,
    // then clean exhaustion, and exhaustion again on the read after that.
    for t in ALL_TYPES {
        let n = 2usize;
        let d = ChunkDecoder::new(n, t);
        let mut data = Vec::new();
        for s in 0..(2 * n) {
            data.extend_from_slice(&record_bytes(t, s as f64, (s + 1) as f64));
        }
        let mut pos = 0usize;
        for c in 0..2 {
            let chunk = read_one(&d, &data, &mut pos).unwrap().unwrap();
            assert_eq!(chunk.len(), n);
            for (m, s) in chunk.iter().enumerate() {
                let expect = (c * n + m) as f64;
                assert_eq!(to_f64(s.i), expect);
                assert_eq!(to_f64(s.q), expect + 1.0);
            }
        }
        assert_eq!(read_one(&d, &data, &mut pos), Ok(None));
        assert_eq!(read_one(&d, &data, &mut pos), Ok(None));
    }
}

#[test]
fn partial_tail_errors_after_full_chunks() {
    // k full chunks followed by r bytes, 0 < r < chunk bytes: k good chunks,
    // then a truncation error.
    for t in ALL_TYPES {
        let d = ChunkDecoder::new(2, t);
        let mut data = Vec::new();
        for s in 0..2 {
            data.extend_from_slice(&record_bytes(t, s as f64, s as f64));
        }
        data.push(0xAB); // one stray byte: less than a whole chunk
        let mut pos = 0usize;
        assert!(read_one(&d, &data, &mut pos).unwrap().is_some());
        assert_eq!(read_one(&d, &data, &mut pos), Err(DecodeError::TruncatedChunk));
    }
}

#[test]
fn both_precisions_agree_within_f32_epsilon() {
    // The same raw chunk feeds both output precisions; the widened values
    // must agree within 32-bit epsilon for every encoding.
    let values: [f64; 4] = [0.0, 1.0, -1.0, 0.15625];
    for t in ALL_TYPES {
        let d = ChunkDecoder::new(2, t);
        let mut data = Vec::new();
        data.extend_from_slice(&record_bytes(t, values[0], values[1]));
        data.extend_from_slice(&record_bytes(t, values[2], values[3]));
        let chunk = d.next_chunk(&data, data.len()).unwrap().unwrap();
        for s in chunk.iter() {
            assert!((to_f32(s.i) - to_f64(s.i) as f32).abs() < f32::EPSILON);
            assert!((to_f32(s.q) - to_f64(s.q) as f32).abs() < f32::EPSILON);
        }
    }
}

#[test]
fn decoding_preserves_on_disk_order() {
    let d = ChunkDecoder::new(3, SampleType::U16);
    let data: Vec<u8> = (0u8..12).collect();
    let chunk = d.next_chunk(&data, 12).unwrap().unwrap();
    assert_eq!(chunk.len(), 3);
    assert_eq!(chunk[0].i, Scalar::U16(0x0100));
    assert_eq!(chunk[0].q, Scalar::U16(0x0302));
    assert_eq!(chunk[1].i, Scalar::U16(0x0504));
    assert_eq!(chunk[1].q, Scalar::U16(0x0706));
    assert_eq!(chunk[2].i, Scalar::U16(0x0908));
    assert_eq!(chunk[2].q, Scalar::U16(0x0B0A));
}
