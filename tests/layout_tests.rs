use shader_processing::bytes::{decode_words, encode_words, le_to_word, word_to_le};
use shader_processing::error::PipelineError;
use shader_processing::layout::{uniform_layout, FieldKind};
use shader_processing::model::{quad, vertices_as_bytes, ConvolutionUniform, FrameUniforms};
use shader_processing::uniform::{pack_block, unpack_block};

#[test]
fn word_bytes_are_little_endian() {
    assert_eq!(word_to_le(0x0403_0201), [1, 2, 3, 4]);
    assert_eq!(le_to_word([1, 2, 3, 4]), 0x0403_0201);
}

#[test]
fn encode_words_flattens_in_order() {
    let bytes = encode_words(&vec![0x0403_0201, 0xdead_beef]);
    assert_eq!(bytes, vec![1, 2, 3, 4, 0xef, 0xbe, 0xad, 0xde]);
    assert_eq!(encode_words(&vec![]), Vec::<u8>::new());
}

#[test]
fn decode_words_reads_back_and_refuses_slop() {
    assert_eq!(decode_words(&vec![1, 2, 3, 4, 0xef, 0xbe, 0xad, 0xde]), Some(vec![0x0403_0201, 0xdead_beef]));
    assert_eq!(decode_words(&vec![1, 2, 3]), None);
    assert_eq!(decode_words(&vec![]), Some(vec![]));
}

#[test]
fn layout_follows_alignment_rules() {
    let kinds = vec![FieldKind::Scalar, FieldKind::Vec4, FieldKind::Vec2, FieldKind::Mat4];
    let l = uniform_layout(&kinds, 65536).unwrap();
    assert_eq!(l.offsets, vec![0, 16, 32, 48]);
    assert_eq!(l.size, 112);

    let l = uniform_layout(&vec![FieldKind::Scalar, FieldKind::Vec2], 65536).unwrap();
    assert_eq!(l.offsets, vec![0, 8]);
    assert_eq!(l.size, 16);

    let l = uniform_layout(&vec![FieldKind::Vec4, FieldKind::Scalar], 65536).unwrap();
    assert_eq!(l.offsets, vec![0, 16]);
    assert_eq!(l.size, 32);
}

#[test]
fn layout_of_frame_and_convolution_blocks() {
    let l = uniform_layout(&FrameUniforms::kinds(), 65536).unwrap();
    assert_eq!(l.offsets, vec![0, 4, 8]);
    assert_eq!(l.size, 12);
    let l = uniform_layout(&ConvolutionUniform::kinds(), 65536).unwrap();
    assert_eq!(l.offsets, vec![0]);
    assert_eq!(l.size, 64);
}

#[test]
fn layout_over_limit_is_refused() {
    assert_eq!(
        uniform_layout(&ConvolutionUniform::kinds(), 63).unwrap_err(),
        PipelineError::ResourceLimitExceeded
    );
    assert!(uniform_layout(&ConvolutionUniform::kinds(), 64).is_ok());
    let kinds = vec![FieldKind::Scalar, FieldKind::Vec4];
    assert_eq!(uniform_layout(&kinds, 31).unwrap_err(), PipelineError::ResourceLimitExceeded);
    assert!(uniform_layout(&kinds, 32).is_ok());
}

#[test]
fn pack_block_places_fields_and_zeroes_padding() {
    let kinds = vec![FieldKind::Scalar, FieldKind::Vec4];
    let l = uniform_layout(&kinds, 65536).unwrap();
    let bytes = pack_block(&l, &vec![vec![7], vec![1, 2, 3, 4]]);
    let mut expected = vec![7, 0, 0, 0];
    expected.extend(vec![0u8; 12]);
    for w in 1u8..=4 {
        expected.extend(vec![w, 0, 0, 0]);
    }
    assert_eq!(bytes, expected);
    assert_eq!(unpack_block(&l, &bytes), Some(vec![vec![7], vec![1, 2, 3, 4]]));
    assert_eq!(unpack_block(&l, &vec![0u8; 31]), None);
}

#[test]
fn frame_uniforms_exact_bytes() {
    let l = uniform_layout(&FrameUniforms::kinds(), 65536).unwrap();
    let u = FrameUniforms { time_bits: 1.0f32.to_bits(), effect_bits: 2, step_count: 7 };
    assert_eq!(u.to_bytes(&l), vec![0, 0, 0x80, 0x3f, 2, 0, 0, 0, 7, 0, 0, 0]);
}

#[test]
fn frame_uniforms_round_trip() {
    let l = uniform_layout(&FrameUniforms::kinds(), 65536).unwrap();
    let u = FrameUniforms { time_bits: 0.25f32.to_bits(), effect_bits: 0.75f32.to_bits(), step_count: 40 };
    let bytes = u.to_bytes(&l);
    assert_eq!(bytes.len(), 12);
    assert_eq!(FrameUniforms::from_bytes(&l, &bytes), Some(u));
    assert_eq!(FrameUniforms::from_bytes(&l, &vec![0u8; 16]), None);
}

#[test]
fn convolution_uniform_round_trip() {
    let l = uniform_layout(&ConvolutionUniform::kinds(), 65536).unwrap();
    let mut kernel = [0u32; 16];
    for (i, k) in kernel.iter_mut().enumerate() {
        *k = (i as f32 / 16.0).to_bits();
    }
    let u = ConvolutionUniform { convolution: kernel };
    let bytes = u.to_bytes(&l);
    assert_eq!(bytes.len(), 64);
    assert_eq!(&bytes[4..8], &(1.0f32 / 16.0).to_le_bytes());
    let back = ConvolutionUniform::from_bytes(&l, &bytes).unwrap();
    assert_eq!(back.convolution, kernel);
    assert!(ConvolutionUniform::from_bytes(&l, &vec![0u8; 60]).is_none());
}

#[test]
fn quad_vertex_bytes() {
    let q = quad();
    assert_eq!(q.len(), 4);
    let expected: Vec<[f32; 2]> = vec![[-1.0, 1.0], [-1.0, -1.0], [1.0, 1.0], [1.0, -1.0]];
    for (v, e) in q.iter().zip(expected.iter()) {
        assert_eq!(f32::from_bits(v.position[0]), e[0]);
        assert_eq!(f32::from_bits(v.position[1]), e[1]);
    }
    let bytes = vertices_as_bytes(&q);
    assert_eq!(bytes.len(), 32);
    assert_eq!(&bytes[0..8], &[0, 0, 0x80, 0xbf, 0, 0, 0x80, 0x3f]);
    assert_eq!(&bytes[24..32], &[0, 0, 0x80, 0x3f, 0, 0, 0x80, 0xbf]);
}
