use openmls::bytes::{append_bytes, bytes_equal, copy_bytes};
use openmls::codec::{
    append_u16, append_u16_list, append_u32, append_u64, append_u8, append_vector, encode_vector,
    CodecError, MAX_VECTOR_LENGTH,
};
use tls_codec::Serialize;

fn reference_vector(content: &[u8]) -> Vec<u8> {
    tls_codec::VLBytes::new(content.to_vec())
        .tls_serialize_detached()
        .unwrap()
}

#[test]
fn vector_encoding_of_empty_content_is_one_zero_byte() {
    assert_eq!(encode_vector(&[]).unwrap(), vec![0u8]);
}

#[test]
fn vector_encoding_has_one_byte_prefix_up_to_63() {
    let content = vec![7u8; 63];
    let encoded = encode_vector(&content).unwrap();
    assert_eq!(encoded.len(), 64);
    assert_eq!(encoded[0], 63);
    assert_eq!(&encoded[1..], &content[..]);
}

#[test]
fn vector_encoding_has_two_byte_prefix_from_64() {
    let content = vec![9u8; 64];
    let encoded = encode_vector(&content).unwrap();
    assert_eq!(encoded.len(), 66);
    assert_eq!(&encoded[..2], &[0x40, 0x40]);
    let content = vec![9u8; 0x3fff];
    let encoded = encode_vector(&content).unwrap();
    assert_eq!(&encoded[..2], &[0x7f, 0xff]);
}

#[test]
fn vector_encoding_has_four_byte_prefix_from_16384() {
    let content = vec![1u8; 0x4000];
    let encoded = encode_vector(&content).unwrap();
    assert_eq!(encoded.len(), 0x4000 + 4);
    assert_eq!(&encoded[..4], &[0x80, 0x00, 0x40, 0x00]);
}

#[test]
fn vector_encoding_agrees_with_the_codec_on_many_lengths() {
    for len in [0usize, 1, 2, 62, 63, 64, 65, 255, 256, 16383, 16384, 16385, 70000] {
        let content: Vec<u8> = (0..len).map(|i| (i % 251) as u8).collect();
        assert_eq!(encode_vector(&content).unwrap(), reference_vector(&content));
    }
}

#[test]
fn vector_longer_than_the_limit_is_refused() {
    let content = vec![0u8; MAX_VECTOR_LENGTH + 1];
    assert_eq!(encode_vector(&content), Err(CodecError::InvalidVectorLength));
    let mut out = vec![1u8, 2, 3];
    assert_eq!(
        append_vector(&mut out, &content),
        Err(CodecError::InvalidVectorLength)
    );
    assert_eq!(out, vec![1u8, 2, 3]);
}

#[test]
fn integers_are_encoded_big_endian() {
    let mut out = Vec::new();
    append_u8(&mut out, 0xab);
    append_u16(&mut out, 0x0102);
    append_u32(&mut out, 0x0304_0506);
    append_u64(&mut out, 0x0708_090a_0b0c_0d0e);
    assert_eq!(
        out,
        vec![0xab, 1, 2, 3, 4, 5, 6, 7, 8, 9, 10, 11, 12, 13, 14]
    );
}

#[test]
fn integer_encodings_agree_with_the_codec() {
    for v in [0u16, 1, 255, 256, 0xfffe, 0xffff] {
        let mut out = Vec::new();
        append_u16(&mut out, v);
        assert_eq!(out, v.tls_serialize_detached().unwrap());
    }
    for v in [0u32, 1, 0xffff, 0x1_0000, 0xdead_beef, u32::MAX] {
        let mut out = Vec::new();
        append_u32(&mut out, v);
        assert_eq!(out, v.tls_serialize_detached().unwrap());
    }
    for v in [0u64, 1, 0xffff_ffff, 0x1_0000_0000, u64::MAX] {
        let mut out = Vec::new();
        append_u64(&mut out, v);
        assert_eq!(out, v.tls_serialize_detached().unwrap());
    }
}

#[test]
fn list_of_integers_is_a_vector_of_their_encodings() {
    let mut out = vec![0xffu8];
    append_u16_list(&mut out, &[1, 0x0203]).unwrap();
    assert_eq!(out, vec![0xff, 4, 0, 1, 2, 3]);
    let values = vec![1u16, 2, 3];
    let mut out = Vec::new();
    append_u16_list(&mut out, &values).unwrap();
    assert_eq!(out, values.tls_serialize_detached().unwrap());
}

#[test]
fn bytes_are_appended_and_copied() {
    let mut out = vec![1u8, 2];
    append_bytes(&mut out, &[3, 4, 5]);
    assert_eq!(out, vec![1, 2, 3, 4, 5]);
    assert_eq!(copy_bytes(&[9, 8, 7]), vec![9, 8, 7]);
    assert_eq!(copy_bytes(&[]), Vec::<u8>::new());
}

#[test]
fn byte_strings_are_compared_whole() {
    assert!(bytes_equal(&[], &[]));
    assert!(bytes_equal(&[1, 2, 3], &[1, 2, 3]));
    assert!(!bytes_equal(&[1, 2, 3], &[1, 2, 4]));
    assert!(!bytes_equal(&[0, 2, 3], &[1, 2, 3]));
    assert!(!bytes_equal(&[1, 2, 3], &[1, 2]));
    assert!(!bytes_equal(&[0x80], &[0x00]));
}
