use openmls::codec::{append_u32, append_u64, append_u8, encode_vector};
use openmls::reader::{
    expect_end, read_length, read_u32, read_u64, read_u8, read_vector, ReadError,
};
use tls_codec::{Deserialize, Serialize};

#[test]
fn integers_are_read_big_endian() {
    let bytes = [0x01u8, 0x02, 0x03, 0x04, 0x05, 0x06, 0x07, 0x08, 0x09];
    assert_eq!(read_u8(&bytes, 0), Ok((1, 1)));
    assert_eq!(read_u8(&bytes, 8), Ok((9, 9)));
    assert_eq!(read_u8(&bytes, 9), Err(ReadError::EndOfStream));
    assert_eq!(read_u32(&bytes, 0), Ok((0x0102_0304, 4)));
    assert_eq!(read_u32(&bytes, 5), Ok((0x0607_0809, 9)));
    assert_eq!(read_u32(&bytes, 6), Err(ReadError::EndOfStream));
    assert_eq!(read_u64(&bytes, 0), Ok((0x0102_0304_0506_0708, 8)));
    assert_eq!(read_u64(&bytes, 1), Ok((0x0203_0405_0607_0809, 9)));
    assert_eq!(read_u64(&bytes, 2), Err(ReadError::EndOfStream));
    assert_eq!(read_u32(&[0xff; 4], 0), Ok((u32::MAX, 4)));
    assert_eq!(read_u64(&[0xff; 8], 0), Ok((u64::MAX, 8)));
}

#[test]
fn integers_are_read_back_from_their_encoding() {
    for v in [0u64, 1, 0xff, 0x100, 0xdead_beef, 0x1_0000_0000, u64::MAX - 1, u64::MAX] {
        let mut out = vec![0xaa];
        append_u64(&mut out, v);
        append_u32(&mut out, v as u32);
        append_u8(&mut out, v as u8);
        let (read, at) = read_u64(&out, 1).unwrap();
        assert_eq!(read, v);
        let (read, at) = read_u32(&out, at).unwrap();
        assert_eq!(read, v as u32);
        let (read, at) = read_u8(&out, at).unwrap();
        assert_eq!(read, v as u8);
        assert_eq!(expect_end(&out, at), Ok(()));
        assert_eq!(expect_end(&out, at - 1), Err(ReadError::TrailingData));
    }
}

#[test]
fn length_prefix_is_read_in_its_three_forms() {
    assert_eq!(read_length(&[0x00], 0), Ok((0, 1)));
    assert_eq!(read_length(&[0x3f], 0), Ok((0x3f, 1)));
    assert_eq!(read_length(&[0x40, 0x40], 0), Ok((0x40, 2)));
    assert_eq!(read_length(&[0x7f, 0xff], 0), Ok((0x3fff, 2)));
    assert_eq!(read_length(&[0x80, 0x00, 0x40, 0x00], 0), Ok((0x4000, 4)));
    assert_eq!(
        read_length(&[0xbf, 0xff, 0xff, 0xff], 0),
        Ok((0x3fff_ffff, 4))
    );
    assert_eq!(read_length(&[9, 9, 0x41, 0x02], 2), Ok((0x102, 4)));
}

#[test]
fn length_prefix_longer_than_needed_is_refused() {
    assert_eq!(
        read_length(&[0x40, 0x3f], 0),
        Err(ReadError::InvalidVectorLength)
    );
    assert_eq!(
        read_length(&[0x40, 0x00], 0),
        Err(ReadError::InvalidVectorLength)
    );
    assert_eq!(
        read_length(&[0x80, 0x00, 0x3f, 0xff], 0),
        Err(ReadError::InvalidVectorLength)
    );
    assert_eq!(
        read_length(&[0x80, 0x00, 0x00, 0x01], 0),
        Err(ReadError::InvalidVectorLength)
    );
    // A prefix of eight bytes is refused before its bytes are looked for
    assert_eq!(read_length(&[0xc0], 0), Err(ReadError::InvalidVectorLength));
    assert_eq!(
        read_length(&[0xff, 0, 0, 0, 0, 0, 0, 1], 0),
        Err(ReadError::InvalidVectorLength)
    );
    assert_eq!(read_length(&[], 0), Err(ReadError::EndOfStream));
    assert_eq!(read_length(&[0x40], 0), Err(ReadError::EndOfStream));
    assert_eq!(read_length(&[0x80, 1, 2], 0), Err(ReadError::EndOfStream));
    assert_eq!(read_length(&[1, 2], 2), Err(ReadError::EndOfStream));
}

#[test]
fn vector_is_read_back_from_its_encoding() {
    for length in [0usize, 1, 63, 64, 65, 300, 0x3fff, 0x4000, 0x4001, 70_000] {
        let content: Vec<u8> = (0..length).map(|i| (i % 251) as u8).collect();
        let mut bytes = encode_vector(&content).unwrap();
        let encoded_length = bytes.len();
        bytes.extend_from_slice(&[0xaa, 0xbb]);
        let (read, at) = read_vector(&bytes, 0).unwrap();
        assert_eq!(read, content);
        assert_eq!(at, encoded_length);
        // As the codec reads it
        let reference = tls_codec::VLBytes::tls_deserialize(&mut &bytes[..]).unwrap();
        assert_eq!(reference.as_slice(), &read[..]);
        // A vector that is cut short
        assert_eq!(
            read_vector(&bytes[..encoded_length - 1], 0),
            Err(ReadError::EndOfStream)
        );
    }
}

#[test]
fn vectors_are_read_one_after_the_other() {
    let mut bytes = vec![0x77];
    bytes.extend_from_slice(
        &tls_codec::VLBytes::new(b"first".to_vec())
            .tls_serialize_detached()
            .unwrap(),
    );
    bytes.extend_from_slice(
        &tls_codec::VLBytes::new(vec![])
            .tls_serialize_detached()
            .unwrap(),
    );
    bytes.extend_from_slice(
        &tls_codec::VLBytes::new(vec![3; 100])
            .tls_serialize_detached()
            .unwrap(),
    );
    let (first, at) = read_vector(&bytes, 1).unwrap();
    assert_eq!(first, b"first");
    assert_eq!(at, 7);
    let (second, at) = read_vector(&bytes, at).unwrap();
    assert_eq!(second, Vec::<u8>::new());
    assert_eq!(at, 8);
    let (third, at) = read_vector(&bytes, at).unwrap();
    assert_eq!(third, vec![3; 100]);
    assert_eq!(at, bytes.len());
    assert_eq!(expect_end(&bytes, at), Ok(()));
    assert_eq!(read_vector(&bytes, at), Err(ReadError::EndOfStream));
}
