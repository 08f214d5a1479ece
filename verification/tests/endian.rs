use akari::endian::{push_u32_le, read_u32_le};

#[test]
fn word_is_pushed_least_significant_byte_first() {
    let mut buf = vec![7u8];
    push_u32_le(&mut buf, 0x1234_5678);
    assert_eq!(buf, vec![7u8, 0x78, 0x56, 0x34, 0x12]);
    push_u32_le(&mut buf, 0);
    push_u32_le(&mut buf, u32::MAX);
    assert_eq!(
        buf,
        vec![7u8, 0x78, 0x56, 0x34, 0x12, 0, 0, 0, 0, 255, 255, 255, 255]
    );
}

#[test]
fn push_agrees_with_std() {
    for v in [0u32, 1, 255, 256, 65_535, 65_536, 16_777_215, 16_777_216, 0xdead_beef, u32::MAX] {
        let mut buf = Vec::new();
        push_u32_le(&mut buf, v);
        assert_eq!(buf, v.to_le_bytes().to_vec());
    }
}

#[test]
fn word_is_read_from_the_given_index() {
    let bytes = [9u8, 0x78, 0x56, 0x34, 0x12, 0xff];
    assert_eq!(read_u32_le(&bytes, 1), 0x1234_5678);
    assert_eq!(read_u32_le(&bytes, 0), 0x3456_7809);
    assert_eq!(read_u32_le(&bytes, 2), 0xff12_3456);
    assert_eq!(read_u32_le(&[255, 255, 255, 255], 0), u32::MAX);
}

#[test]
fn read_undoes_push() {
    for v in [0u32, 1, 0x3f80_0000, 0x8000_0000, 0x0102_0304, u32::MAX] {
        let mut buf = vec![0u8, 0, 0];
        push_u32_le(&mut buf, v);
        assert_eq!(read_u32_le(&buf, 3), v);
    }
}
