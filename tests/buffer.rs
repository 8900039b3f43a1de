use proxy_buffer::Buffer;

#[test]
fn buffer_basic() {
    let mut buf = Buffer::new(10);
    buf.push(1);
    buf.push(2);
    buf.push(3);
    assert_eq!(buf.as_slice(), &[1, 2, 3]);
}

#[test]
fn buffer_make_space() {
    let mut buf = Buffer::new(1);
    buf.push(1);
    assert_eq!(buf.writeable_bytes(), 0);
    assert_eq!(buf.readable_bytes(), 1);
    buf.append(&[2, 3, 4, 5, 6]);
    assert_eq!(buf.readable_bytes(), 6);
    assert_eq!(buf.as_slice(), &[1, 2, 3, 4, 5, 6]);
}

#[test]
fn buffer_consume() {
    let mut buf = Buffer::new(1);
    buf.append(&[2, 3, 4, 5, 6]);
    buf.consume(1);
    assert_eq!(buf.readable_bytes(), 4);
    assert_eq!(buf.as_slice(), &[3, 4, 5, 6]);
    buf.consume_all();
    assert_eq!(buf.readable_bytes(), 0);
    assert_eq!(buf.as_slice(), &[]);
}

#[test]
fn buffer_move_space() {
    let mut buf = Buffer::new(10);
    buf.append(&[1, 2, 3, 4, 5, 6, 7]);
    buf.consume(2);
    buf.append(&[8, 9, 10, 11]);
    assert_eq!(buf.readable_bytes(), 9);
    assert_eq!(buf.writeable_bytes(), 1);
    assert_eq!(buf.prependable_bytes(), 0);
    assert_eq!(buf.as_slice(), &[3, 4, 5, 6, 7, 8, 9, 10, 11]);
}

#[test]
fn buffer_append_int_size_test() {
    let mut buf = Buffer::new(10);
    buf.append_u8(0x12u8);
    buf.append_u16(0x3456u16);
    buf.append_u32(0x78123456u32);
    assert_eq!(buf.as_slice(), &[0x12, 0x34, 0x56, 0x78, 0x12, 0x34, 0x56]);
}

// Floats travel as their bit patterns through the integer codecs.
#[test]
fn buffer_append_float_size_test() {
    let mut buf = Buffer::new(10);
    let val = 1.24f32;
    buf.append_u32(val.to_bits());
    assert_eq!(buf.as_slice(), &val.to_be_bytes());
    buf.consume_all();

    let val = 1.244f64;
    buf.append_u64(val.to_bits());
    assert_eq!(buf.as_slice(), &val.to_be_bytes());
}

#[test]
fn buffer_read_size_test() {
    let mut buf = Buffer::new(10);
    buf.append_u8(0x12u8);
    buf.append_u16(0x3456u16);
    buf.append_u32(0x78123456u32);
    buf.append_u32(1.24f32.to_bits());
    buf.append_u64(1.223f64.to_bits());

    assert_eq!(buf.read_u8(false).unwrap(), 0x12u8);
    assert_eq!(buf.readable_bytes(), 19);

    assert_eq!(buf.read_u8(true).unwrap(), 0x12u8);
    assert_eq!(buf.read_u16(true).unwrap(), 0x3456u16);
    assert_eq!(buf.read_u32(true).unwrap(), 0x78123456u32);
    assert_eq!(f32::from_bits(buf.read_u32(true).unwrap()), 1.24f32);
    assert_eq!(f64::from_bits(buf.read_u64(true).unwrap()), 1.223f64);
}

#[test]
fn buffer_retrieve_test() {
    let mut buf = Buffer::new(10);
    assert_eq!(buf.retrieve_tovec(10), Vec::<u8>::new());
    assert_eq!(buf.retrieve_tovec(0), Vec::<u8>::new());

    buf.append(&[1, 2, 3, 4]);
    assert_eq!(buf.retrieve_tovec(20), vec![1, 2, 3, 4]);
    assert_eq!(buf.readable_bytes(), 0);
}

#[test]
fn buffer_get_slice_test() {
    let mut buf = Buffer::new(10);
    buf.append(&[1, 2, 3, 4]);
    assert_eq!(buf.get_slice(0), &[]);
    assert_eq!(buf.get_slice(2), &[1, 2]);
    assert_eq!(buf.get_slice(10), &[1, 2, 3, 4]);
}
