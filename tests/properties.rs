use proxy_buffer::common::{ReplyType, RequestType, VersionType};
use proxy_buffer::stream::{open_after_read, open_after_write, IoOutcome};
use proxy_buffer::{next_token, Buffer};

#[test]
fn appends_and_pushes_concatenate() {
    let mut buf = Buffer::new(0);
    buf.append(&[9, 8]);
    buf.push(7);
    buf.append(&[]);
    buf.append(&[6, 5, 4]);
    buf.push(3);
    assert_eq!(buf.as_slice(), &[9, 8, 7, 6, 5, 4, 3]);
}

#[test]
fn consuming_everything_resets_cursors() {
    let mut buf = Buffer::new(8);
    buf.append(&[1, 2, 3, 4, 5]);
    buf.consume(2);
    assert_eq!(buf.prependable_bytes(), 2);
    buf.consume(3);
    assert_eq!(buf.readable_bytes(), 0);
    assert_eq!(buf.prependable_bytes(), 0);
    assert_eq!(buf.writeable_bytes(), 8);
}

#[test]
fn consume_zero_keeps_content() {
    let mut buf = Buffer::new(4);
    buf.append(&[1, 2]);
    buf.consume(0);
    assert_eq!(buf.as_slice(), &[1, 2]);
    assert_eq!(buf.prependable_bytes(), 0);
}

#[test]
fn signed_round_trips() {
    let mut buf = Buffer::new(2);
    buf.append_i8(-5);
    buf.append_i16(-1234);
    buf.append_i32(-19088744);
    assert_eq!(buf.readable_bytes(), 7);
    assert_eq!(buf.read_i8(true), Some(-5));
    assert_eq!(buf.read_i16(true), Some(-1234));
    assert_eq!(buf.read_i32(true), Some(-19088744));
    assert_eq!(buf.readable_bytes(), 0);
}

#[test]
fn signed_encodings_are_twos_complement() {
    let mut buf = Buffer::new(0);
    buf.append_i8(-1);
    buf.append_i16(-2);
    buf.append_i32(-3);
    assert_eq!(buf.as_slice(), &[0xff, 0xff, 0xfe, 0xff, 0xff, 0xff, 0xfd]);
}

#[test]
fn u64_encoding_is_big_endian() {
    let mut buf = Buffer::new(0);
    buf.append_u64(0x0102030405060708);
    assert_eq!(buf.as_slice(), &[1, 2, 3, 4, 5, 6, 7, 8]);
    assert_eq!(buf.read_u64(true), Some(0x0102030405060708));
}

#[test]
fn unsigned_round_trips_net_zero() {
    let mut buf = Buffer::new(3);
    buf.append(&[0xaa]);
    let before = buf.readable_bytes();
    buf.append_u32(0xdeadbeef);
    buf.consume(1);
    assert_eq!(buf.read_u32(true), Some(0xdeadbeef));
    assert_eq!(buf.readable_bytes(), before - 1);
}

#[test]
fn peek_changes_nothing() {
    let mut buf = Buffer::new(4);
    buf.append(&[0x12, 0x34, 0x56]);
    assert_eq!(buf.read_u16(false), Some(0x1234));
    assert_eq!(buf.read_u32(false), None);
    assert_eq!(buf.read_u32(true), None);
    assert_eq!(buf.readable_bytes(), 3);
    assert_eq!(buf.prependable_bytes(), 0);
    assert_eq!(buf.as_slice(), &[0x12, 0x34, 0x56]);
}

#[test]
fn reads_on_short_input_give_none() {
    let mut buf = Buffer::new(4);
    assert_eq!(buf.read_u8(true), None);
    assert_eq!(buf.read_i8(false), None);
    buf.push(1);
    assert_eq!(buf.read_u16(true), None);
    assert_eq!(buf.read_i16(true), None);
    assert_eq!(buf.read_i32(true), None);
    assert_eq!(buf.read_u64(true), None);
    assert_eq!(buf.read_u8(true), Some(1));
}

#[test]
fn retrieve_on_empty_is_empty() {
    let mut buf = Buffer::new(0);
    assert!(buf.retrieve_tovec(0).is_empty());
    assert!(buf.retrieve_tovec(usize::MAX).is_empty());
}

#[test]
fn retrieve_part_advances_read_cursor() {
    let mut buf = Buffer::new(6);
    buf.append(&[1, 2, 3, 4, 5]);
    assert_eq!(buf.retrieve_tovec(2), vec![1, 2]);
    assert_eq!(buf.prependable_bytes(), 2);
    assert_eq!(buf.as_slice(), &[3, 4, 5]);
    assert_eq!(buf.retrieve_tovec(3), vec![3, 4, 5]);
    assert_eq!(buf.prependable_bytes(), 0);
}

#[test]
fn get_slice_clamps_without_consuming() {
    let mut buf = Buffer::new(2);
    buf.append(&[5, 6, 7]);
    assert_eq!(buf.get_slice(usize::MAX), &[5, 6, 7]);
    assert_eq!(buf.get_slice(1), &[5]);
    assert_eq!(buf.readable_bytes(), 3);
}

#[test]
fn fitting_append_keeps_capacity() {
    let mut buf = Buffer::new(6);
    buf.append(&[1, 2, 3, 4]);
    buf.consume(3);
    // writable 2 + prependable 3 covers 5 bytes: the content slides.
    buf.append(&[5, 6, 7, 8, 9]);
    assert_eq!(buf.prependable_bytes(), 0);
    assert_eq!(buf.readable_bytes() + buf.writeable_bytes(), 6);
    assert_eq!(buf.as_slice(), &[4, 5, 6, 7, 8, 9]);
}

#[test]
fn append_within_writable_keeps_cursors() {
    let mut buf = Buffer::new(6);
    buf.append(&[1, 2, 3]);
    buf.consume(1);
    buf.append(&[4, 5]);
    assert_eq!(buf.prependable_bytes(), 1);
    assert_eq!(buf.writeable_bytes(), 1);
    assert_eq!(buf.as_slice(), &[2, 3, 4, 5]);
}

#[test]
fn oversized_append_grows_exactly() {
    let mut buf = Buffer::new(4);
    buf.append(&[1, 2, 3]);
    buf.consume(1);
    // writable 1 + prependable 1 cannot hold 4 bytes: the store grows to 3 + 4.
    buf.append(&[4, 5, 6, 7]);
    assert_eq!(buf.prependable_bytes(), 1);
    assert_eq!(buf.writeable_bytes(), 0);
    assert_eq!(buf.prependable_bytes() + buf.readable_bytes() + buf.writeable_bytes(), 7);
    assert_eq!(buf.as_slice(), &[2, 3, 4, 5, 6, 7]);
}

#[test]
fn zero_capacity_push_grows() {
    let mut buf = Buffer::new(0);
    assert_eq!(buf.writeable_bytes(), 0);
    buf.push(42);
    assert_eq!(buf.as_slice(), &[42]);
    assert_eq!(buf.writeable_bytes(), 0);
}

#[test]
fn request_type_from_byte() {
    assert_eq!(RequestType::from(1u8), RequestType::Connect);
    assert_eq!(RequestType::from(2u8), RequestType::Bind);
    assert_eq!(RequestType::from(0u8), RequestType::Unknown);
    assert_eq!(RequestType::from(255u8), RequestType::Unknown);
    assert_eq!(RequestType::Bind.code(), 2);
}

#[test]
fn wire_codes() {
    assert_eq!(VersionType::Socks4.code(), 4);
    assert_eq!(VersionType::Socks5.code(), 5);
    assert_eq!(VersionType::SocksReply.code(), 0);
    assert_eq!(ReplyType::Granted.code(), 90);
    assert_eq!(ReplyType::Rejected.code(), 91);
    assert_eq!(ReplyType::NoIndented.code(), 92);
    assert_eq!(ReplyType::InvalidUser.code(), 93);
}

#[test]
fn tokens_count_up() {
    let mut last: usize = 0;
    assert_eq!(next_token(&mut last), 1);
    assert_eq!(next_token(&mut last), 2);
    assert_eq!(last, 2);
}

#[test]
fn read_outcomes() {
    assert!(open_after_read(IoOutcome::Transferred(3)));
    assert!(!open_after_read(IoOutcome::Transferred(0)));
    assert!(open_after_read(IoOutcome::WouldBlock));
    assert!(!open_after_read(IoOutcome::Interrupted));
    assert!(!open_after_read(IoOutcome::Failed));
}

#[test]
fn write_outcomes() {
    assert!(open_after_write(IoOutcome::Transferred(0)));
    assert!(open_after_write(IoOutcome::WouldBlock));
    assert!(open_after_write(IoOutcome::Interrupted));
    assert!(!open_after_write(IoOutcome::Failed));
}
