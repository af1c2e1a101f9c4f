use slean::error::IoKind;
use slean::memo::{CopyStep, IoEvent, SleamBuf, STACK_BUF_SIZE};
use slean::protocol::{FrameDescriptor, MAX_MSG_SIZE_BYTES, MSG_TYPE};

fn pending(buf: &SleamBuf) -> Vec<u8> {
    buf.read_slice().to_vec()
}

#[test]
fn small_buffers_get_the_stack_size() {
    let b = SleamBuf::allocate(10);
    assert_eq!(b.write_available(), STACK_BUF_SIZE as usize);
    assert_eq!(b.len(), 0);
    assert!(!b.is_empty());
    let b = SleamBuf::allocate(10_000);
    assert_eq!(b.write_available(), 10_000);
    let b = SleamBuf::alloc_and_reserve(100, 8);
    assert_eq!(b.write_available(), STACK_BUF_SIZE as usize - 8);
    assert_eq!(SleamBuf::storage_for(9000), 9000);
    assert_eq!(SleamBuf::storage_for(1), 8192);
}

#[test]
fn default_buffer_holds_one_largest_frame() {
    let b = SleamBuf::default();
    assert_eq!(b.len(), 0);
    assert_eq!(b.write_available(), MAX_MSG_SIZE_BYTES as usize);
}

#[test]
fn written_bytes_are_read_back_in_order() {
    let mut b = SleamBuf::allocate(16);
    assert_eq!(b.write_bytes(b"abc"), Ok(3));
    assert_eq!(b.write_bytes(b"de"), Ok(2));
    assert_eq!(pending(&b), b"abcde".to_vec());
    let mut out = [0u8; 4];
    assert_eq!(b.read_bytes(&mut out), 4);
    assert_eq!(&out, b"abcd");
    let mut out = [9u8; 3];
    assert_eq!(b.read_bytes(&mut out), 1);
    assert_eq!(out, [b'e', 9, 9]);
    assert!(!b.is_empty());
}

#[test]
fn write_without_room_fails_and_changes_nothing() {
    let mut b = SleamBuf::allocate(1);
    let big = vec![7u8; STACK_BUF_SIZE as usize + 1];
    assert_eq!(b.write_bytes(&big), Err(IoKind::OutOfMemory));
    assert_eq!(b.len(), 0);
    assert_eq!(b.write_available(), STACK_BUF_SIZE as usize);
}

#[test]
fn skip_stops_at_the_written_bytes() {
    let mut b = SleamBuf::allocate(8);
    b.write_bytes(b"hello").unwrap();
    b.skip(2);
    assert_eq!(pending(&b), b"llo".to_vec());
    b.skip(10);
    assert!(!b.is_empty());
}

#[test]
fn advance_reset_and_clear_move_the_cursors() {
    let mut b = SleamBuf::allocate(8);
    b.advance(3);
    assert_eq!(pending(&b), vec![0, 0, 0]);
    b.reset(8);
    assert!(!b.is_empty());
    assert_eq!(b.write_available(), STACK_BUF_SIZE as usize - 8);
    b.clear();
    assert_eq!(b.write_available(), STACK_BUF_SIZE as usize);
}

#[test]
fn commit_puts_the_descriptor_before_the_body() {
    let mut b = SleamBuf::alloc_and_reserve(64, 8);
    b.write_bytes(b"hi").unwrap();
    b.commit(MSG_TYPE::REPL);
    let desc = FrameDescriptor::build_desc(MSG_TYPE::REPL, 2);
    let mut expected = desc.to_le_bytes().to_vec();
    expected.extend_from_slice(b"hi");
    assert_eq!(pending(&b), expected);
    let fd = FrameDescriptor::try_from(u64::from_le_bytes(expected[..8].try_into().unwrap())).unwrap();
    assert!(fd.is_repl());
    assert_eq!(fd.len(), 2);
}

#[test]
fn copy_from_buf_moves_bytes() {
    let mut src = SleamBuf::allocate(8);
    src.write_bytes(b"xyz").unwrap();
    let mut dst = SleamBuf::allocate(8);
    assert_eq!(dst.copy_from_buf(&mut src, 2), 2);
    assert_eq!(pending(&dst), b"xy".to_vec());
    assert_eq!(pending(&src), b"z".to_vec());
}

#[test]
fn copy_to_steps_follow_the_writer() {
    let mut b = SleamBuf::allocate(8);
    b.write_bytes(b"abcdef").unwrap();
    let start = b.len();
    assert_eq!(b.copy_to_step(start, None), CopyStep::Continue);
    assert_eq!(b.copy_to_step(start, Some(IoEvent::Transferred(2))), CopyStep::Continue);
    assert_eq!(b.copy_to_step(start, Some(IoEvent::Interrupted)), CopyStep::Continue);
    assert_eq!(b.copy_to_step(start, Some(IoEvent::WouldBlock)), CopyStep::Done(2));
    assert_eq!(b.copy_to_step(start, Some(IoEvent::Failed)), CopyStep::Fail);
    assert_eq!(b.copy_to_step(start, Some(IoEvent::Transferred(4))), CopyStep::Done(6));
    assert!(!b.is_empty());
    let mut e = SleamBuf::allocate(8);
    assert_eq!(e.copy_to_step(0, None), CopyStep::Done(0));
}

#[test]
fn copy_from_steps_follow_the_reader() {
    let mut b = SleamBuf::allocate(8);
    let (left, step) = b.copy_from_step(5, 5, None, &[]);
    assert_eq!((left, step), (5, CopyStep::Continue));
    let (left, step) = b.copy_from_step(5, left, Some(IoEvent::Transferred(2)), b"ab");
    assert_eq!((left, step), (3, CopyStep::Continue));
    let (left, step) = b.copy_from_step(5, left, Some(IoEvent::WouldBlock), &[]);
    assert_eq!((left, step), (3, CopyStep::Done(2)));
    let (left, step) = b.copy_from_step(5, left, Some(IoEvent::Transferred(3)), b"cde");
    assert_eq!((left, step), (0, CopyStep::Done(5)));
    assert_eq!(pending(&b), b"abcde".to_vec());
    let (_, step) = b.copy_from_step(5, 0, None, &[]);
    assert_eq!(step, CopyStep::Done(5));
    let (_, step) = b.copy_from_step(5, 2, Some(IoEvent::Failed), &[]);
    assert_eq!(step, CopyStep::Fail);
}

#[test]
fn is_empty_tells_of_unread_bytes() {
    let mut b = SleamBuf::allocate(8);
    assert!(!b.is_empty());
    b.write_bytes(b"a").unwrap();
    assert!(b.is_empty());
    b.skip(1);
    assert!(!b.is_empty());
}

#[test]
fn filled_room_counts_once_advanced() {
    let mut b = SleamBuf::allocate(8);
    b.write_bytes(b"ab").unwrap();
    let room = b.write_available();
    b.fill_room(b"cde");
    assert_eq!(b.read_slice(), b"ab");
    assert_eq!(b.write_available(), room);
    b.advance(3);
    assert_eq!(b.read_slice(), b"abcde");
    assert_eq!(b.write_available(), room - 3);
    b.skip(4);
    assert_eq!(b.write_available(), room - 3);
}
