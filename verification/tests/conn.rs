use slean::codec::TextCodec;
use slean::conn::{Connection, ReadProgress};
use slean::error::{IoKind, SleanResult};
use slean::memo::{CopyStep, IoEvent, SleamBuf};
use slean::protocol::{FrameDescriptor, MSG_TYPE};
use slean::repl::{AfterServe, ConnAction, ConnEvent, ReplServer};
use slean::service::OneReplyService;

fn echo(req: &String) -> SleanResult<String> {
    Ok(req.to_string())
}

fn header(kind: MSG_TYPE, len: u32) -> [u8; 8] {
    FrameDescriptor::build_desc(kind, len).to_le_bytes()
}

fn frame(kind: MSG_TYPE, body: &[u8]) -> Vec<u8> {
    let mut v = header(kind, body.len() as u32).to_vec();
    v.extend_from_slice(body);
    v
}

#[test]
fn whole_request_is_answered_and_sent() {
    let service = OneReplyService::<TextCodec, String, String, _>::new(echo);
    let mut conn = Connection::new(&service);
    let mut rw = SleamBuf::default();
    assert!(!conn.is_read_pending());
    assert!(!conn.is_write_pending());
    assert_eq!(conn.on_header(&header(MSG_TYPE::REQ, 5)), Ok(5));
    assert!(conn.is_read_pending());
    assert_eq!(conn.after_body_read(5, b"hello", &mut rw), ReadProgress::Continue);
    assert_eq!(rw.read_slice().to_vec(), frame(MSG_TYPE::REPL, b"hello"));
    assert!(conn.after_send(&mut rw));
    assert!(!rw.is_empty());
    assert!(conn.is_write_pending());
    assert_eq!(conn.pending_bytes().unwrap().to_vec(), frame(MSG_TYPE::REPL, b"hello"));
    let start = conn.pending_bytes().unwrap().len();
    assert_eq!(conn.on_write_step(start, None), CopyStep::Continue);
    assert_eq!(conn.on_write_step(start, Some(IoEvent::Transferred(4))), CopyStep::Continue);
    assert_eq!(conn.on_write_step(start, Some(IoEvent::WouldBlock)), CopyStep::Done(4));
    assert!(conn.is_write_pending());
    assert_eq!(conn.on_write_step(start, Some(IoEvent::Transferred(9))), CopyStep::Done(13));
    assert!(!conn.is_write_pending());
    assert!(conn.pending_bytes().is_none());
}

#[test]
fn nothing_left_to_send_leaves_no_buffer() {
    let service = OneReplyService::<TextCodec, String, String, _>::new(echo);
    let mut conn = Connection::new(&service);
    let mut rw = SleamBuf::default();
    rw.clear();
    assert!(!conn.after_send(&mut rw));
    assert!(!conn.is_write_pending());
    assert_eq!(conn.on_write_step(0, None), CopyStep::Done(0));
}

#[test]
fn request_in_two_parts_is_answered_once_complete() {
    let service = OneReplyService::<TextCodec, String, String, _>::new(echo);
    let mut conn = Connection::new(&service);
    let mut rw = SleamBuf::default();
    let body = vec![b'q'; 10_000];
    assert_eq!(conn.on_header(&header(MSG_TYPE::REQ, 10_000)), Ok(10_000));
    assert_eq!(conn.after_body_read(10_000, &body[..4_000], &mut rw), ReadProgress::Return(4_000));
    assert!(!rw.is_empty());
    assert!(conn.is_read_pending());
    assert_eq!(conn.pending_read(), 6_000);
    assert_eq!(conn.pending_write_available(), Some(6_000));
    assert_eq!(conn.after_pending_read(&body[4_000..7_000], &mut rw), ReadProgress::Return(3_000));
    assert_eq!(conn.pending_read(), 3_000);
    assert_eq!(conn.after_pending_read(&body[7_000..], &mut rw), ReadProgress::Continue);
    assert!(!conn.is_read_pending());
    assert!(!conn.is_write_pending());
    assert_eq!(rw.read_slice().to_vec(), frame(MSG_TYPE::REPL, &body));
}

#[test]
fn only_valid_request_headers_are_taken() {
    let service = OneReplyService::<TextCodec, String, String, _>::new(echo);
    let mut conn = Connection::new(&service);
    assert_eq!(conn.on_header(&header(MSG_TYPE::REPL, 3)), Err(IoKind::InvalidData));
    assert_eq!(conn.pending_read(), 0);
    let bad = ((1u64 << 60) | (1 << 22) | 3).to_le_bytes();
    assert_eq!(conn.on_header(&bad), Err(IoKind::InvalidData));
    assert_eq!(conn.on_header(&header(MSG_TYPE::REQ, 0)), Ok(0));
}

#[test]
fn events_decide_the_server_actions() {
    let none = ConnEvent { is_error: false, is_read_closed: false, is_write_closed: false, is_writable: false, is_readable: false };
    assert_eq!(ReplServer::<OneReplyService<TextCodec, String, String, fn(&String) -> SleanResult<String>>>::on_conn_event(
        ConnEvent { is_error: true, ..none }, false), ConnAction::Close);
    assert_eq!(ReplServer::<OneReplyService<TextCodec, String, String, fn(&String) -> SleanResult<String>>>::on_conn_event(
        ConnEvent { is_read_closed: true, is_readable: true, ..none }, false), ConnAction::Close);
    assert_eq!(ReplServer::<OneReplyService<TextCodec, String, String, fn(&String) -> SleanResult<String>>>::on_conn_event(
        ConnEvent { is_writable: true, is_readable: true, ..none }, true), ConnAction::Serve { write: true, read: false });
    assert_eq!(ReplServer::<OneReplyService<TextCodec, String, String, fn(&String) -> SleanResult<String>>>::on_conn_event(
        ConnEvent { is_readable: true, ..none }, false), ConnAction::Serve { write: false, read: true });
}

#[test]
fn server_starts_with_an_empty_reserved_buffer() {
    let service = OneReplyService::<TextCodec, String, String, _>::new(echo);
    let mut server = ReplServer::new(service);
    let (_service, buf) = server.parts();
    assert!(!buf.is_empty());
    assert_eq!(buf.write_available(), slean::protocol::MAX_MSG_SIZE_BYTES as usize);
}

#[test]
fn failed_serving_removes_the_connection() {
    type Server = ReplServer<OneReplyService<TextCodec, String, String, fn(&String) -> SleanResult<String>>>;
    assert_eq!(Server::after_serve(true, true), AfterServe::Remove);
    assert_eq!(Server::after_serve(false, true), AfterServe::Watch { writable: true });
    assert_eq!(Server::after_serve(false, false), AfterServe::Watch { writable: false });
}
