use slean::codec::{Codec, TextCodec};
use slean::error::{IoKind, RemoteError, SleanError};
use slean::protocol::{FrameDescriptor, MSG_TYPE};
use slean::error::SleanResult;
use slean::memo::SleamBuf;
use slean::req::block::{BlockingSleamService, ReplyError};
use slean::service::{IoBuf, OneReplyService, ReplService};

#[test]
fn request_is_framed() {
    let mut client = BlockingSleamService::<TextCodec, String, String>::new();
    client.prepare_send(&"hi".to_string()).unwrap();
    let bytes = client.buffer_mut().read_slice().to_vec();
    let mut expected = FrameDescriptor::build_desc(MSG_TYPE::REQ, 2).to_le_bytes().to_vec();
    expected.extend_from_slice(b"hi");
    assert_eq!(bytes, expected);
}

#[test]
fn replies_and_errors_are_told_apart() {
    let mut client = BlockingSleamService::<TextCodec, String, String>::new();
    client.buffer_mut().reset(0);
    client.buffer_mut().write_bytes(b"pong").unwrap();
    let fd = FrameDescriptor::try_from(FrameDescriptor::build_desc(MSG_TYPE::REPL, 4)).unwrap();
    assert_eq!(client.take_reply(&fd).unwrap(), "pong");

    client.buffer_mut().reset(0);
    let err: RemoteError = (-9, "nope".to_string());
    <TextCodec as Codec<RemoteError>>::write(&err, client.buffer_mut()).unwrap();
    let fd = FrameDescriptor::try_from(FrameDescriptor::build_desc(MSG_TYPE::ERR, 8)).unwrap();
    match client.take_reply(&fd) {
        Err(ReplyError::Remote(e)) => assert_eq!(e, err),
        other => panic!("unexpected {:?}", other),
    }

    let fd = FrameDescriptor::try_from(FrameDescriptor::build_desc(MSG_TYPE::REQ, 0)).unwrap();
    assert!(matches!(client.take_reply(&fd), Err(ReplyError::NotAReply)));
}

#[test]
fn undecodable_reply_is_reported() {
    let mut client = BlockingSleamService::<TextCodec, String, String>::new();
    client.buffer_mut().reset(0);
    client.buffer_mut().write_bytes(&[0xff]).unwrap();
    let fd = FrameDescriptor::try_from(FrameDescriptor::build_desc(MSG_TYPE::REPL, 1)).unwrap();
    assert!(matches!(client.take_reply(&fd), Err(ReplyError::Undecodable(_))));
}

#[test]
fn received_frames_are_read_by_kind() {
    let mut client = BlockingSleamService::<TextCodec, String, String>::new();
    let desc = FrameDescriptor::build_desc(MSG_TYPE::REPL, 5);
    assert_eq!(client.receive_frame(desc, b"hello").unwrap(), "hello");

    let mut body = (-3i32).to_le_bytes().to_vec();
    body.extend_from_slice(b"bad");
    let desc = FrameDescriptor::build_desc(MSG_TYPE::ERR, body.len() as u32);
    match client.receive_frame(desc, &body) {
        Err(ReplyError::Remote(e)) => assert_eq!(e, (-3, "bad".to_string())),
        other => panic!("unexpected {:?}", other),
    }

    let desc = FrameDescriptor::build_desc(MSG_TYPE::ERR, 2);
    assert!(matches!(
        client.receive_frame(desc, b"ab"),
        Err(ReplyError::RemoteUndecodable(_))
    ));

    let desc = FrameDescriptor::build_desc(MSG_TYPE::REQ, 3);
    assert!(matches!(client.receive_frame(desc, b"abc"), Err(ReplyError::NotAReply)));
}

#[test]
fn request_too_large_is_refused() {
    let mut client = BlockingSleamService::<TextCodec, String, String>::new();
    let big = "x".repeat(FrameDescriptor::max_size() as usize + 1);
    match client.prepare_send(&big) {
        Err(SleanError::UnexpectedIoFailure(IoKind::OutOfMemory)) => {}
        other => panic!("unexpected {:?}", other),
    }
    let exact = "y".repeat(FrameDescriptor::max_size() as usize);
    client.prepare_send(&exact).unwrap();
    let bytes = client.buffer_mut().read_slice();
    assert_eq!(bytes.len(), FrameDescriptor::max_size() as usize + 8);
    let desc = u64::from_le_bytes(bytes[0..8].try_into().unwrap());
    assert_eq!(desc, FrameDescriptor::build_desc(MSG_TYPE::REQ, FrameDescriptor::max_size()));
}

fn echo(req: &String) -> SleanResult<String> {
    Ok(req.to_string())
}

fn refuse(_req: &String) -> SleanResult<String> {
    Err(SleanError::DecodingFailed("odd".to_string()))
}

/// Sends `text` from a client to `service` and gives what the client reads back.
fn round_trip<S: ReplService>(service: &S, text: &str) -> Result<String, ReplyError> {
    let mut client = BlockingSleamService::<TextCodec, String, String>::new();
    client.prepare_send(&text.to_string()).unwrap();
    let request = client.buffer_mut().read_slice().to_vec();
    let mut server_buf = SleamBuf::default();
    server_buf.reset(0);
    server_buf.write_bytes(&request[8..]).unwrap();
    service.execute(&mut IoBuf::One(&mut server_buf));
    let reply = server_buf.read_slice().to_vec();
    let desc = u64::from_le_bytes(reply[0..8].try_into().unwrap());
    client.receive_frame(desc, &reply[8..])
}

#[test]
fn echoed_text_is_read_back() {
    let service = OneReplyService::<TextCodec, String, String, _>::new(echo);
    assert_eq!(round_trip(&service, "Hello world").unwrap(), "Hello world");
    assert_eq!(round_trip(&service, "").unwrap(), "");
}

#[test]
fn worker_error_is_read_back_under_code_zero() {
    let service = OneReplyService::<TextCodec, String, String, _>::new(refuse);
    match round_trip(&service, "x") {
        Err(ReplyError::Remote(e)) => assert_eq!(e, (0, "Decoding failed with error odd".to_string())),
        other => panic!("unexpected {:?}", other),
    }
}
