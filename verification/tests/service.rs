use slean::codec::{Codec, TextCodec};
use slean::error::{RemoteError, SleanError, SleanResult};
use slean::memo::SleamBuf;
use slean::protocol::{FrameDescriptor, MSG_TYPE};
use slean::service::{IoBuf, OneReplyService, ReplService};

fn echo(req: &String) -> SleanResult<String> {
    Ok(req.to_string())
}

fn refuse(_req: &String) -> SleanResult<String> {
    Err(SleanError::AppError { code: -3, msg: "no".to_string() })
}

fn frame_of(buf: &SleamBuf) -> (FrameDescriptor, Vec<u8>) {
    let bytes = buf.read_slice().to_vec();
    let desc = u64::from_le_bytes(bytes[..8].try_into().unwrap());
    let fd = FrameDescriptor::try_from(desc).unwrap();
    assert_eq!(fd.len() as usize, bytes.len() - 8);
    (fd, bytes[8..].to_vec())
}

fn body_as_error(body: Vec<u8>) -> RemoteError {
    let mut b = SleamBuf::allocate(body.len() as u32);
    b.write_bytes(&body).unwrap();
    <TextCodec as Codec<RemoteError>>::read(&mut b).unwrap()
}

#[test]
fn echo_in_one_buffer() {
    let service = OneReplyService::<TextCodec, String, String, _>::new(echo);
    let mut buf = SleamBuf::default();
    buf.write_bytes(b"hello").unwrap();
    service.execute(&mut IoBuf::One(&mut buf));
    let (fd, body) = frame_of(&buf);
    assert!(fd.is_repl());
    assert_eq!(body, b"hello".to_vec());
}

#[test]
fn echo_in_split_buffers() {
    let service = OneReplyService::<TextCodec, String, String, _>::new(echo);
    let mut req = SleamBuf::allocate(16);
    req.write_bytes(b"ping").unwrap();
    let mut out = SleamBuf::default();
    service.execute(&mut IoBuf::Splited(&mut req, &mut out));
    let (fd, body) = frame_of(&out);
    assert!(fd.is_repl());
    assert_eq!(body, b"ping".to_vec());
    assert!(!req.is_empty());
}

#[test]
fn worker_error_becomes_an_error_frame_under_code_zero() {
    let service = OneReplyService::<TextCodec, String, String, _>::new(refuse);
    let mut buf = SleamBuf::default();
    buf.write_bytes(b"x").unwrap();
    service.execute(&mut IoBuf::One(&mut buf));
    let (fd, body) = frame_of(&buf);
    assert!(fd.is_err());
    assert_eq!(body_as_error(body), (0, "Application Error: -3: no".to_string()));
}

#[test]
fn undecodable_request_becomes_an_error_frame() {
    let service = OneReplyService::<TextCodec, String, String, _>::new(echo);
    let mut buf = SleamBuf::default();
    buf.write_bytes(&[0xff]).unwrap();
    service.execute(&mut IoBuf::One(&mut buf));
    let (fd, body) = frame_of(&buf);
    assert!(fd.is_err());
    assert_eq!(body_as_error(body), (1, std::io::ErrorKind::InvalidData.to_string()));
}

#[test]
fn reply_frames_an_outcome() {
    let mut buf = SleamBuf::default();
    let kind = OneReplyService::<TextCodec, String, String, fn(&String) -> SleanResult<String>>::reply(
        Ok("r".to_string()),
        &mut buf,
    );
    assert_eq!(kind, MSG_TYPE::REPL);
    let (fd, body) = frame_of(&buf);
    assert!(fd.is_repl());
    assert_eq!(body, b"r".to_vec());
    let kind = OneReplyService::<TextCodec, String, String, fn(&String) -> SleanResult<String>>::reply(
        Err(SleanError::DecodingFailed("d".to_string())),
        &mut buf,
    );
    assert_eq!(kind, MSG_TYPE::ERR);
    let (fd, body) = frame_of(&buf);
    assert!(fd.is_err());
    assert_eq!(body_as_error(body), (0, "Decoding failed with error d".to_string()));
}

#[test]
fn reply_that_does_not_fit_becomes_an_encoding_error() {
    let mut buf = SleamBuf::allocate(10);
    let big = "z".repeat(9000);
    let kind = OneReplyService::<TextCodec, String, String, fn(&String) -> SleanResult<String>>::reply(
        Ok(big),
        &mut buf,
    );
    assert_eq!(kind, MSG_TYPE::ERR);
    let (fd, body) = frame_of(&buf);
    assert!(fd.is_err());
    assert_eq!(body_as_error(body), (1, std::io::ErrorKind::OutOfMemory.to_string()));
}

#[test]
fn msgpack_echo_replies_with_the_encoded_text() {
    let service = OneReplyService::<slean::codec::MsgPackCodec, String, String, _>::new(echo);
    let mut buf = SleamBuf::default();
    buf.write_bytes(&[0xa2, b'h', b'i']).unwrap();
    service.execute(&mut IoBuf::One(&mut buf));
    let (fd, body) = frame_of(&buf);
    assert!(fd.is_repl());
    assert_eq!(body, vec![0xa2, b'h', b'i']);
}

#[test]
fn crafted_bincode_request_is_answered_with_an_error_frame() {
    let service = OneReplyService::<slean::codec::BincodeCodec, String, String, _>::new(echo);
    let mut buf = SleamBuf::default();
    buf.write_bytes(&[0xff; 8]).unwrap();
    service.execute(&mut IoBuf::One(&mut buf));
    let (fd, _) = frame_of(&buf);
    assert!(fd.is_err());
}
