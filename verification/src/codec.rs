use vstd::prelude::*;
use vstd::bytes::{spec_u32_from_le_bytes, spec_u32_to_le_bytes};
use vstd::utf8::{decode_utf8, encode_utf8, valid_utf8};

use bincode::Options;
use byteorder::{ByteOrder, LittleEndian};
use serde::de::DeserializeOwned;
use serde::Serialize;

use crate::error::{describe_io_kind, io_kind_description, remote_convertible, IoKind, RemoteError, SleanError, SleanResult};
use crate::memo::{BufView, SleamBuf};

verus! {

/// Reads values of type `T` from the pending bytes of a buffer and writes
/// them after its written bytes.
pub trait Codec<T> {
    /// Whether `read_outcome`, `read_len`, `encoding` and `is_write_failure`
    /// describe what the codec does.
    spec fn exact() -> bool;

    /// Reading a value from the pending bytes `bytes` may give `r`.
    spec fn read_outcome(bytes: Seq<u8>, r: SleanResult<T>) -> bool;

    /// How many of the pending bytes `bytes` reading consumes.
    spec fn read_len(bytes: Seq<u8>) -> nat;

    /// The bytes that writing `v` appends.
    spec fn encoding(v: T) -> Seq<u8>;

    /// `e` is the error of a write that does not fit.
    spec fn is_write_failure(e: SleanError) -> bool;

    /// Decodes a value from the front of the pending bytes, consuming what it
    /// reads.
    fn read(reader: &mut SleamBuf) -> (r: SleanResult<T>)
        ensures
            final(reader)@.data == old(reader)@.data,
            final(reader)@.write_pos == old(reader)@.write_pos,
            old(reader)@.read_pos <= final(reader)@.read_pos,
            r matches Err(e) ==> remote_convertible(e),
            Self::exact() ==> Self::read_outcome(old(reader)@.content(), r),
            Self::exact() ==> final(reader)@.read_pos == old(reader)@.read_pos + Self::read_len(
                old(reader)@.content(),
            ),
    ;

    /// Encodes `data` after the written bytes; an exact codec writes its
    /// encoding when there is room for it, and fails otherwise.
    fn write(data: &T, writer: &mut SleamBuf) -> (r: SleanResult<()>)
        ensures
            final(writer)@.read_pos == old(writer)@.read_pos,
            final(writer)@.data.len() == old(writer)@.data.len(),
            old(writer)@.write_pos <= final(writer)@.write_pos,
            final(writer)@.content().take(old(writer)@.len() as int) == old(writer)@.content(),
            r matches Err(e) ==> remote_convertible(e),
            Self::exact() ==> (r is Ok <==> Self::encoding(*data).len() <= old(writer)@.available()),
            Self::exact() && r is Ok ==> final(writer)@.content() == old(writer)@.content()
                + Self::encoding(*data),
            Self::exact() && r is Err ==> Self::is_write_failure(r->Err_0),
    ;
}

/// Text as raw UTF-8 bytes; an error as its code in four little-endian bytes
/// followed by its message as UTF-8.
pub struct TextCodec {}

/// Values in MessagePack.
pub struct MsgPackCodec {}

/// Values in bincode's default format.
pub struct BincodeCodec {}

/// The text that a buffer's pending bytes decode to: they must be UTF-8.
pub open spec fn decode_text(bytes: Seq<u8>) -> SleanResult<Seq<char>> {
    if valid_utf8(bytes) {
        Ok(decode_utf8(bytes))
    } else {
        Err(SleanError::UnexpectedIoFailure(IoKind::InvalidData))
    }
}

/// The code and message that a buffer's pending bytes decode to: four
/// little-endian bytes of code, then a UTF-8 message.
pub open spec fn decode_remote_error(bytes: Seq<u8>) -> SleanResult<(i32, Seq<char>)> {
    if bytes.len() < 4 {
        Err(SleanError::UnexpectedIoFailure(IoKind::UnexpectedEof))
    } else if valid_utf8(bytes.skip(4)) {
        Ok((spec_u32_from_le_bytes(bytes.take(4)) as i32, decode_utf8(bytes.skip(4))))
    } else {
        Err(SleanError::UnexpectedIoFailure(IoKind::InvalidData))
    }
}

/// `r` is what reading text from the pending bytes `bytes` gives.
pub open spec fn text_read_outcome(r: SleanResult<String>, bytes: Seq<u8>) -> bool {
    match decode_text(bytes) {
        Ok(text) => r is Ok && r->Ok_0@ == text,
        Err(e) => r is Err && r->Err_0 == e,
    }
}

/// `r` is what reading an error from the pending bytes `bytes` gives.
pub open spec fn remote_error_read_outcome(r: SleanResult<RemoteError>, bytes: Seq<u8>) -> bool {
    match decode_remote_error(bytes) {
        Ok((code, msg)) => r is Ok && r->Ok_0.0 == code && r->Ok_0.1@ == msg,
        Err(e) => r is Err && r->Err_0 == e,
    }
}

/// The bytes of an error: four little-endian bytes of code, then the UTF-8
/// message.
pub open spec fn encode_remote_error(code: i32, msg: Seq<char>) -> Seq<u8> {
    spec_u32_to_le_bytes(code as u32) + encode_utf8(msg)
}

/// Text written by the text codec reads back as the same text.
pub proof fn lemma_text_roundtrip(text: Seq<char>)
    ensures
        decode_text(encode_utf8(text)) == Ok::<Seq<char>, SleanError>(text),
{
    vstd::utf8::encode_utf8_valid_utf8(text);
    vstd::utf8::encode_utf8_decode_utf8(text);
}

/// An error written by the text codec reads back as the same code and message.
pub proof fn lemma_remote_error_roundtrip(code: i32, msg: Seq<char>)
    ensures
        decode_remote_error(encode_remote_error(code, msg)) == Ok::<(i32, Seq<char>), SleanError>(
            (code, msg),
        ),
{
    vstd::bytes::lemma_auto_spec_u32_to_from_le_bytes();
    vstd::utf8::encode_utf8_valid_utf8(msg);
    vstd::utf8::encode_utf8_decode_utf8(msg);
    let bytes = encode_remote_error(code, msg);
    let le = spec_u32_to_le_bytes(code as u32);
    assert(bytes.take(4) =~= le);
    assert(bytes.skip(4) =~= encode_utf8(msg));
    assert((code as u32) as i32 == code) by (bit_vector);
}

/// `String::from_utf8`: the standard library accepts exactly the valid UTF-8
/// byte sequences and gives back the characters they encode.
#[verifier::external_body]
fn string_from_utf8(bytes: Vec<u8>) -> (r: Option<String>)
    ensures
        r is Some <==> valid_utf8(bytes@),
        r matches Some(s) ==> s@ == decode_utf8(bytes@),
{
    String::from_utf8(bytes).ok()
}

/// byteorder's `LittleEndian::read_i32`: the first four bytes of `buf` read as
/// a little-endian two's complement number (it panics on fewer than four).
#[verifier::external_body]
fn le_read_i32(buf: &[u8]) -> (v: i32)
    requires
        buf@.len() >= 4,
    ensures
        v == spec_u32_from_le_bytes(buf@.take(4)) as i32,
{
    LittleEndian::read_i32(buf)
}

/// byteorder's `LittleEndian::write_i32`, into four fresh bytes: `v` as a
/// little-endian two's complement number.
#[verifier::external_body]
fn le_i32_bytes(v: i32) -> (b: Vec<u8>)
    ensures
        b@ == spec_u32_to_le_bytes(v as u32),
{
    let mut b = vec![0u8; 4];
    LittleEndian::write_i32(&mut b, v);
    b
}

/// Takes all pending bytes of a buffer.
fn take_pending(reader: &mut SleamBuf) -> (bytes: Vec<u8>)
    ensures
        bytes@ == old(reader)@.content(),
        final(reader)@.data == old(reader)@.data,
        final(reader)@.write_pos == old(reader)@.write_pos,
        final(reader)@.read_pos == old(reader)@.write_pos,
{
    proof {
        use_type_invariant(&*reader);
    }
    let mut bytes: Vec<u8> = vec![0u8; reader.len()];
    let _ = reader.read_bytes(bytes.as_mut_slice());
    proof {
        assert(bytes@ =~= old(reader)@.content());
    }
    bytes
}

impl Codec<String> for TextCodec {
    open spec fn exact() -> bool {
        true
    }

    open spec fn read_outcome(bytes: Seq<u8>, r: SleanResult<String>) -> bool {
        text_read_outcome(r, bytes)
    }

    open spec fn read_len(bytes: Seq<u8>) -> nat {
        bytes.len()
    }

    open spec fn encoding(v: String) -> Seq<u8> {
        encode_utf8(v@)
    }

    open spec fn is_write_failure(e: SleanError) -> bool {
        e == SleanError::UnexpectedIoFailure(IoKind::OutOfMemory)
    }

    /// Reads all pending bytes as UTF-8 text; bytes that are not UTF-8 are
    /// consumed all the same and give an `InvalidData` failure.
    fn read(reader: &mut SleamBuf) -> (r: SleanResult<String>)
        ensures
            final(reader)@.read_pos == old(reader)@.write_pos,
            text_read_outcome(r, old(reader)@.content()),
    {
        proof {
            use_type_invariant(&*reader);
        }
        let bytes = take_pending(reader);
        match string_from_utf8(bytes) {
            Some(s) => Ok(s),
            None => Err(SleanError::UnexpectedIoFailure(IoKind::InvalidData)),
        }
    }

    /// Writes the UTF-8 bytes of `data`; when they do not fit, nothing is
    /// written and the write fails with `OutOfMemory`.
    fn write(data: &String, writer: &mut SleamBuf) -> (r: SleanResult<()>)
        ensures
            old(writer)@.available() >= encode_utf8(data@).len() ==> r is Ok
                && final(writer)@.content() == old(writer)@.content() + encode_utf8(data@),
            old(writer)@.available() < encode_utf8(data@).len() ==> r == Err::<(), SleanError>(
                SleanError::UnexpectedIoFailure(IoKind::OutOfMemory),
            ) && final(writer)@ == old(writer)@,
    {
        proof {
            use_type_invariant(&*writer);
        }
        let bytes = data.as_str().as_bytes();
        let written = writer.write_bytes(bytes);
        proof {
            assert(writer@.content().take(old(writer)@.len() as int) =~= old(writer)@.content());
        }
        match written {
            Ok(_) => Ok(()),
            Err(kind) => Err(SleanError::UnexpectedIoFailure(kind)),
        }
    }
}

impl Codec<RemoteError> for TextCodec {
    open spec fn exact() -> bool {
        true
    }

    open spec fn read_outcome(bytes: Seq<u8>, r: SleanResult<RemoteError>) -> bool {
        remote_error_read_outcome(r, bytes)
    }

    open spec fn read_len(bytes: Seq<u8>) -> nat {
        bytes.len()
    }

    open spec fn encoding(v: RemoteError) -> Seq<u8> {
        encode_remote_error(v.0, v.1@)
    }

    open spec fn is_write_failure(e: SleanError) -> bool {
        e == SleanError::UnexpectedIoFailure(IoKind::OutOfMemory)
    }

    /// Reads a code from four little-endian bytes and a message from all the
    /// bytes after them; everything pending is consumed, also on failure.
    fn read(reader: &mut SleamBuf) -> (r: SleanResult<RemoteError>)
        ensures
            final(reader)@.read_pos == old(reader)@.write_pos,
            remote_error_read_outcome(r, old(reader)@.content()),
    {
        proof {
            use_type_invariant(&*reader);
        }
        let bytes = take_pending(reader);
        if bytes.len() < 4 {
            return Err(SleanError::UnexpectedIoFailure(IoKind::UnexpectedEof));
        }
        let code = le_read_i32(bytes.as_slice());
        let mut rest: Vec<u8> = Vec::new();
        let mut i: usize = 4;
        while i < bytes.len()
            invariant
                4 <= i <= bytes@.len(),
                rest@ == bytes@.subrange(4, i as int),
            decreases bytes@.len() - i,
        {
            rest.push(bytes[i]);
            i = i + 1;
        }
        proof {
            assert(rest@ =~= bytes@.skip(4));
        }
        match string_from_utf8(rest) {
            Some(msg) => Ok((code, msg)),
            None => Err(SleanError::UnexpectedIoFailure(IoKind::InvalidData)),
        }
    }

    /// Writes the code as four little-endian bytes, then the UTF-8 message.
    /// Each part that does not fit fails the write with `OutOfMemory`,
    /// leaving what was written before it.
    fn write(data: &RemoteError, writer: &mut SleamBuf) -> (r: SleanResult<()>)
        ensures
            old(writer)@.available() >= encode_remote_error(data.0, data.1@).len() ==> r is Ok
                && final(writer)@.content() == old(writer)@.content() + encode_remote_error(
                data.0,
                data.1@,
            ),
            old(writer)@.available() < encode_remote_error(data.0, data.1@).len() ==> r == Err::<
                (),
                SleanError,
            >(SleanError::UnexpectedIoFailure(IoKind::OutOfMemory)),
    {
        proof {
            vstd::bytes::lemma_auto_spec_u32_to_from_le_bytes();
            use_type_invariant(&*writer);
        }
        let (code, msg) = data;
        let code_bytes = le_i32_bytes(*code);
        let written = writer.write_bytes(code_bytes.as_slice());
        proof {
            assert(writer@.content().take(old(writer)@.len() as int) =~= old(writer)@.content());
        }
        match written {
            Ok(_) => {},
            Err(kind) => {
                return Err(SleanError::UnexpectedIoFailure(kind));
            },
        }
        let msg_bytes = msg.as_str().as_bytes();
        let written = writer.write_bytes(msg_bytes);
        proof {
            assert(writer@.content().take(old(writer)@.len() as int) =~= old(writer)@.content());
        }
        match written {
            Ok(_) => {
                proof {
                    assert(writer@.content() =~= old(writer)@.content() + encode_remote_error(
                        data.0,
                        data.1@,
                    ));
                }
                Ok(())
            },
            Err(kind) => Err(SleanError::UnexpectedIoFailure(kind)),
        }
    }
}

/// rmp_serde's `encode::write` of `data` into a fresh vector, its error
/// turned into its text. The bytes are the MessagePack encoding of `data`;
/// the contract cannot name them, as `T` is generic, and states nothing of them.
#[verifier::external_body]
fn msgpack_encode<T: Serialize>(data: &T) -> (r: Result<Vec<u8>, String>) {
    let mut out: Vec<u8> = Vec::new();
    match rmp_serde::encode::write(&mut out, data) {
        Ok(()) => Ok(out),
        Err(err) => Err(err.to_string()),
    }
}

/// rmp_serde's `from_read` over `bytes`, its error turned into its text, with
/// the number of bytes it left unread. It never reads more than it is given;
/// the value decoded is not named, as `T` is generic.
#[verifier::external_body]
fn msgpack_decode<T: DeserializeOwned>(bytes: &[u8]) -> (r: (Result<T, String>, usize))
    ensures
        r.1 <= bytes@.len(),
{
    let mut rest: &[u8] = bytes;
    match rmp_serde::from_read(&mut rest) {
        Ok(v) => (Ok(v), rest.len()),
        Err(err) => (Err(err.to_string()), rest.len()),
    }
}

/// bincode's `serialize_into` of `data` into a fresh vector, its error turned
/// into its text. The bytes are bincode's encoding of `data`; the contract
/// cannot name them, as `T` is generic, and states nothing of them.
#[verifier::external_body]
fn bincode_encode<T: Serialize>(data: &T) -> (r: Result<Vec<u8>, String>) {
    let mut out: Vec<u8> = Vec::new();
    match bincode::serialize_into(&mut out, data) {
        Ok(()) => Ok(out),
        Err(err) => Err(err.to_string()),
    }
}

/// bincode's `deserialize_from` over `bytes`, in the format of
/// `bincode::deserialize_from` (fixed-width integers, trailing bytes allowed)
/// and limited to the length of `bytes`, so that a length prefix larger than
/// the input fails instead of allocating; its error is turned into its text,
/// with the number of bytes it left unread. It never reads more than it is
/// given; the value decoded is not named, as `T` is generic.
#[verifier::external_body]
fn bincode_decode<T: DeserializeOwned>(bytes: &[u8]) -> (r: (Result<T, String>, usize))
    ensures
        r.1 <= bytes@.len(),
{
    let mut rest: &[u8] = bytes;
    let limited = bincode::DefaultOptions::new()
        .with_fixint_encoding()
        .allow_trailing_bytes()
        .with_limit(bytes.len() as u64);
    match limited.deserialize_from(&mut rest) {
        Ok(v) => (Ok(v), rest.len()),
        Err(err) => (Err(err.to_string()), rest.len()),
    }
}

/// Finishes a read from what a decoder reported: `decoded` is the value it
/// decoded or the text of its error, and `left` the number of pending bytes it
/// left unread. The bytes it read are consumed, also when it failed; a value
/// is handed back as it is and an error becomes a decoding failure with its
/// text.
pub fn settle_decoded<T>(reader: &mut SleamBuf, decoded: Result<T, String>, left: usize) -> (r: SleanResult<T>)
    requires
        left <= old(reader)@.len(),
    ensures
        final(reader)@.data == old(reader)@.data,
        final(reader)@.write_pos == old(reader)@.write_pos,
        final(reader)@.read_pos == old(reader)@.write_pos - left,
        r == match decoded {
            Ok(v) => Ok::<T, SleanError>(v),
            Err(msg) => Err::<T, SleanError>(SleanError::DecodingFailed(msg)),
        },
{
    proof {
        use_type_invariant(&*reader);
    }
    let pending = reader.len();
    reader.skip((pending - left) as u32);
    match decoded {
        Ok(v) => Ok(v),
        Err(msg) => Err(SleanError::DecodingFailed(msg)),
    }
}

/// Appends encoded bytes, or turns the lack of room into an encoding failure.
fn put_encoded(encoded: Result<Vec<u8>, String>, writer: &mut SleamBuf) -> (r: SleanResult<()>)
    ensures
        final(writer)@.read_pos == old(writer)@.read_pos,
        final(writer)@.data.len() == old(writer)@.data.len(),
        old(writer)@.write_pos <= final(writer)@.write_pos,
        final(writer)@.content().take(old(writer)@.len() as int) == old(writer)@.content(),
        r is Err ==> r->Err_0 is EncodingFailed && final(writer)@ == old(writer)@,
        encoded matches Ok(bytes) ==> (r is Ok <==> bytes@.len() <= old(writer)@.available()),
        r is Ok ==> encoded is Ok && final(writer)@.content() == old(writer)@.content()
            + encoded->Ok_0@,
        encoded is Ok && r is Err ==> serde_write_failure(r->Err_0),
        encoded matches Err(m) ==> r == Err::<(), SleanError>(SleanError::EncodingFailed(m)),
{
    proof {
        use_type_invariant(&*writer);
    }
    match encoded {
        Ok(bytes) => {
            let written = writer.write_bytes(bytes.as_slice());
            proof {
                assert(writer@.content().take(old(writer)@.len() as int) =~= old(writer)@.content());
            }
            match written {
                Ok(_) => Ok(()),
                Err(kind) => Err(SleanError::EncodingFailed(describe_io_kind(kind))),
            }
        },
        Err(msg) => Err(SleanError::EncodingFailed(msg)),
    }
}

/// `enc` is a result that rmp_serde's encoder, as the library calls it, gives
/// for `data`: the MessagePack bytes of the value or the text of its error.
pub closed spec fn msgpack_encoded<T: Serialize>(data: &T, enc: Result<Vec<u8>, String>) -> bool {
    call_ensures(msgpack_encode::<T>, (data,), enc)
}

/// `out` is a result that rmp_serde's decoder, as the library calls it,
/// gives over `bytes`: the value decoded from their front or the text of its
/// error, and how many of the bytes it left unread.
pub closed spec fn msgpack_decoded<T: DeserializeOwned>(bytes: Seq<u8>, out: (Result<T, String>, usize)) -> bool {
    exists|s: &[u8]|
        #![trigger call_ensures(msgpack_decode::<T>, (s,), out)]
        s@ == bytes && call_ensures(msgpack_decode::<T>, (s,), out)
}

/// `enc` is a result that bincode's encoder, as the library calls it, gives
/// for `data`: the bincode bytes of the value or the text of its error.
pub closed spec fn bincode_encoded<T: Serialize>(data: &T, enc: Result<Vec<u8>, String>) -> bool {
    call_ensures(bincode_encode::<T>, (data,), enc)
}

/// `out` is a result that bincode's decoder, as the library calls it, gives
/// over `bytes`: the value decoded from their front or the text of its error,
/// and how many of the bytes it left unread.
pub closed spec fn bincode_decoded<T: DeserializeOwned>(bytes: Seq<u8>, out: (Result<T, String>, usize)) -> bool {
    exists|s: &[u8]|
        #![trigger call_ensures(bincode_decode::<T>, (s,), out)]
        s@ == bytes && call_ensures(bincode_decode::<T>, (s,), out)
}

/// A decoder leaves unread at most the bytes it was given.
pub proof fn lemma_decoders_read_within<T: DeserializeOwned>(bytes: Seq<u8>, out: (Result<T, String>, usize))
    ensures
        msgpack_decoded::<T>(bytes, out) ==> out.1 <= bytes.len(),
        bincode_decoded::<T>(bytes, out) ==> out.1 <= bytes.len(),
{
}

/// A buffer went from `before` to `after`, giving `r`, by writing what an
/// encoder gave as `enc`: encoded bytes are appended after the pending bytes
/// when they fit, and the write succeeds exactly then; otherwise, or when
/// encoding failed, the buffer is unchanged and the write fails, with the
/// encoder's error text when it failed.
pub open spec fn encoded_write(
    enc: Result<Vec<u8>, String>,
    before: BufView,
    after: BufView,
    r: SleanResult<()>,
) -> bool {
    match enc {
        Ok(bytes) => {
            &&& (r is Ok <==> bytes@.len() <= before.available())
            &&& r is Ok ==> after.content() == before.content() + bytes@ && after.read_pos == before.read_pos
                && after.data.len() == before.data.len()
            &&& r is Err ==> after == before && serde_write_failure(r->Err_0)
        },
        Err(m) => after == before && r == Err::<(), SleanError>(SleanError::EncodingFailed(m)),
    }
}

/// A buffer went from `before` to `after`, giving `r`, by reading what a
/// decoder gave as `out`: the bytes it read are consumed, those it left stay
/// pending, and the result is its value or a decoding failure with its text.
pub open spec fn decoded_read<T>(out: (Result<T, String>, usize), before: BufView, after: BufView, r: SleanResult<T>) -> bool {
    &&& out.1 <= before.len()
    &&& after.data == before.data
    &&& after.write_pos == before.write_pos
    &&& after.read_pos == before.write_pos - out.1
    &&& r == match out.0 {
        Ok(v) => Ok::<T, SleanError>(v),
        Err(m) => Err::<T, SleanError>(SleanError::DecodingFailed(m)),
    }
}

/// A successful MessagePack write appends, after the bytes that were
/// pending, exactly the bytes the encoder gives for the value; a failed one
/// changes nothing.
pub proof fn lemma_msgpack_write_appends_encoding<T: Serialize>(
    data: &T,
    enc: Result<Vec<u8>, String>,
    before: BufView,
    after: BufView,
    r: SleanResult<()>,
)
    requires
        before.wf(),
        msgpack_encoded::<T>(data, enc),
        encoded_write(enc, before, after, r),
    ensures
        r is Ok ==> enc is Ok && after.content() == before.content() + enc->Ok_0@,
        r is Ok ==> after.content().skip(before.len() as int) == enc->Ok_0@,
        r is Err ==> after == before,
{
    if r is Ok {
        assert(after.content().skip(before.len() as int) =~= enc->Ok_0@);
    }
}

/// A MessagePack read gives what the decoder gives and consumes exactly the
/// bytes it read: what stays pending is the part of the old pending bytes
/// that the decoder left, so that the next read starts where it stopped.
pub proof fn lemma_msgpack_read_leaves_the_rest<T: DeserializeOwned>(
    out: (Result<T, String>, usize),
    before: BufView,
    after: BufView,
    r: SleanResult<T>,
)
    requires
        before.wf(),
        msgpack_decoded::<T>(before.content(), out),
        decoded_read(out, before, after, r),
    ensures
        after.content() == before.content().skip(before.len() - out.1),
        after.len() == out.1,
        out.0 is Ok <==> r is Ok,
{
    assert(after.content() =~= before.content().skip(before.len() - out.1));
}

/// A successful bincode write appends, after the bytes that were pending,
/// exactly the bytes the encoder gives for the value; a failed one changes
/// nothing.
pub proof fn lemma_bincode_write_appends_encoding<T: Serialize>(
    data: &T,
    enc: Result<Vec<u8>, String>,
    before: BufView,
    after: BufView,
    r: SleanResult<()>,
)
    requires
        before.wf(),
        bincode_encoded::<T>(data, enc),
        encoded_write(enc, before, after, r),
    ensures
        r is Ok ==> enc is Ok && after.content() == before.content() + enc->Ok_0@,
        r is Ok ==> after.content().skip(before.len() as int) == enc->Ok_0@,
        r is Err ==> after == before,
{
    if r is Ok {
        assert(after.content().skip(before.len() as int) =~= enc->Ok_0@);
    }
}

/// A bincode read gives what the decoder gives and consumes exactly the
/// bytes it read: what stays pending is the part of the old pending bytes
/// that the decoder left, so that the next read starts where it stopped.
pub proof fn lemma_bincode_read_leaves_the_rest<T: DeserializeOwned>(
    out: (Result<T, String>, usize),
    before: BufView,
    after: BufView,
    r: SleanResult<T>,
)
    requires
        before.wf(),
        bincode_decoded::<T>(before.content(), out),
        decoded_read(out, before, after, r),
    ensures
        after.content() == before.content().skip(before.len() - out.1),
        after.len() == out.1,
        out.0 is Ok <==> r is Ok,
{
    assert(after.content() =~= before.content().skip(before.len() - out.1));
}

impl MsgPackCodec {
    /// Decodes one MessagePack value from the front of the pending bytes and
    /// consumes what the decoder read, also when it fails: the result is the
    /// decoder's, and the bytes it left stay pending.
    pub fn read_value<T: DeserializeOwned>(reader: &mut SleamBuf) -> (r: SleanResult<T>)
        ensures
            final(reader)@.data == old(reader)@.data,
            final(reader)@.write_pos == old(reader)@.write_pos,
            old(reader)@.read_pos <= final(reader)@.read_pos,
            r is Err ==> r->Err_0 is DecodingFailed,
            exists|out: (Result<T, String>, usize)|
                #![trigger msgpack_decoded::<T>(old(reader)@.content(), out)]
                msgpack_decoded::<T>(old(reader)@.content(), out) && decoded_read(
                    out,
                    old(reader)@,
                    final(reader)@,
                    r,
                ),
    {
        proof {
            use_type_invariant(&*reader);
        }
        let pending = reader.read_slice();
        let out = msgpack_decode::<T>(pending);
        let ghost given = out;
        proof {
            assert(pending@ == reader@.content() && call_ensures(msgpack_decode::<T>, (pending,), given));
            assert(msgpack_decoded::<T>(reader@.content(), given));
        }
        let (value, left) = out;
        settle_decoded(reader, value, left)
    }

    /// Appends the MessagePack encoding of `data`: the write succeeds exactly
    /// when the encoder gives bytes and they fit; otherwise the buffer is
    /// unchanged and the write fails with an encoding failure.
    pub fn write_value<T: Serialize>(data: &T, writer: &mut SleamBuf) -> (r: SleanResult<()>)
        ensures
            final(writer)@.read_pos == old(writer)@.read_pos,
            final(writer)@.data.len() == old(writer)@.data.len(),
            old(writer)@.write_pos <= final(writer)@.write_pos,
            final(writer)@.content().take(old(writer)@.len() as int) == old(writer)@.content(),
            r is Err ==> r->Err_0 is EncodingFailed && final(writer)@ == old(writer)@,
            exists|enc: Result<Vec<u8>, String>|
                #![trigger msgpack_encoded::<T>(data, enc)]
                msgpack_encoded::<T>(data, enc) && encoded_write(enc, old(writer)@, final(writer)@, r),
    {
        let enc = msgpack_encode(data);
        let ghost given = enc;
        proof {
            assert(msgpack_encoded::<T>(data, given));
        }
        put_encoded(enc, writer)
    }
}

impl BincodeCodec {
    /// Decodes one bincode value from the front of the pending bytes and
    /// consumes what the decoder read, also when it fails: the result is the
    /// decoder's, and the bytes it left stay pending.
    pub fn read_value<T: DeserializeOwned>(reader: &mut SleamBuf) -> (r: SleanResult<T>)
        ensures
            final(reader)@.data == old(reader)@.data,
            final(reader)@.write_pos == old(reader)@.write_pos,
            old(reader)@.read_pos <= final(reader)@.read_pos,
            r is Err ==> r->Err_0 is DecodingFailed,
            exists|out: (Result<T, String>, usize)|
                #![trigger bincode_decoded::<T>(old(reader)@.content(), out)]
                bincode_decoded::<T>(old(reader)@.content(), out) && decoded_read(
                    out,
                    old(reader)@,
                    final(reader)@,
                    r,
                ),
    {
        proof {
            use_type_invariant(&*reader);
        }
        let pending = reader.read_slice();
        let out = bincode_decode::<T>(pending);
        let ghost given = out;
        proof {
            assert(pending@ == reader@.content() && call_ensures(bincode_decode::<T>, (pending,), given));
            assert(bincode_decoded::<T>(reader@.content(), given));
        }
        let (value, left) = out;
        settle_decoded(reader, value, left)
    }

    /// Appends the bincode encoding of `data`: the write succeeds exactly
    /// when the encoder gives bytes and they fit; otherwise the buffer is
    /// unchanged and the write fails with an encoding failure.
    pub fn write_value<T: Serialize>(data: &T, writer: &mut SleamBuf) -> (r: SleanResult<()>)
        ensures
            final(writer)@.read_pos == old(writer)@.read_pos,
            final(writer)@.data.len() == old(writer)@.data.len(),
            old(writer)@.write_pos <= final(writer)@.write_pos,
            final(writer)@.content().take(old(writer)@.len() as int) == old(writer)@.content(),
            r is Err ==> r->Err_0 is EncodingFailed && final(writer)@ == old(writer)@,
            exists|enc: Result<Vec<u8>, String>|
                #![trigger bincode_encoded::<T>(data, enc)]
                bincode_encoded::<T>(data, enc) && encoded_write(enc, old(writer)@, final(writer)@, r),
    {
        let enc = bincode_encode(data);
        let ghost given = enc;
        proof {
            assert(bincode_encoded::<T>(data, given));
        }
        put_encoded(enc, writer)
    }
}


/// What rmp_serde's `encode::write` gives for a `String` with the text `s`.
pub uninterp spec fn msgpack_text(s: Seq<char>) -> Seq<u8>;

/// What rmp_serde's `encode::write` gives for an error `(code, msg)`.
pub uninterp spec fn msgpack_remote_error(code: i32, msg: Seq<char>) -> Seq<u8>;

/// What rmp_serde's `from_read` gives over `bytes` for a `String`: whether
/// it decoded, the text or the text of the error, and the number of bytes
/// left unread.
pub uninterp spec fn msgpack_text_read(bytes: Seq<u8>) -> (bool, Seq<char>, usize);

/// What rmp_serde's `from_read` gives over `bytes` for an error: its code if
/// it decoded, its message or the text of the decoding error, and the number
/// of bytes left unread.
pub uninterp spec fn msgpack_remote_error_read(bytes: Seq<u8>) -> (Option<i32>, Seq<char>, usize);

/// What bincode's `serialize_into` gives for a `String` with the text `s`.
pub uninterp spec fn bincode_text(s: Seq<char>) -> Seq<u8>;

/// What bincode's `serialize_into` gives for an error `(code, msg)`.
pub uninterp spec fn bincode_remote_error(code: i32, msg: Seq<char>) -> Seq<u8>;

/// What bincode's `deserialize_from`, limited to the length of `bytes`, gives
/// over `bytes` for a `String`: whether it decoded, the text or the text of
/// the error, and the number of bytes left unread.
pub uninterp spec fn bincode_text_read(bytes: Seq<u8>) -> (bool, Seq<char>, usize);

/// What bincode's `deserialize_from`, limited to the length of `bytes`, gives
/// over `bytes` for an error: its code if it decoded, its message or the text
/// of the decoding error, and the number of bytes left unread.
pub uninterp spec fn bincode_remote_error_read(bytes: Seq<u8>) -> (Option<i32>, Seq<char>, usize);

/// `r` is the read of a text whose decoder gave `read`: the text itself, or a
/// decoding failure with the decoder's error text.
pub open spec fn serde_text_outcome(read: (bool, Seq<char>, usize), r: SleanResult<String>) -> bool {
    if read.0 {
        r is Ok && r->Ok_0@ == read.1
    } else {
        r matches Err(SleanError::DecodingFailed(x)) && x@ == read.1
    }
}

/// `r` is the read of an error whose decoder gave `read`: the code and the
/// message, or a decoding failure with the decoder's error text.
pub open spec fn serde_remote_error_outcome(read: (Option<i32>, Seq<char>, usize), r: SleanResult<RemoteError>) -> bool {
    match read.0 {
        Some(code) => r is Ok && r->Ok_0.0 == code && r->Ok_0.1@ == read.1,
        None => r matches Err(SleanError::DecodingFailed(x)) && x@ == read.1,
    }
}

/// `e` is the error of a serde encoding that does not fit: an encoding
/// failure with the description of `OutOfMemory`.
pub open spec fn serde_write_failure(e: SleanError) -> bool {
    e matches SleanError::EncodingFailed(m) && m@ == io_kind_description(IoKind::OutOfMemory)
}

/// rmp_serde's `encode::write` of a `String` into a fresh vector. Writing a
/// string into a vector does not fail (rmp writes a length marker and the
/// bytes, and a vector takes every write); the bytes are named.
#[verifier::external_body]
fn msgpack_encode_text(data: &String) -> (r: Vec<u8>)
    ensures
        r@ == msgpack_text(data@),
{
    let mut out: Vec<u8> = Vec::new();
    rmp_serde::encode::write(&mut out, data).expect("a vector takes every write");
    out
}

/// rmp_serde's `encode::write` of an error `(code, msg)` into a fresh vector:
/// a two-element array of an integer and a string, which a vector takes
/// without failing; the bytes are named.
#[verifier::external_body]
fn msgpack_encode_remote_error(data: &RemoteError) -> (r: Vec<u8>)
    ensures
        r@ == msgpack_remote_error(data.0, data.1@),
{
    let mut out: Vec<u8> = Vec::new();
    rmp_serde::encode::write(&mut out, data).expect("a vector takes every write");
    out
}

/// rmp_serde's `from_read` of a `String` over `bytes`, its error turned into
/// its text, with the number of bytes it left unread; the outcome is named.
#[verifier::external_body]
fn msgpack_decode_text(bytes: &[u8]) -> (r: (bool, String, usize))
    ensures
        r@ == msgpack_text_read(bytes@),
        r.2 <= bytes@.len(),
{
    let mut rest: &[u8] = bytes;
    match rmp_serde::from_read::<_, String>(&mut rest) {
        Ok(v) => (true, v, rest.len()),
        Err(err) => (false, err.to_string(), rest.len()),
    }
}

/// rmp_serde's `from_read` of an error `(code, msg)` over `bytes`, its error
/// turned into its text, with the number of bytes it left unread; the
/// outcome is named.
#[verifier::external_body]
fn msgpack_decode_remote_error(bytes: &[u8]) -> (r: (Option<i32>, String, usize))
    ensures
        r@ == msgpack_remote_error_read(bytes@),
        r.2 <= bytes@.len(),
{
    let mut rest: &[u8] = bytes;
    match rmp_serde::from_read::<_, RemoteError>(&mut rest) {
        Ok((code, msg)) => (Some(code), msg, rest.len()),
        Err(err) => (None, err.to_string(), rest.len()),
    }
}

/// bincode's `serialize_into` of a `String` into a fresh vector: a length
/// and the bytes, which a vector takes without failing, with no size limit
/// set; the bytes are named.
#[verifier::external_body]
fn bincode_encode_text(data: &String) -> (r: Vec<u8>)
    ensures
        r@ == bincode_text(data@),
{
    let mut out: Vec<u8> = Vec::new();
    bincode::serialize_into(&mut out, data).expect("a vector takes every write");
    out
}

/// bincode's `serialize_into` of an error `(code, msg)` into a fresh vector,
/// which takes it without failing; the bytes are named.
#[verifier::external_body]
fn bincode_encode_remote_error(data: &RemoteError) -> (r: Vec<u8>)
    ensures
        r@ == bincode_remote_error(data.0, data.1@),
{
    let mut out: Vec<u8> = Vec::new();
    bincode::serialize_into(&mut out, data).expect("a vector takes every write");
    out
}

/// bincode's `deserialize_from` of a `String` over `bytes`, in the format of
/// `bincode::deserialize_from` and limited to the length of `bytes` (a length
/// prefix larger than the input fails instead of allocating), its error
/// turned into its text, with the number of bytes it left unread; the outcome
/// is named.
#[verifier::external_body]
fn bincode_decode_text(bytes: &[u8]) -> (r: (bool, String, usize))
    ensures
        r@ == bincode_text_read(bytes@),
        r.2 <= bytes@.len(),
{
    let mut rest: &[u8] = bytes;
    let limited = bincode::DefaultOptions::new()
        .with_fixint_encoding()
        .allow_trailing_bytes()
        .with_limit(bytes.len() as u64);
    match limited.deserialize_from::<_, String>(&mut rest) {
        Ok(v) => (true, v, rest.len()),
        Err(err) => (false, err.to_string(), rest.len()),
    }
}

/// bincode's `deserialize_from` of an error `(code, msg)` over `bytes`, in the
/// format of `bincode::deserialize_from` and limited to the length of `bytes`,
/// its error turned into its text, with the number of bytes it left unread;
/// the outcome is named.
#[verifier::external_body]
fn bincode_decode_remote_error(bytes: &[u8]) -> (r: (Option<i32>, String, usize))
    ensures
        r@ == bincode_remote_error_read(bytes@),
        r.2 <= bytes@.len(),
{
    let mut rest: &[u8] = bytes;
    let limited = bincode::DefaultOptions::new()
        .with_fixint_encoding()
        .allow_trailing_bytes()
        .with_limit(bytes.len() as u64);
    match limited.deserialize_from::<_, RemoteError>(&mut rest) {
        Ok((code, msg)) => (Some(code), msg, rest.len()),
        Err(err) => (None, err.to_string(), rest.len()),
    }
}

impl Codec<String> for MsgPackCodec {
    open spec fn exact() -> bool {
        true
    }

    open spec fn read_outcome(bytes: Seq<u8>, r: SleanResult<String>) -> bool {
        serde_text_outcome(msgpack_text_read(bytes), r)
    }

    open spec fn read_len(bytes: Seq<u8>) -> nat {
        (bytes.len() - msgpack_text_read(bytes).2) as nat
    }

    open spec fn encoding(v: String) -> Seq<u8> {
        msgpack_text(v@)
    }

    open spec fn is_write_failure(e: SleanError) -> bool {
        serde_write_failure(e)
    }

    /// Decodes one value from the front of the pending bytes and consumes
    /// what the decoder read, also when it fails.
    fn read(reader: &mut SleamBuf) -> (r: SleanResult<String>)
        ensures
            final(reader)@.read_pos == old(reader)@.write_pos - msgpack_text_read(old(reader)@.content()).2,
            serde_text_outcome(msgpack_text_read(old(reader)@.content()), r),
    {
        proof {
            use_type_invariant(&*reader);
        }
        let (decoded, text, left) = msgpack_decode_text(reader.read_slice());
        let value: Result<String, String> = if decoded {
            Ok(text)
        } else {
            Err(text)
        };
        settle_decoded(reader, value, left)
    }

    /// Appends the encoding of `data`; when it does not fit, nothing is
    /// written and the write fails.
    fn write(data: &String, writer: &mut SleamBuf) -> (r: SleanResult<()>)
        ensures
            r is Err ==> final(writer)@ == old(writer)@,
    {
        put_encoded(Ok(msgpack_encode_text(data)), writer)
    }
}

impl Codec<RemoteError> for MsgPackCodec {
    open spec fn exact() -> bool {
        true
    }

    open spec fn read_outcome(bytes: Seq<u8>, r: SleanResult<RemoteError>) -> bool {
        serde_remote_error_outcome(msgpack_remote_error_read(bytes), r)
    }

    open spec fn read_len(bytes: Seq<u8>) -> nat {
        (bytes.len() - msgpack_remote_error_read(bytes).2) as nat
    }

    open spec fn encoding(v: RemoteError) -> Seq<u8> {
        msgpack_remote_error(v.0, v.1@)
    }

    open spec fn is_write_failure(e: SleanError) -> bool {
        serde_write_failure(e)
    }

    /// Decodes one value from the front of the pending bytes and consumes
    /// what the decoder read, also when it fails.
    fn read(reader: &mut SleamBuf) -> (r: SleanResult<RemoteError>)
        ensures
            final(reader)@.read_pos == old(reader)@.write_pos - msgpack_remote_error_read(old(reader)@.content()).2,
            serde_remote_error_outcome(msgpack_remote_error_read(old(reader)@.content()), r),
    {
        proof {
            use_type_invariant(&*reader);
        }
        let (code, text, left) = msgpack_decode_remote_error(reader.read_slice());
        let value: Result<RemoteError, String> = match code {
            Some(c) => Ok((c, text)),
            None => Err(text),
        };
        settle_decoded(reader, value, left)
    }

    /// Appends the encoding of `data`; when it does not fit, nothing is
    /// written and the write fails.
    fn write(data: &RemoteError, writer: &mut SleamBuf) -> (r: SleanResult<()>)
        ensures
            r is Err ==> final(writer)@ == old(writer)@,
    {
        put_encoded(Ok(msgpack_encode_remote_error(data)), writer)
    }
}

impl Codec<String> for BincodeCodec {
    open spec fn exact() -> bool {
        true
    }

    open spec fn read_outcome(bytes: Seq<u8>, r: SleanResult<String>) -> bool {
        serde_text_outcome(bincode_text_read(bytes), r)
    }

    open spec fn read_len(bytes: Seq<u8>) -> nat {
        (bytes.len() - bincode_text_read(bytes).2) as nat
    }

    open spec fn encoding(v: String) -> Seq<u8> {
        bincode_text(v@)
    }

    open spec fn is_write_failure(e: SleanError) -> bool {
        serde_write_failure(e)
    }

    /// Decodes one value from the front of the pending bytes and consumes
    /// what the decoder read, also when it fails.
    fn read(reader: &mut SleamBuf) -> (r: SleanResult<String>)
        ensures
            final(reader)@.read_pos == old(reader)@.write_pos - bincode_text_read(old(reader)@.content()).2,
            serde_text_outcome(bincode_text_read(old(reader)@.content()), r),
    {
        proof {
            use_type_invariant(&*reader);
        }
        let (decoded, text, left) = bincode_decode_text(reader.read_slice());
        let value: Result<String, String> = if decoded {
            Ok(text)
        } else {
            Err(text)
        };
        settle_decoded(reader, value, left)
    }

    /// Appends the encoding of `data`; when it does not fit, nothing is
    /// written and the write fails.
    fn write(data: &String, writer: &mut SleamBuf) -> (r: SleanResult<()>)
        ensures
            r is Err ==> final(writer)@ == old(writer)@,
    {
        put_encoded(Ok(bincode_encode_text(data)), writer)
    }
}

impl Codec<RemoteError> for BincodeCodec {
    open spec fn exact() -> bool {
        true
    }

    open spec fn read_outcome(bytes: Seq<u8>, r: SleanResult<RemoteError>) -> bool {
        serde_remote_error_outcome(bincode_remote_error_read(bytes), r)
    }

    open spec fn read_len(bytes: Seq<u8>) -> nat {
        (bytes.len() - bincode_remote_error_read(bytes).2) as nat
    }

    open spec fn encoding(v: RemoteError) -> Seq<u8> {
        bincode_remote_error(v.0, v.1@)
    }

    open spec fn is_write_failure(e: SleanError) -> bool {
        serde_write_failure(e)
    }

    /// Decodes one value from the front of the pending bytes and consumes
    /// what the decoder read, also when it fails.
    fn read(reader: &mut SleamBuf) -> (r: SleanResult<RemoteError>)
        ensures
            final(reader)@.read_pos == old(reader)@.write_pos - bincode_remote_error_read(old(reader)@.content()).2,
            serde_remote_error_outcome(bincode_remote_error_read(old(reader)@.content()), r),
    {
        proof {
            use_type_invariant(&*reader);
        }
        let (code, text, left) = bincode_decode_remote_error(reader.read_slice());
        let value: Result<RemoteError, String> = match code {
            Some(c) => Ok((c, text)),
            None => Err(text),
        };
        settle_decoded(reader, value, left)
    }

    /// Appends the encoding of `data`; when it does not fit, nothing is
    /// written and the write fails.
    fn write(data: &RemoteError, writer: &mut SleamBuf) -> (r: SleanResult<()>)
        ensures
            r is Err ==> final(writer)@ == old(writer)@,
    {
        put_encoded(Ok(bincode_encode_remote_error(data)), writer)
    }
}

} // verus!
