use vstd::prelude::*;
use vstd::bytes::spec_u64_from_le_bytes;
use vstd::utf8::encode_utf8;

use std::marker::PhantomData;

use crate::codec::{encode_remote_error, lemma_remote_error_roundtrip, lemma_text_roundtrip, Codec, TextCodec};
use crate::error::{error_message, RemoteError, SleanError, SleanResult};
use crate::memo::{lemma_frame_header_decodes, BufView, SleamBuf};
use crate::protocol::{
    desc_code, desc_len, valid_desc, FrameDescriptor, ERR, FRAME_DESC_SIZE_BYTES, MAX_MSG_SIZE_BYTES,
    MSG_TYPE, REPL,
};
use crate::service::{frame_body, holds_frame, holds_reply};

verus! {

/// Why a reply frame did not give a reply.
#[derive(Debug)]
pub enum ReplyError {
    /// A reply frame whose body the codec could not read.
    Undecodable(SleanError),
    /// An error frame: the error the server sent.
    Remote(RemoteError),
    /// An error frame whose body the codec could not read.
    RemoteUndecodable(SleanError),
    /// A frame that is neither a reply nor an error.
    NotAReply,
}

/// The client side of a blocking request/reply exchange, without its
/// stream: the buffer that frames requests and receives replies, and the
/// codec `C` for requests, replies and errors.
#[verifier::reject_recursive_types(C)]
#[verifier::reject_recursive_types(Req)]
#[verifier::reject_recursive_types(Repl)]
pub struct BlockingSleamService<C, Req, Repl> {
    buff: SleamBuf,
    _req: PhantomData<Req>,
    _repl: PhantomData<Repl>,
    _codec: PhantomData<C>,
}

impl<C, Req, Repl> BlockingSleamService<C, Req, Repl> where
    C: Codec<Repl> + Codec<Req> + Codec<RemoteError>,
 {
    /// The buffer of the client.
    pub closed spec fn buffer(&self) -> SleamBuf {
        self.buff
    }

    /// A client with a buffer for one frame of the largest size, whose
    /// descriptor is reserved.
    pub fn new() -> (s: Self)
        ensures
            s.buffer()@.data.len() == MAX_MSG_SIZE_BYTES + FRAME_DESC_SIZE_BYTES,
            s.buffer()@.read_pos == FRAME_DESC_SIZE_BYTES,
            s.buffer()@.write_pos == FRAME_DESC_SIZE_BYTES,
    {
        BlockingSleamService {
            buff: SleamBuf::default(),
            _req: PhantomData,
            _repl: PhantomData,
            _codec: PhantomData,
        }
    }

    /// The buffer of the client, to send from and receive into.
    pub fn buffer_mut(&mut self) -> (b: &mut SleamBuf)
        ensures
            *b == old(self).buffer(),
            final(self).buffer() == *final(b),
    {
        &mut self.buff
    }

    /// Frames a request: the buffer is emptied, the request is encoded after
    /// the reserved descriptor and committed as a request frame, ready to be
    /// sent. A request that cannot be encoded gives the codec's error, and the
    /// buffer then holds no frame.
    pub fn prepare_send(&mut self, req: &Req) -> (r: SleanResult<()>)
        ensures
            final(self).buffer()@.data.len() == old(self).buffer()@.data.len(),
            r is Ok ==> holds_frame(final(self).buffer()@, MSG_TYPE::REQ),
            r is Err ==> final(self).buffer()@.read_pos == FRAME_DESC_SIZE_BYTES,
            <C as Codec<Req>>::exact() ==> (r is Ok <==> <C as Codec<Req>>::encoding(*req).len()
                <= old(self).buffer()@.data.len() - FRAME_DESC_SIZE_BYTES),
            <C as Codec<Req>>::exact() && r is Ok ==> frame_body(final(self).buffer()@)
                == <C as Codec<Req>>::encoding(*req),
            <C as Codec<Req>>::exact() && r is Err ==> <C as Codec<Req>>::is_write_failure(r->Err_0),
    {
        proof {
            use_type_invariant(&self.buff);
            vstd::bytes::lemma_auto_spec_u64_to_from_le_bytes();
        }
        self.buff.reset(FRAME_DESC_SIZE_BYTES);
        match <C as Codec<Req>>::write(req, &mut self.buff) {
            Ok(_) => {},
            Err(e) => {
                return Err(e);
            },
        }
        proof {
            use_type_invariant(&self.buff);
        }
        let ghost before = self.buff@;
        self.buff.commit(MSG_TYPE::REQ);
        proof {
            assert(self.buff@.data.subrange(
                FRAME_DESC_SIZE_BYTES as int,
                self.buff@.write_pos as int,
            ) =~= before.content());
        }
        Ok(())
    }

    /// Reads the reply whose frame is described by `fd` and whose body is
    /// pending in the buffer: a reply frame gives the decoded reply, an error
    /// frame the decoded error, and any other frame is not a reply.
    pub fn take_reply(&mut self, fd: &FrameDescriptor) -> (r: Result<Repl, ReplyError>)
        ensures
            final(self).buffer()@.data == old(self).buffer()@.data,
            final(self).buffer()@.write_pos == old(self).buffer()@.write_pos,
            reply_outcome::<C, Repl>(desc_code(fd.view()), old(self).buffer()@.content(), r),
            desc_code(fd.view()) != REPL && desc_code(fd.view()) != ERR ==> final(self).buffer()
                == old(self).buffer(),
    {
        if fd.is_repl() {
            match <C as Codec<Repl>>::read(&mut self.buff) {
                Ok(repl) => Ok(repl),
                Err(e) => Err(ReplyError::Undecodable(e)),
            }
        } else if fd.is_err() {
            match <C as Codec<RemoteError>>::read(&mut self.buff) {
                Ok(err) => Err(ReplyError::Remote(err)),
                Err(e) => Err(ReplyError::RemoteUndecodable(e)),
            }
        } else {
            Err(ReplyError::NotAReply)
        }
    }

    /// Takes in a frame that arrived: its descriptor `desc` and its body. The
    /// body replaces what the buffer held, from its start, and is read as
    /// [`Self::take_reply`] reads it.
    pub fn receive_frame(&mut self, desc: u64, body: &[u8]) -> (r: Result<Repl, ReplyError>)
        requires
            valid_desc(desc),
            body@.len() == desc_len(desc),
            body@.len() <= old(self).buffer()@.data.len(),
        ensures
            final(self).buffer()@.data.len() == old(self).buffer()@.data.len(),
            final(self).buffer()@.data.take(body@.len() as int) == body@,
            final(self).buffer()@.write_pos == body@.len(),
            reply_outcome::<C, Repl>(desc_code(desc), body@, r),
    {
        let fd = FrameDescriptor::from_desc(desc).unwrap();
        proof {
            use_type_invariant(&self.buff);
        }
        self.buff.reset(0);
        let _ = self.buff.write_bytes(body);
        proof {
            assert(self.buff@.content() =~= body@);
            assert(self.buff@.data.take(body@.len() as int) =~= self.buff@.content());
        }
        self.take_reply(&fd)
    }
}

/// `r` is what reading a frame with type code `code` and body `body` gives:
/// a reply frame gives a reply or the codec's decoding error, an error frame
/// the error or the codec's decoding error, and any other frame is not a
/// reply. Where the codec describes its reads, the reply or error is the one
/// it reads from `body`.
pub open spec fn reply_outcome<C: Codec<Repl> + Codec<RemoteError>, Repl>(
    code: u64,
    body: Seq<u8>,
    r: Result<Repl, ReplyError>,
) -> bool {
    if code == REPL {
        &&& (r is Ok || r->Err_0 is Undecodable)
        &&& <C as Codec<Repl>>::exact() ==> match r {
            Ok(v) => <C as Codec<Repl>>::read_outcome(body, Ok(v)),
            Err(ReplyError::Undecodable(e)) => <C as Codec<Repl>>::read_outcome(body, Err(e)),
            _ => true,
        }
    } else if code == ERR {
        &&& r is Err
        &&& (r->Err_0 is Remote || r->Err_0 is RemoteUndecodable)
        &&& <C as Codec<RemoteError>>::exact() ==> match r {
            Err(ReplyError::Remote(e)) => <C as Codec<RemoteError>>::read_outcome(body, Ok(e)),
            Err(ReplyError::RemoteUndecodable(e)) => <C as Codec<RemoteError>>::read_outcome(
                body,
                Err(e),
            ),
            _ => true,
        }
    } else {
        r matches Err(ReplyError::NotAReply)
    }
}

/// A text reply that fits travels intact: when the service's buffer holds the
/// reply to a worker result `Ok(s)`, the descriptor in its first eight bytes
/// is a valid one announcing the rest, and the client that receives that
/// frame reads back exactly `s`.
pub proof fn lemma_text_reply_read_back(b: BufView, room: nat, s: String, r: Result<String, ReplyError>)
    requires
        holds_reply::<TextCodec, String>(b, room, Ok(s)),
        encode_utf8(s@).len() <= room,
        encode_utf8(s@).len() <= MAX_MSG_SIZE_BYTES,
        reply_outcome::<TextCodec, String>(
            desc_code(spec_u64_from_le_bytes(b.content().take(8))),
            b.content().skip(8),
            r,
        ),
    ensures
        valid_desc(spec_u64_from_le_bytes(b.content().take(8))),
        desc_len(spec_u64_from_le_bytes(b.content().take(8))) == b.content().skip(8).len(),
        r matches Ok(v) && v@ == s@,
{
    let body = frame_body(b);
    lemma_frame_header_decodes(MSG_TYPE::REPL, body);
    lemma_text_roundtrip(s@);
}

/// A worker error that fits travels intact: when the service's buffer holds
/// the reply to a worker result `Err(e)`, the client that receives that frame
/// gets the error back under code 0 with the text of `e`.
pub proof fn lemma_worker_error_read_back(
    b: BufView,
    room: nat,
    e: SleanError,
    r: Result<String, ReplyError>,
)
    requires
        holds_reply::<TextCodec, String>(b, room, Err(e)),
        encode_remote_error(0, error_message(e)).len() <= room,
        encode_remote_error(0, error_message(e)).len() <= MAX_MSG_SIZE_BYTES,
        reply_outcome::<TextCodec, String>(
            desc_code(spec_u64_from_le_bytes(b.content().take(8))),
            b.content().skip(8),
            r,
        ),
    ensures
        valid_desc(spec_u64_from_le_bytes(b.content().take(8))),
        desc_len(spec_u64_from_le_bytes(b.content().take(8))) == b.content().skip(8).len(),
        r matches Err(ReplyError::Remote(err)) && err.0 == 0 && err.1@ == error_message(e),
{
    let body = frame_body(b);
    lemma_frame_header_decodes(MSG_TYPE::ERR, body);
    lemma_remote_error_roundtrip(0, error_message(e));
}

} // verus!
