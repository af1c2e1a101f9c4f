use vstd::prelude::*;

use std::marker::PhantomData;

use crate::codec::Codec;
use crate::error::{error_message, remote_code, remote_convertible, remote_message, RemoteError, SleanError, SleanResult};
use crate::memo::{frame_bytes, BufView, SleamBuf};
use crate::protocol::{FRAME_DESC_SIZE_BYTES, MSG_TYPE};

verus! {

/// The buffers a service works on: one buffer that holds the request and
/// receives the reply, or a request buffer and a separate reply buffer.
pub enum IoBuf<'iobuff> {
    One(&'iobuff mut SleamBuf),
    Splited(&'iobuff mut SleamBuf, &'iobuff mut SleamBuf),
}

impl<'iobuff> IoBuf<'iobuff> {
    /// The buffer that holds the request.
    pub(crate) fn read_buf(&mut self) -> (b: &mut SleamBuf)
        ensures
            match *old(self) {
                IoBuf::One(r) => *b == *r,
                IoBuf::Splited(r, _) => *b == *r,
            },
            match (*old(self), *final(self)) {
                (IoBuf::One(r0), IoBuf::One(r)) => *r == *final(b) && *final(r) == *final(r0),
                (IoBuf::Splited(r0, w0), IoBuf::Splited(r, w)) => *r == *final(b) && *final(r)
                    == *final(r0) && w == w0,
                _ => false,
            },
    {
        match self {
            IoBuf::One(read_buff) => read_buff,
            IoBuf::Splited(read_buff, _) => read_buff,
        }
    }

    /// The buffer that receives the reply.
    pub(crate) fn write_buf(&mut self) -> (b: &mut SleamBuf)
        ensures
            match *old(self) {
                IoBuf::One(w) => *b == *w,
                IoBuf::Splited(_, w) => *b == *w,
            },
            match (*old(self), *final(self)) {
                (IoBuf::One(w0), IoBuf::One(w)) => *w == *final(b) && *final(w) == *final(w0),
                (IoBuf::Splited(r0, w0), IoBuf::Splited(r, w)) => *w == *final(b) && *final(w)
                    == *final(w0) && r == r0,
                _ => false,
            },
    {
        match self {
            IoBuf::One(write_buff) => write_buff,
            IoBuf::Splited(_, write_buff) => write_buff,
        }
    }
}

/// Something that turns a request in a buffer into a reply frame.
pub trait ReplService {
    /// `reply` is what the service may leave in the reply buffer when it
    /// answers the request pending in `request`, the reply buffer having
    /// been `reply_before` (for a single buffer, `request` itself).
    spec fn served(&self, request: BufView, reply_before: BufView, reply: BufView) -> bool;

    /// Answers the request in the request buffer into the reply buffer.
    fn execute(&self, io_buf: &mut IoBuf)
        ensures
            match (*old(io_buf), *final(io_buf)) {
                (IoBuf::One(b0), IoBuf::One(b)) => *final(b) == *final(b0) && self.served(
                    (*b0)@,
                    (*b0)@,
                    (*b)@,
                ),
                (IoBuf::Splited(q0, w0), IoBuf::Splited(q, w)) => *final(q) == *final(q0) && *final(w)
                    == *final(w0) && self.served((*q0)@, (*w0)@, (*w)@),
                _ => false,
            },
    ;
}

/// The buffer holds exactly one committed frame of kind `kind`, from its start.
pub open spec fn holds_frame(b: BufView, kind: MSG_TYPE) -> bool {
    &&& b.read_pos == 0
    &&& FRAME_DESC_SIZE_BYTES <= b.write_pos
    &&& b.content() == frame_bytes(kind, b.data.subrange(FRAME_DESC_SIZE_BYTES as int, b.write_pos as int))
}

/// The body of the frame that a buffer holds from its start.
pub open spec fn frame_body(b: BufView) -> Seq<u8> {
    b.data.subrange(FRAME_DESC_SIZE_BYTES as int, b.write_pos as int)
}

/// The buffer holds an error frame for `code` and `msg`, as the codec `C`
/// writes errors: for an exact codec, its body is the encoding of an error
/// with that code and message when that fits in `room` bytes, and is empty
/// otherwise.
pub open spec fn holds_error_frame<C: Codec<RemoteError>>(b: BufView, room: nat, code: i32, msg: Seq<char>) -> bool {
    &&& holds_frame(b, MSG_TYPE::ERR)
    &&& C::exact() ==> exists|e: RemoteError|
        #![trigger C::encoding(e)]
        e.0 == code && e.1@ == msg && if C::encoding(e).len() <= room {
            frame_body(b) == C::encoding(e)
        } else {
            frame_body(b).len() == 0
        }
}

/// The buffer holds the frame that answers a request for which the worker gave
/// `outcome`, with `room` bytes after the descriptor: a reply frame with the
/// encoded reply; when the reply does not fit, an error frame with the error
/// of the failed write; for a worker error, an error frame under code 0 with
/// the error's text.
pub open spec fn holds_reply<C: Codec<Repl> + Codec<RemoteError>, Repl>(
    b: BufView,
    room: nat,
    outcome: SleanResult<Repl>,
) -> bool {
    match outcome {
        Ok(repl) => if <C as Codec<Repl>>::exact() {
            if <C as Codec<Repl>>::encoding(repl).len() <= room {
                holds_frame(b, MSG_TYPE::REPL) && frame_body(b) == <C as Codec<Repl>>::encoding(repl)
            } else {
                exists|e: SleanError|
                    #![trigger <C as Codec<Repl>>::is_write_failure(e)]
                    <C as Codec<Repl>>::is_write_failure(e) && holds_error_frame::<C>(
                        b,
                        room,
                        remote_code(e),
                        remote_message(e),
                    )
            }
        } else {
            holds_frame(b, MSG_TYPE::REPL) || holds_frame(b, MSG_TYPE::ERR)
        },
        Err(e) => holds_error_frame::<C>(b, room, 0, error_message(e)),
    }
}

/// The buffer holds the frame that answers a request that was decoded into
/// `decoded`, with `room` bytes after the descriptor: for a request that could
/// not be decoded, an error frame with the decoding error; for a decoded one,
/// the frame that answers one outcome that `worker` may give for it.
pub open spec fn answers<C, Req, Repl, W>(
    worker: W,
    decoded: SleanResult<Req>,
    b: BufView,
    room: nat,
) -> bool where C: Codec<Repl> + Codec<RemoteError>, W: Fn(&Req) -> SleanResult<Repl> {
    match decoded {
        Err(e) => holds_error_frame::<C>(b, room, remote_code(e), remote_message(e)),
        Ok(req) => exists|outcome: SleanResult<Repl>|
            #![trigger call_ensures(worker, (&req,), outcome)]
            call_ensures(worker, (&req,), outcome) && holds_reply::<C, Repl>(b, room, outcome),
    }
}

/// Whatever the request and whatever the worker gives, the answer is one
/// frame committed at the start of the buffer, and it is a reply or an error.
pub proof fn lemma_answer_is_one_frame<C, Req, Repl, W>(
    worker: W,
    decoded: SleanResult<Req>,
    b: BufView,
    room: nat,
) where C: Codec<Repl> + Codec<RemoteError>, W: Fn(&Req) -> SleanResult<Repl>
    requires
        answers::<C, Req, Repl, W>(worker, decoded, b, room),
    ensures
        holds_frame(b, MSG_TYPE::REPL) || holds_frame(b, MSG_TYPE::ERR),
{
    match decoded {
        Err(e) => {},
        Ok(req) => {
            let outcome = choose|outcome: SleanResult<Repl>|
                #![trigger call_ensures(worker, (&req,), outcome)]
                call_ensures(worker, (&req,), outcome) && holds_reply::<C, Repl>(b, room, outcome);
            assert(holds_reply::<C, Repl>(b, room, outcome));
        },
    }
}

/// A service that answers each request with one reply: requests and replies
/// go through the codec `C`, and `worker` computes a reply for a request.
#[verifier::reject_recursive_types(C)]
#[verifier::reject_recursive_types(Req)]
#[verifier::reject_recursive_types(Repl)]
#[verifier::reject_recursive_types(W)]
pub struct OneReplyService<C, Req, Repl, W> where W: Fn(&Req) -> SleanResult<Repl> {
    worker: W,
    _codec: PhantomData<C>,
    _req: PhantomData<Req>,
    _repl: PhantomData<Repl>,
}

impl<C, Req, Repl, W> OneReplyService<C, Req, Repl, W> where W: Fn(&Req) -> SleanResult<Repl> {
    /// The worker can be called on every request.
    #[verifier::type_invariant]
    pub closed spec fn inv(&self) -> bool {
        forall|req: &Req| #[trigger] call_requires(self.worker, (req,))
    }

    /// The worker of the service.
    pub closed spec fn worker(&self) -> W {
        self.worker
    }
}

impl<C, Req, Repl, W> OneReplyService<C, Req, Repl, W> where
    C: Codec<Repl> + Codec<Req> + Codec<RemoteError>,
    W: Fn(&Req) -> SleanResult<Repl>,
 {
    /// A service that answers requests with `worker`.
    pub fn new(worker: W) -> (s: Self)
        requires
            forall|req: &Req| #[trigger] call_requires(worker, (req,)),
        ensures
            s.worker() == worker,
    {
        OneReplyService { worker, _codec: PhantomData, _req: PhantomData, _repl: PhantomData }
    }

    /// Commits the bytes written after the reserved descriptor as a frame.
    fn commit_frame(kind: MSG_TYPE, write_buff: &mut SleamBuf)
        requires
            old(write_buff)@.read_pos == FRAME_DESC_SIZE_BYTES,
        ensures
            holds_frame(final(write_buff)@, kind),
            frame_body(final(write_buff)@) == old(write_buff)@.content(),
            final(write_buff)@.data.len() == old(write_buff)@.data.len(),
    {
        proof {
            use_type_invariant(&*write_buff);
            vstd::bytes::lemma_auto_spec_u64_to_from_le_bytes();
        }
        let ghost before = write_buff@;
        write_buff.commit(kind);
        proof {
            assert(write_buff@.data.subrange(
                FRAME_DESC_SIZE_BYTES as int,
                write_buff@.write_pos as int,
            ) =~= before.content());
        }
    }

    /// Writes `remote` as an error frame. Should the error not fit, the frame
    /// carries no body.
    fn write_error(remote: RemoteError, write_buff: &mut SleamBuf) -> (kind: MSG_TYPE)
        requires
            old(write_buff)@.read_pos == FRAME_DESC_SIZE_BYTES,
            old(write_buff)@.write_pos == FRAME_DESC_SIZE_BYTES,
        ensures
            kind == MSG_TYPE::ERR,
            holds_error_frame::<C>(
                final(write_buff)@,
                old(write_buff)@.available(),
                remote.0,
                remote.1@,
            ),
            final(write_buff)@.data.len() == old(write_buff)@.data.len(),
    {
        proof {
            use_type_invariant(&*write_buff);
        }
        let ghost code = remote.0;
        let ghost msg = remote.1@;
        let ghost room = write_buff@.available();
        let written = <C as Codec<RemoteError>>::write(&remote, write_buff);
        match written {
            Ok(_) => {},
            Err(_) => {
                write_buff.reset(FRAME_DESC_SIZE_BYTES);
            },
        }
        let ghost body = write_buff@.content();
        Self::commit_frame(MSG_TYPE::ERR, write_buff);
        proof {
            assert(frame_body(write_buff@) == body);
            if <C as Codec<RemoteError>>::exact() {
                assert(remote.0 == code && remote.1@ == msg);
                if <C as Codec<RemoteError>>::encoding(remote).len() <= room {
                    assert(body =~= <C as Codec<RemoteError>>::encoding(remote));
                } else {
                    assert(body.len() == 0);
                }
            }
        }
        MSG_TYPE::ERR
    }

    /// Writes the frame that answers a request whose worker gave `outcome`:
    /// a reply frame with the encoded reply, or, when the reply cannot be
    /// encoded, an error frame with the encoding error; a worker error gives
    /// an error frame under code 0 with the error's text.
    pub fn reply(outcome: SleanResult<Repl>, write_buff: &mut SleamBuf) -> (kind: MSG_TYPE)
        ensures
            holds_frame(final(write_buff)@, kind),
            final(write_buff)@.data.len() == old(write_buff)@.data.len(),
            holds_reply::<C, Repl>(
                final(write_buff)@,
                (old(write_buff)@.data.len() - FRAME_DESC_SIZE_BYTES) as nat,
                outcome,
            ),
            outcome is Err ==> kind == MSG_TYPE::ERR,
            kind == MSG_TYPE::REPL || kind == MSG_TYPE::ERR,
    {
        proof {
            use_type_invariant(&*write_buff);
        }
        write_buff.reset(FRAME_DESC_SIZE_BYTES);
        match outcome {
            Ok(repl) => {
                match <C as Codec<Repl>>::write(&repl, write_buff) {
                    Ok(_) => {
                        Self::commit_frame(MSG_TYPE::REPL, write_buff);
                        MSG_TYPE::REPL
                    },
                    Err(err) => {
                        write_buff.reset(FRAME_DESC_SIZE_BYTES);
                        Self::write_error(err.to_remote_error(), write_buff)
                    },
                }
            },
            Err(err) => {
                let msg = err.message();
                Self::write_error((0, msg), write_buff)
            },
        }
    }

    /// Answers a request that was decoded into `decoded`: a request that
    /// could not be decoded gets an error frame carrying the decoding error;
    /// a decoded one is handed to the worker and answered by [`Self::reply`].
    pub fn respond(&self, decoded: SleanResult<Req>, write_buff: &mut SleamBuf) -> (kind: MSG_TYPE)
        requires
            decoded is Err ==> remote_convertible(decoded->Err_0),
        ensures
            holds_frame(final(write_buff)@, kind),
            final(write_buff)@.data.len() == old(write_buff)@.data.len(),
            decoded is Err ==> kind == MSG_TYPE::ERR,
            answers::<C, Req, Repl, W>(
                self.worker(),
                decoded,
                final(write_buff)@,
                (old(write_buff)@.data.len() - FRAME_DESC_SIZE_BYTES) as nat,
            ),
            kind == MSG_TYPE::REPL || kind == MSG_TYPE::ERR,
    {
        proof {
            use_type_invariant(self);
            use_type_invariant(&*write_buff);
        }
        let ghost dec = decoded;
        match decoded {
            Ok(req) => {
                let outcome = (self.worker)(&req);
                let ghost given = outcome;
                let kind = Self::reply(outcome, write_buff);
                proof {
                    assert(dec->Ok_0 == req);
                    assert(call_ensures(self.worker(), (&dec->Ok_0,), given));
                }
                kind
            },
            Err(err) => {
                write_buff.reset(FRAME_DESC_SIZE_BYTES);
                Self::write_error(err.to_remote_error(), write_buff)
            },
        }
    }
}

impl<C, Req, Repl, W> ReplService for OneReplyService<C, Req, Repl, W> where
    C: Codec<Repl> + Codec<Req> + Codec<RemoteError>,
    W: Fn(&Req) -> SleanResult<Repl>,
 {
    /// The reply buffer keeps its size and holds the frame that answers the
    /// request as the codec reads it from the pending bytes of `request`,
    /// with all of its room after the descriptor available.
    open spec fn served(&self, request: BufView, reply_before: BufView, reply: BufView) -> bool {
        &&& reply.data.len() == reply_before.data.len()
        &&& exists|decoded: SleanResult<Req>|
            #![trigger answers::<C, Req, Repl, W>(self.worker(), decoded, reply, (reply_before.data.len() - FRAME_DESC_SIZE_BYTES) as nat)]
            (<C as Codec<Req>>::exact() ==> <C as Codec<Req>>::read_outcome(
                request.content(),
                decoded,
            )) && answers::<C, Req, Repl, W>(
                self.worker(),
                decoded,
                reply,
                (reply_before.data.len() - FRAME_DESC_SIZE_BYTES) as nat,
            )
    }

    /// Reads a request from the request buffer and writes the frame that
    /// answers it into the reply buffer, as [`OneReplyService::respond`] does;
    /// the request is read as the codec reads it, and a separate request
    /// buffer keeps its bytes, only its read cursor moving, by as many bytes
    /// as the codec reads where it describes its reads.
    fn execute(&self, io_buf: &mut IoBuf)
        ensures
            match (*old(io_buf), *final(io_buf)) {
                (IoBuf::Splited(q0, _), IoBuf::Splited(q, _)) => {
                    &&& (*q)@.data == (*q0)@.data
                    &&& (*q)@.write_pos == (*q0)@.write_pos
                    &&& (*q0)@.read_pos <= (*q)@.read_pos
                    &&& <C as Codec<Req>>::exact() ==> (*q)@.read_pos == (*q0)@.read_pos
                        + <C as Codec<Req>>::read_len((*q0)@.content())
                },
                _ => true,
            },
    {
        let read_buff = io_buf.read_buf();
        let decoded = <C as Codec<Req>>::read(read_buff);
        let write_buff = io_buf.write_buf();
        let _ = self.respond(decoded, write_buff);
    }
}

} // verus!
