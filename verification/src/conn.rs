use vstd::prelude::*;
use vstd::bytes::spec_u64_from_le_bytes;

use byteorder::{ByteOrder, LittleEndian};

use crate::error::IoKind;
use crate::memo::{appended, frame_bytes, storage_size, BufView, CopyStep, IoEvent, SleamBuf};
use crate::protocol::{desc_code, desc_len, valid_desc, FrameDescriptor, FRAME_DESC_SIZE_BYTES, MSG_TYPE, REQ};
use crate::service::{IoBuf, ReplService};

verus! {

/// byteorder's `LittleEndian::read_u64`: the first eight bytes of `buf` read
/// as a little-endian number (it panics on fewer than eight).
#[verifier::external_body]
fn le_read_u64(buf: &[u8]) -> (v: u64)
    requires
        buf@.len() >= 8,
    ensures
        v == spec_u64_from_le_bytes(buf@.take(8)),
{
    LittleEndian::read_u64(buf)
}

/// What the reader of a connection does after a step.
#[derive(Debug, Clone, Copy, PartialEq, Eq, Structural)]
pub enum ReadProgress {
    /// Go on with the next frame.
    Continue,
    /// Stop reading and report this many bytes read.
    Return(u32),
}

/// The request length that a frame descriptor gives, if it is the valid
/// descriptor of a request.
pub open spec fn request_len(bytes: Seq<u8>) -> Option<u32> {
    let desc = spec_u64_from_le_bytes(bytes.take(8));
    if valid_desc(desc) && desc_code(desc) == REQ {
        Some(desc_len(desc))
    } else {
        None
    }
}

/// A request frame whose body is at most the largest size is accepted by the
/// reader of a connection, as a request of exactly the length of its body.
pub proof fn lemma_request_frame_accepted(body: Seq<u8>)
    requires
        body.len() <= crate::protocol::MAX_MSG_SIZE_BYTES,
    ensures
        request_len(frame_bytes(MSG_TYPE::REQ, body)) == Some(body.len() as u32),
{
    crate::memo::lemma_frame_header_decodes(MSG_TYPE::REQ, body);
}

/// The server side of one client connection, without its stream: how many
/// bytes of the current request are still to come, and the buffer that holds
/// a request still arriving or a reply still leaving.
pub struct Connection<'a, S: ReplService> {
    service: &'a S,
    pending_read: u32,
    pending_buff: Option<SleamBuf>,
}

impl<'a, S: ReplService> Connection<'a, S> {
    /// The service that answers the requests of the connection.
    pub closed spec fn service_spec(&self) -> &'a S {
        self.service
    }

    /// The bytes of the current request still to come.
    pub closed spec fn pending_read_spec(&self) -> u32 {
        self.pending_read
    }

    /// The buffer of the connection, by its state.
    pub closed spec fn pending_view(&self) -> Option<BufView> {
        match self.pending_buff {
            Some(b) => Some(b@),
            None => None,
        }
    }

    /// The connection's buffer is well formed, and a buffer that holds a
    /// request still arriving has room for the rest.
    pub open spec fn wf(&self) -> bool {
        &&& self.pending_view() is Some ==> self.pending_view()->Some_0.wf()
        &&& self.pending_view() is Some && self.pending_read_spec() > 0 ==> self.pending_view()->Some_0.available()
            >= self.pending_read_spec()
    }

    /// A connection with nothing arriving and nothing leaving.
    pub fn new(service: &'a S) -> (c: Self)
        ensures
            c.wf(),
            c.pending_read_spec() == 0,
            c.pending_view() is None,
    {
        Connection { service, pending_read: 0, pending_buff: None }
    }

    /// Whether a reply is waiting to be sent.
    pub fn is_write_pending(&self) -> (b: bool)
        ensures
            b == (self.pending_read_spec() == 0 && self.pending_view() is Some),
    {
        self.pending_read == 0 && self.pending_buff.is_some()
    }

    /// Whether a request is still arriving.
    pub fn is_read_pending(&self) -> (b: bool)
        ensures
            b == (self.pending_read_spec() > 0),
    {
        self.pending_read > 0
    }

    /// The bytes of the current request still to come.
    pub fn pending_read(&self) -> (n: u32)
        ensures
            n == self.pending_read_spec(),
    {
        self.pending_read
    }

    /// The pending bytes of the connection's buffer, if it has one.
    pub fn pending_bytes(&self) -> (s: Option<&[u8]>)
        ensures
            match self.pending_view() {
                Some(b) => s matches Some(x) && x@ == b.content(),
                None => s is None,
            },
    {
        match &self.pending_buff {
            Some(b) => Some(b.read_slice()),
            None => None,
        }
    }

    /// The room left in the connection's buffer, if it has one.
    pub fn pending_write_available(&self) -> (n: Option<usize>)
        ensures
            match self.pending_view() {
                Some(b) => n == Some(b.available() as usize),
                None => n is None,
            },
    {
        match &self.pending_buff {
            Some(b) => Some(b.write_available()),
            None => None,
        }
    }

    /// One step of sending the reply waiting in the connection's buffer, as
    /// in [`SleamBuf::copy_to_step`]; `start_len` is the number of bytes
    /// waiting when the send began. When no reply waits, or a request is still
    /// arriving, nothing is sent. Once the whole reply went out, the buffer is
    /// dropped.
    pub fn on_write_step(&mut self, start_len: usize, ev: Option<IoEvent>) -> (step: CopyStep)
        requires
            old(self).wf(),
            old(self).pending_view() matches Some(b) ==> b.len() <= start_len <= u32::MAX,
            ev matches Some(IoEvent::Transferred(n)) ==> old(self).pending_view() matches Some(b)
                && n <= b.len(),
        ensures
            final(self).wf(),
            final(self).pending_read_spec() == old(self).pending_read_spec(),
            old(self).pending_read_spec() != 0 || old(self).pending_view() is None ==> step
                == CopyStep::Done(0) && final(self).pending_view() == old(self).pending_view(),
            old(self).pending_read_spec() == 0 && old(self).pending_view() is Some ==> {
                let b = old(self).pending_view()->Some_0;
                let read_pos = match ev {
                    Some(IoEvent::Transferred(n)) => b.read_pos + n,
                    _ => b.read_pos as int,
                };
                &&& step == match ev {
                    Some(IoEvent::WouldBlock) => CopyStep::Done((start_len - b.len()) as u32),
                    Some(IoEvent::Failed) => CopyStep::Fail,
                    Some(IoEvent::Interrupted) => CopyStep::Continue,
                    _ => if read_pos == b.write_pos {
                        CopyStep::Done(start_len as u32)
                    } else {
                        CopyStep::Continue
                    },
                }
                &&& step is Done && read_pos == b.write_pos ==> final(self).pending_view() is None
                &&& !(step is Done && read_pos == b.write_pos) ==> final(self).pending_view()
                    == Some(BufView { data: b.data, read_pos: read_pos as nat, write_pos: b.write_pos })
            },
    {
        if self.pending_read != 0 {
            return CopyStep::Done(0);
        }
        match self.pending_buff.take() {
            Some(mut b) => {
                proof {
                    use_type_invariant(&b);
                }
                let ghost before = b@;
                let step = b.copy_to_step(start_len, ev);
                proof {
                    assert(b@.data == before.data);
                }
                let done = match step {
                    CopyStep::Done(_) => b.len() == 0,
                    _ => false,
                };
                if !done {
                    self.pending_buff = Some(b);
                }
                step
            },
            None => CopyStep::Done(0),
        }
    }

    /// Goes on reading a request that arrived in part: `received` are the
    /// bytes that came now. They join the connection's buffer; once the whole
    /// request is there, the service answers it into `rw_buff` and the
    /// connection's buffer is dropped, and the reader goes on with the next
    /// frame. Otherwise it stops and reports the bytes that came.
    pub fn after_pending_read(&mut self, received: &[u8], rw_buff: &mut SleamBuf) -> (r: ReadProgress)
        requires
            old(self).wf(),
            old(self).pending_read_spec() > 0,
            old(self).pending_view() is Some,
            received@.len() <= old(self).pending_read_spec(),
        ensures
            final(self).wf(),
            final(self).pending_read_spec() == old(self).pending_read_spec() - received@.len(),
            final(self).service_spec() == old(self).service_spec(),
            final(self).pending_read_spec() == 0 ==> r == ReadProgress::Continue
                && final(self).pending_view() is None && old(self).service_spec().served(
                appended(old(self).pending_view()->Some_0, received@),
                old(rw_buff)@,
                final(rw_buff)@,
            ),
            final(self).pending_read_spec() > 0 ==> {
                &&& r == ReadProgress::Return(received@.len() as u32)
                &&& final(rw_buff)@ == old(rw_buff)@
                &&& final(self).pending_view() is Some
                &&& final(self).pending_view()->Some_0.content() == old(self).pending_view()->Some_0.content()
                    + received@
                &&& final(self).pending_view()->Some_0.read_pos == old(self).pending_view()->Some_0.read_pos
            },
    {
        let mut b = self.pending_buff.take().unwrap();
        proof {
            use_type_invariant(&b);
        }
        let _ = b.write_bytes(received);
        let n = received.len() as u32;
        self.pending_read = self.pending_read - n;
        if self.pending_read == 0 {
            self.service.execute(&mut IoBuf::Splited(&mut b, rw_buff));
            ReadProgress::Continue
        } else {
            self.pending_buff = Some(b);
            ReadProgress::Return(n)
        }
    }

    /// Takes in the descriptor of the next frame, from its first eight bytes:
    /// a valid request descriptor gives the length of the request to come;
    /// anything else is invalid data.
    pub fn on_header(&mut self, header: &[u8]) -> (r: Result<u32, IoKind>)
        requires
            old(self).wf(),
            old(self).pending_view() is None,
            header@.len() >= FRAME_DESC_SIZE_BYTES,
        ensures
            final(self).wf(),
            final(self).pending_view() is None,
            match request_len(header@) {
                Some(len) => r == Ok::<u32, IoKind>(len) && final(self).pending_read_spec() == len,
                None => r == Err::<u32, IoKind>(IoKind::InvalidData) && final(self).pending_read_spec()
                    == 0,
            },
    {
        self.pending_read = 0;
        let descr = le_read_u64(header);
        let frame_desc = match FrameDescriptor::from_desc(descr) {
            Ok(fd) => fd,
            Err(_) => {
                return Err(IoKind::InvalidData);
            },
        };
        if !frame_desc.is_req() {
            return Err(IoKind::InvalidData);
        }
        self.pending_read = frame_desc.len();
        Ok(self.pending_read)
    }

    /// Takes in the bytes of a request body that came after its descriptor,
    /// into `rw_buff`. Once the whole request is there, the service answers it
    /// in place and the reply is to be sent; otherwise the bytes move to a
    /// buffer of the connection's own, `rw_buff` is emptied, and the reader
    /// stops and reports the bytes that came.
    pub fn after_body_read(&mut self, msg_len: u32, received: &[u8], rw_buff: &mut SleamBuf) -> (r: ReadProgress)
        requires
            old(self).wf(),
            old(self).pending_view() is None,
            old(self).pending_read_spec() == msg_len,
            received@.len() <= msg_len,
            received@.len() <= old(rw_buff)@.available(),
            received@.len() < msg_len ==> old(rw_buff)@.len() + msg_len <= storage_size(
                msg_len as nat,
            ),
        ensures
            final(self).wf(),
            final(self).pending_read_spec() == msg_len - received@.len(),
            final(self).service_spec() == old(self).service_spec(),
            received@.len() == msg_len ==> r == ReadProgress::Continue && final(self).pending_view() is None
                && old(self).service_spec().served(
                appended(old(rw_buff)@, received@),
                appended(old(rw_buff)@, received@),
                final(rw_buff)@,
            ),
            received@.len() < msg_len ==> {
                &&& r == ReadProgress::Return(received@.len() as u32)
                &&& final(rw_buff)@.len() == 0
                &&& final(self).pending_view() is Some
                &&& final(self).pending_view()->Some_0.content() == old(rw_buff)@.content() + received@
                &&& final(self).pending_view()->Some_0.read_pos == 0
            },
    {
        proof {
            use_type_invariant(&*rw_buff);
        }
        let _ = rw_buff.write_bytes(received);
        let n = received.len() as u32;
        self.pending_read = self.pending_read - n;
        if self.pending_read == 0 {
            self.service.execute(&mut IoBuf::One(rw_buff));
            ReadProgress::Continue
        } else {
            let mut conn_buf = SleamBuf::allocate(msg_len);
            proof {
                use_type_invariant(&*rw_buff);
            }
            let len = rw_buff.len() as u32;
            let _ = conn_buf.copy_from_buf(rw_buff, len);
            rw_buff.clear();
            self.pending_buff = Some(conn_buf);
            ReadProgress::Return(n)
        }
    }

    /// After an attempt to send the reply in `rw_buff`: what was not sent moves
    /// to a buffer of the connection's own, and `rw_buff` is emptied. Tells
    /// whether a reply is now waiting to be sent.
    pub fn after_send(&mut self, rw_buff: &mut SleamBuf) -> (pending: bool)
        requires
            old(self).wf(),
            old(self).pending_view() is None,
            old(self).pending_read_spec() == 0,
        ensures
            final(self).wf(),
            final(self).pending_read_spec() == 0,
            final(rw_buff)@.len() == 0,
            final(rw_buff)@.read_pos == 0,
            pending == (old(rw_buff)@.len() > 0),
            pending ==> final(self).pending_view() is Some && final(self).pending_view()->Some_0.content()
                == old(rw_buff)@.content() && final(self).pending_view()->Some_0.read_pos == 0,
            !pending ==> final(self).pending_view() is None,
    {
        proof {
            use_type_invariant(&*rw_buff);
        }
        let left = rw_buff.len() as u32;
        if left > 0 {
            let mut conn_buf = SleamBuf::allocate(left);
            let _ = conn_buf.copy_from_buf(rw_buff, left);
            self.pending_buff = Some(conn_buf);
        }
        rw_buff.clear();
        left > 0
    }
}

} // verus!
