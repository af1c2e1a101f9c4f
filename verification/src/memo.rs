use vstd::prelude::*;
use vstd::bytes::{spec_u64_from_le_bytes, spec_u64_to_le_bytes, u64_to_le_bytes};

use crate::error::IoKind;
use crate::protocol::{
    desc_code, desc_len, lemma_build_desc_roundtrip, spec_build_desc, type_code, valid_desc,
    FrameDescriptor, FRAME_DESC_SIZE_BYTES, MAX_MSG_SIZE_BYTES, MSG_TYPE,
};

verus! {

/// Buffers of at most this many bytes are given this many bytes.
pub const STACK_BUF_SIZE: u32 = 8192;

/// The abstract state of a [`SleamBuf`]: its storage and the two cursors.
/// Bytes in `read_pos..write_pos` are written and not yet read.
pub struct BufView {
    pub data: Seq<u8>,
    pub read_pos: nat,
    pub write_pos: nat,
}

impl BufView {
    /// The cursors lie within the storage, which has room for a frame
    /// descriptor and whose size fits in a `u32`.
    pub open spec fn wf(self) -> bool {
        &&& FRAME_DESC_SIZE_BYTES <= self.data.len()
        &&& self.read_pos <= self.write_pos
        &&& self.write_pos <= self.data.len()
        &&& self.data.len() <= u32::MAX
    }

    /// The bytes written and not yet read.
    pub open spec fn content(self) -> Seq<u8> {
        self.data.subrange(self.read_pos as int, self.write_pos as int)
    }

    /// The number of bytes written and not yet read.
    pub open spec fn len(self) -> nat {
        (self.write_pos - self.read_pos) as nat
    }

    /// The room left after the write cursor.
    pub open spec fn available(self) -> nat {
        (self.data.len() - self.write_pos) as nat
    }
}

/// The bytes of a frame of kind `kind` carrying `body`: the little-endian
/// descriptor announcing the body, then the body.
pub open spec fn frame_bytes(kind: MSG_TYPE, body: Seq<u8>) -> Seq<u8> {
    spec_u64_to_le_bytes(spec_build_desc(kind, body.len() as u32)) + body
}

/// A frame carrying a body of at most the largest size starts with eight
/// bytes that decode, little-endian, to a descriptor that validation accepts,
/// that announces the length of the body and the kind of the frame; the body
/// follows them unchanged.
pub proof fn lemma_frame_header_decodes(kind: MSG_TYPE, body: Seq<u8>)
    requires
        body.len() <= MAX_MSG_SIZE_BYTES,
    ensures
        frame_bytes(kind, body).len() == FRAME_DESC_SIZE_BYTES + body.len(),
        frame_bytes(kind, body).skip(FRAME_DESC_SIZE_BYTES as int) == body,
        spec_u64_from_le_bytes(frame_bytes(kind, body).take(FRAME_DESC_SIZE_BYTES as int))
            == spec_build_desc(kind, body.len() as u32),
        valid_desc(spec_build_desc(kind, body.len() as u32)),
        desc_len(spec_build_desc(kind, body.len() as u32)) == body.len(),
        desc_code(spec_build_desc(kind, body.len() as u32)) == type_code(kind),
{
    vstd::bytes::lemma_auto_spec_u64_to_from_le_bytes();
    lemma_build_desc_roundtrip(kind, body.len() as u32);
    let header = spec_u64_to_le_bytes(spec_build_desc(kind, body.len() as u32));
    assert(frame_bytes(kind, body).take(8) =~= header);
    assert(frame_bytes(kind, body).skip(8) =~= body);
}

/// The buffer after `bytes` are written after its written bytes.
pub open spec fn appended(b: BufView, bytes: Seq<u8>) -> BufView {
    BufView {
        data: b.data.take(b.write_pos as int) + bytes + b.data.skip((b.write_pos + bytes.len()) as int),
        read_pos: b.read_pos,
        write_pos: b.write_pos + bytes.len(),
    }
}

/// The buffer after `n` of its pending bytes are read.
pub open spec fn consumed(b: BufView, n: nat) -> BufView {
    BufView { data: b.data, read_pos: b.read_pos + n, write_pos: b.write_pos }
}

/// Bytes written to a buffer with room for them come after the bytes that
/// were pending, in order: once those are read, exactly the written bytes
/// are pending, and the buffer stays well formed throughout.
pub proof fn lemma_write_then_read(b: BufView, bytes: Seq<u8>)
    requires
        b.wf(),
        bytes.len() <= b.available(),
    ensures
        appended(b, bytes).wf(),
        appended(b, bytes).content() == b.content() + bytes,
        consumed(appended(b, bytes), b.len()).wf(),
        consumed(appended(b, bytes), b.len()).content() == bytes,
        appended(b, bytes).content().take(b.len() as int) == b.content(),
{
    let a = appended(b, bytes);
    assert(a.content() =~= b.content() + bytes);
    assert(consumed(a, b.len()).content() =~= bytes);
    assert(a.content().take(b.len() as int) =~= b.content());
}

/// Room after the write cursor only shrinks by what is written: writing
/// `bytes` takes exactly their length from it, reading frees none of it, and
/// the storage keeps its size.
pub proof fn lemma_room_follows_writes(b: BufView, bytes: Seq<u8>, n: nat)
    requires
        b.wf(),
        bytes.len() <= b.available(),
        n <= b.len(),
    ensures
        appended(b, bytes).available() == b.available() - bytes.len(),
        appended(b, bytes).data.len() == b.data.len(),
        consumed(b, n).available() == b.available(),
        consumed(b, n).data.len() == b.data.len(),
{
}

/// The pending bytes are as many as the buffer counts, and they and the room
/// after them together never exceed the storage, whose size no operation
/// changes.
pub proof fn lemma_pending_and_room_fit(b: BufView)
    requires
        b.wf(),
    ensures
        b.content().len() == b.len(),
        b.len() + b.available() <= b.data.len(),
{
}

/// The storage size given for a requested size.
pub open spec fn storage_size(len: nat) -> nat {
    if len > STACK_BUF_SIZE {
        len
    } else {
        STACK_BUF_SIZE as nat
    }
}

/// What a copy loop does after one transfer attempt.
#[derive(Debug, Clone, Copy, PartialEq, Eq, Structural)]
pub enum CopyStep {
    /// Try again.
    Continue,
    /// Stop and report this many bytes copied.
    Done(u32),
    /// Stop and report the failure of the attempt.
    Fail,
}

/// What one read or write attempt on a stream reported.
#[derive(Debug, Clone, Copy, PartialEq, Eq, Structural)]
pub enum IoEvent {
    /// This many bytes went through.
    Transferred(usize),
    /// The stream has nothing more for now.
    WouldBlock,
    /// The attempt was interrupted and may be retried.
    Interrupted,
    /// The attempt failed for another reason.
    Failed,
}

/// A message buffer with a read cursor and a write cursor.
#[derive(Debug)]
pub struct SleamBuf {
    data: Vec<u8>,
    read_pos: usize,
    write_pos: usize,
}

impl View for SleamBuf {
    type V = BufView;

    closed spec fn view(&self) -> BufView {
        BufView { data: self.data@, read_pos: self.read_pos as nat, write_pos: self.write_pos as nat }
    }
}

impl SleamBuf {
    /// Every buffer keeps its cursors within its storage.
    #[verifier::type_invariant]
    pub open spec fn inv(&self) -> bool {
        self@.wf()
    }

    /// A buffer with room for `len` bytes after `reserve` reserved bytes; both
    /// cursors start at `reserve`. The storage has `len + reserve` bytes, and
    /// at least `STACK_BUF_SIZE`.
    pub fn alloc_and_reserve(len: u32, reserve: usize) -> (b: Self)
        requires
            len + reserve <= u32::MAX,
        ensures
            b@.data == Seq::new(storage_size((len + reserve) as nat), |i: int| 0u8),
            b@.read_pos == reserve,
            b@.write_pos == reserve,
    {
        SleamBuf {
            data: SleamBuf::create_buffer(len + reserve as u32),
            read_pos: reserve,
            write_pos: reserve,
        }
    }

    /// A buffer with room for `len` bytes and nothing reserved.
    pub fn allocate(len: u32) -> (b: Self)
        ensures
            b@.data == Seq::new(storage_size(len as nat), |i: int| 0u8),
            b@.read_pos == 0,
            b@.write_pos == 0,
    {
        Self::alloc_and_reserve(len, 0)
    }

    /// The storage size given to a buffer asked to hold `len` bytes.
    pub fn storage_for(len: u32) -> (size: u32)
        ensures
            size == storage_size(len as nat),
    {
        if len > STACK_BUF_SIZE {
            len
        } else {
            STACK_BUF_SIZE
        }
    }

    fn create_buffer(len: u32) -> (v: Vec<u8>)
        ensures
            v@ == Seq::new(storage_size(len as nat), |i: int| 0u8),
    {
        let size = SleamBuf::storage_for(len);
        let v = vec![0u8; size as usize];
        proof {
            assert(v@ =~= Seq::new(storage_size(len as nat), |i: int| 0u8));
        }
        v
    }

    /// Turns the bytes written after the reserved descriptor into a frame of
    /// kind `msg_type`: the descriptor announcing them is stored in the first
    /// eight bytes and the read cursor moves back to the start of the frame.
    pub fn commit(&mut self, msg_type: MSG_TYPE)
        requires
            old(self)@.read_pos == FRAME_DESC_SIZE_BYTES,
        ensures
            final(self)@.read_pos == 0,
            final(self)@.write_pos == old(self)@.write_pos,
            final(self)@.data == spec_u64_to_le_bytes(
                spec_build_desc(msg_type, old(self)@.len() as u32),
            ) + old(self)@.data.skip(FRAME_DESC_SIZE_BYTES as int),
            final(self)@.content() == frame_bytes(msg_type, old(self)@.content()),
    {
        proof {
            use_type_invariant(&*self);
            vstd::bytes::lemma_auto_spec_u64_to_from_le_bytes();
        }
        let msg_len = self.len() as u32;
        let frame_desc = FrameDescriptor::build_desc(msg_type, msg_len);
        let bytes = u64_to_le_bytes(frame_desc);
        let ghost old_data = self.data@;
        let mut i: usize = 0;
        while i < FRAME_DESC_SIZE_BYTES
            invariant
                i <= FRAME_DESC_SIZE_BYTES,
                bytes@.len() == 8,
                self.read_pos == FRAME_DESC_SIZE_BYTES,
                self.write_pos == old(self).write_pos,
                self.data@.len() == old_data.len(),
                self.read_pos <= self.write_pos <= self.data@.len() <= u32::MAX,
                forall|j: int| 0 <= j < i ==> self.data@[j] == bytes@[j],
                forall|j: int| i <= j < old_data.len() ==> self.data@[j] == old_data[j],
                old_data == old(self).data@,
            decreases FRAME_DESC_SIZE_BYTES - i,
        {
            self.data[i] = bytes[i];
            i = i + 1;
        }
        self.read_pos = 0;
        proof {
            assert(self.data@ =~= bytes@ + old_data.skip(8));
            assert(self@.content() =~= bytes@ + old(self)@.content());
        }
    }

    /// The number of bytes written and not yet read.
    pub fn len(&self) -> (n: usize)
        ensures
            n == self@.len(),
    {
        proof {
            use_type_invariant(self);
        }
        self.write_pos - self.read_pos
    }

    /// The room left after the write cursor.
    pub fn write_available(&self) -> (n: usize)
        ensures
            n == self@.available(),
    {
        proof {
            use_type_invariant(self);
        }
        self.data.len() - self.write_pos
    }

    /// The bytes written and not yet read.
    pub fn read_slice(&self) -> (s: &[u8])
        ensures
            s@ == self@.content(),
    {
        proof {
            use_type_invariant(self);
        }
        vstd::slice::slice_subrange(self.data.as_slice(), self.read_pos, self.write_pos)
    }

    /// Returns true if there are unread bytes in the buffer.
    pub fn is_empty(&self) -> (b: bool)
        ensures
            b == (self@.len() > 0),
    {
        proof {
            use_type_invariant(self);
        }
        self.write_pos != self.read_pos
    }

    /// Appends `buf` after the written bytes, as a writer does: when the room
    /// left is smaller than `buf`, nothing is written and the write fails with
    /// `OutOfMemory`.
    pub fn write_bytes(&mut self, buf: &[u8]) -> (r: Result<usize, IoKind>)
        ensures
            final(self)@.read_pos == old(self)@.read_pos,
            final(self)@.data.len() == old(self)@.data.len(),
            old(self)@.available() < buf@.len() ==> r == Err::<usize, IoKind>(IoKind::OutOfMemory)
                && final(self)@ == old(self)@,
            old(self)@.available() >= buf@.len() ==> r == Ok::<usize, IoKind>(buf@.len() as usize)
                && final(self)@ == appended(old(self)@, buf@),
            r is Ok ==> final(self)@.content() == old(self)@.content() + buf@,
    {
        proof {
            use_type_invariant(&*self);
        }
        if self.write_available() < buf.len() {
            return Err(IoKind::OutOfMemory);
        }
        let ghost old_data = self.data@;
        let from = self.write_pos;
        let n = buf.len();
        let mut i: usize = 0;
        while i < n
            invariant
                i <= n,
                n == buf@.len(),
                from == old(self).write_pos,
                from + n <= old_data.len(),
                self.read_pos == old(self).read_pos,
                self.write_pos == from,
                self.data@.len() == old_data.len(),
                old_data == old(self).data@,
                old(self).inv(),
                forall|j: int| 0 <= j < from ==> self.data@[j] == old_data[j],
                forall|j: int| 0 <= j < i ==> self.data@[from + j] == buf@[j],
                forall|j: int| from + i <= j < old_data.len() ==> self.data@[j] == old_data[j],
            decreases n - i,
        {
            self.data[from + i] = buf[i];
            i = i + 1;
        }
        self.write_pos = from + n;
        proof {
            assert(self.data@ =~= old_data.take(from as int) + buf@ + old_data.skip(from + n));
            assert(self@.content() =~= old(self)@.content() + buf@);
        }
        Ok(n)
    }

    /// Moves pending bytes into `buf`, as a reader does: as many as are
    /// pending or as `buf` holds, whichever is fewer, taken from the front.
    pub fn read_bytes(&mut self, buf: &mut [u8]) -> (n: usize)
        ensures
            n == if old(self)@.len() < old(buf)@.len() {
                old(self)@.len()
            } else {
                old(buf)@.len()
            },
            final(buf)@ == old(self)@.content().take(n as int) + old(buf)@.skip(n as int),
            final(self)@ == consumed(old(self)@, n as nat),
            final(self)@.content() == old(self)@.content().skip(n as int),
    {
        proof {
            use_type_invariant(&*self);
        }
        let pending = self.len();
        let to_read = if pending < buf.len() {
            pending
        } else {
            buf.len()
        };
        let from = self.read_pos;
        let mut i: usize = 0;
        while i < to_read
            invariant
                i <= to_read,
                to_read <= pending,
                to_read <= old(buf)@.len(),
                pending == old(self)@.len(),
                from == old(self).read_pos,
                self.data@ == old(self).data@,
                self.read_pos == old(self).read_pos,
                self.write_pos == old(self).write_pos,
                old(self).inv(),
                buf@.len() == old(buf)@.len(),
                forall|j: int| 0 <= j < i ==> buf@[j] == self.data@[from + j],
                forall|j: int| i <= j < buf@.len() ==> buf@[j] == old(buf)@[j],
            decreases to_read - i,
        {
            buf[i] = self.data[from + i];
            i = i + 1;
        }
        self.read_pos = from + to_read;
        proof {
            assert(buf@ =~= old(self)@.content().take(to_read as int) + old(buf)@.skip(to_read as int));
            assert(self@.content() =~= old(self)@.content().skip(to_read as int));
        }
        to_read
    }

    /// Moves the first `len` pending bytes of `input` after the written bytes
    /// of this buffer, reading `input` as a reader until `len` bytes came.
    pub fn copy_from_buf(&mut self, input: &mut SleamBuf, len: u32) -> (n: u32)
        requires
            len <= old(input)@.len(),
            len <= old(self)@.available(),
        ensures
            n == len,
            final(self)@.read_pos == old(self)@.read_pos,
            final(self)@.write_pos == old(self)@.write_pos + len,
            final(self)@.data.len() == old(self)@.data.len(),
            final(self)@.content() == old(self)@.content() + old(input)@.content().take(len as int),
            final(input)@.data == old(input)@.data,
            final(input)@.write_pos == old(input)@.write_pos,
            final(input)@.read_pos == old(input)@.read_pos + len,
            final(input)@.content() == old(input)@.content().skip(len as int),
    {
        proof {
            use_type_invariant(&*self);
            use_type_invariant(&*input);
        }
        let mut tmp: Vec<u8> = vec![0u8; len as usize];
        let _ = input.read_bytes(tmp.as_mut_slice());
        proof {
            assert(tmp@ =~= old(input)@.content().take(len as int));
        }
        let _ = self.write_bytes(tmp.as_slice());
        len
    }

    /// One step of copying the pending bytes out to a writer. `start_len` is
    /// the number of pending bytes when the copy began and `ev` what the last
    /// write attempt reported (`None` before the first attempt). Written bytes
    /// count as read; the copy ends when nothing is pending (reporting
    /// `start_len`), when the writer would block (reporting the bytes copied so
    /// far), or fails with the writer.
    pub fn copy_to_step(&mut self, start_len: usize, ev: Option<IoEvent>) -> (step: CopyStep)
        requires
            old(self)@.len() <= start_len <= u32::MAX,
            ev matches Some(IoEvent::Transferred(n)) ==> n <= old(self)@.len(),
        ensures
            final(self)@.data == old(self)@.data,
            final(self)@.write_pos == old(self)@.write_pos,
            final(self)@.read_pos == match ev {
                Some(IoEvent::Transferred(n)) => old(self)@.read_pos + n,
                _ => old(self)@.read_pos as int,
            },
            step == match ev {
                Some(IoEvent::WouldBlock) => CopyStep::Done((start_len - old(self)@.len()) as u32),
                Some(IoEvent::Failed) => CopyStep::Fail,
                Some(IoEvent::Interrupted) => CopyStep::Continue,
                _ => if final(self)@.len() == 0 {
                    CopyStep::Done(start_len as u32)
                } else {
                    CopyStep::Continue
                },
            },
    {
        proof {
            use_type_invariant(&*self);
        }
        match ev {
            Some(IoEvent::Transferred(n)) => {
                self.read_pos = self.read_pos + n;
            },
            Some(IoEvent::WouldBlock) => {
                return CopyStep::Done((start_len - self.len()) as u32);
            },
            Some(IoEvent::Interrupted) => {
                return CopyStep::Continue;
            },
            Some(IoEvent::Failed) => {
                return CopyStep::Fail;
            },
            None => {},
        }
        if self.len() == 0 {
            CopyStep::Done(start_len as u32)
        } else {
            CopyStep::Continue
        }
    }

    /// One step of reading `len` bytes from a reader into this buffer. `left`
    /// is the number of bytes still wanted before the step, `ev` what the last
    /// read attempt reported (`None` before the first attempt) and `received`
    /// the bytes it delivered. Returns the bytes still wanted and what to do:
    /// the read ends when nothing is wanted (reporting `len`), when the reader
    /// would block (reporting the bytes read so far), or fails with the reader.
    pub fn copy_from_step(&mut self, len: u32, left: u32, ev: Option<IoEvent>, received: &[u8]) -> (r: (u32, CopyStep))
        requires
            left <= len,
            left <= old(self)@.available(),
            ev matches Some(IoEvent::Transferred(n)) ==> n <= left && received@.len() == n,
        ensures
            final(self)@.read_pos == old(self)@.read_pos,
            final(self)@.data.len() == old(self)@.data.len(),
            r.0 <= left,
            r.0 <= final(self)@.available(),
            match ev {
                Some(IoEvent::Transferred(n)) => {
                    &&& final(self)@.content() == old(self)@.content() + received@
                    &&& final(self)@.write_pos == old(self)@.write_pos + n
                    &&& r.0 == left - n
                },
                _ => final(self)@ == old(self)@ && r.0 == left,
            },
            r.1 == match ev {
                Some(IoEvent::WouldBlock) => CopyStep::Done((len - left) as u32),
                Some(IoEvent::Failed) => CopyStep::Fail,
                Some(IoEvent::Interrupted) => CopyStep::Continue,
                _ => if r.0 == 0 {
                    CopyStep::Done(len)
                } else {
                    CopyStep::Continue
                },
            },
    {
        proof {
            use_type_invariant(&*self);
        }
        let mut left = left;
        match ev {
            Some(IoEvent::Transferred(n)) => {
                let _ = self.write_bytes(received);
                left = left - n as u32;
            },
            Some(IoEvent::WouldBlock) => {
                return (left, CopyStep::Done(len - left));
            },
            Some(IoEvent::Interrupted) => {
                return (left, CopyStep::Continue);
            },
            Some(IoEvent::Failed) => {
                return (left, CopyStep::Fail);
            },
            None => {},
        }
        if left == 0 {
            (left, CopyStep::Done(len))
        } else {
            (left, CopyStep::Continue)
        }
    }

    /// Discards all data in the buffer.
    pub fn clear(&mut self)
        ensures
            final(self)@.data == old(self)@.data,
            final(self)@.read_pos == 0,
            final(self)@.write_pos == 0,
    {
        proof {
            use_type_invariant(&*self);
        }
        self.reset(0);
    }

    /// Marks up to `to_skip` pending bytes as read; skipping more than are
    /// pending empties the buffer.
    pub fn skip(&mut self, to_skip: u32)
        ensures
            final(self)@.data == old(self)@.data,
            final(self)@.write_pos == old(self)@.write_pos,
            final(self)@.read_pos == if old(self)@.len() >= to_skip {
                old(self)@.read_pos + to_skip
            } else {
                old(self)@.write_pos as int
            },
    {
        proof {
            use_type_invariant(&*self);
        }
        if self.len() >= to_skip as usize {
            self.read_pos = self.read_pos + to_skip as usize;
        } else {
            self.read_pos = self.write_pos;
        }
    }

    /// Fills the room after the write cursor with `bytes`, from the cursor on,
    /// without counting them as written: [`Self::advance`] does that.
    pub fn fill_room(&mut self, bytes: &[u8])
        requires
            bytes@.len() <= old(self)@.available(),
        ensures
            final(self)@.read_pos == old(self)@.read_pos,
            final(self)@.write_pos == old(self)@.write_pos,
            final(self)@.data == old(self)@.data.take(old(self)@.write_pos as int) + bytes@
                + old(self)@.data.skip((old(self)@.write_pos + bytes@.len()) as int),
    {
        proof {
            use_type_invariant(&*self);
        }
        let ghost old_data = self.data@;
        let from = self.write_pos;
        let n = bytes.len();
        let mut i: usize = 0;
        while i < n
            invariant
                i <= n,
                n == bytes@.len(),
                from == old(self).write_pos,
                from + n <= old_data.len(),
                self.read_pos == old(self).read_pos,
                self.write_pos == from,
                self.data@.len() == old_data.len(),
                old_data == old(self).data@,
                old(self).inv(),
                forall|j: int| 0 <= j < from ==> self.data@[j] == old_data[j],
                forall|j: int| 0 <= j < i ==> self.data@[from + j] == bytes@[j],
                forall|j: int| from + i <= j < old_data.len() ==> self.data@[j] == old_data[j],
            decreases n - i,
        {
            self.data[from + i] = bytes[i];
            i = i + 1;
        }
        proof {
            assert(self.data@ =~= old_data.take(from as int) + bytes@ + old_data.skip(from + n));
        }
    }

    /// Counts `advance_by` more bytes after the write cursor as written.
    pub fn advance(&mut self, advance_by: usize)
        requires
            advance_by <= old(self)@.available(),
        ensures
            final(self)@.data == old(self)@.data,
            final(self)@.read_pos == old(self)@.read_pos,
            final(self)@.write_pos == old(self)@.write_pos + advance_by,
    {
        proof {
            use_type_invariant(&*self);
        }
        self.write_pos = self.write_pos + advance_by;
    }

    /// Empties the buffer and places both cursors at `reserve`.
    pub fn reset(&mut self, reserve: usize)
        requires
            reserve <= old(self)@.data.len(),
        ensures
            final(self)@.data == old(self)@.data,
            final(self)@.read_pos == reserve,
            final(self)@.write_pos == reserve,
    {
        proof {
            use_type_invariant(&*self);
        }
        if reserve <= self.read_pos {
            self.read_pos = reserve;
            self.write_pos = reserve;
        } else {
            self.write_pos = reserve;
            self.read_pos = reserve;
        }
    }
}

impl Default for SleamBuf {
    /// A buffer for one frame of the largest size, with its descriptor reserved.
    fn default() -> (b: Self)
        ensures
            b@.data.len() == MAX_MSG_SIZE_BYTES + FRAME_DESC_SIZE_BYTES,
            b@.data == Seq::new((MAX_MSG_SIZE_BYTES + FRAME_DESC_SIZE_BYTES) as nat, |i: int| 0u8),
            b@.read_pos == FRAME_DESC_SIZE_BYTES,
            b@.write_pos == FRAME_DESC_SIZE_BYTES,
    {
        SleamBuf::alloc_and_reserve(MAX_MSG_SIZE_BYTES, FRAME_DESC_SIZE_BYTES)
    }
}

} // verus!
