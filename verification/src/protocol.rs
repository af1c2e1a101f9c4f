use vstd::prelude::*;

use crate::error::{
    decimal, format_prefixed_hex16, format_u32, format_upper_hex, pad_zeros, upper_hex, SleanError,
};
use vstd::string::StringExecFns;

verus! {

/// The kind of a frame.
#[allow(non_camel_case_types)]
#[derive(Debug, Clone, Copy, PartialEq, Eq, Structural)]
pub enum MSG_TYPE {
    REQ,
    REPL,
    ERR,
}

/// Size in bytes of the descriptor that starts every frame.
pub const FRAME_DESC_SIZE_BYTES: usize = 8;

/// Largest body a frame may carry: 2^21 minus the descriptor.
pub const MAX_MSG_SIZE_BYTES: u32 = 2097144;

/// Bits 22 to 24 of a descriptor, which must be zero.
pub const MASK_22_24: u64 = 0b111 << 22;

/// Type codes, stored in the top four bits of a descriptor.
pub const REQ: u64 = 0b0001;
pub const REPL: u64 = 0b1000;
pub const ERR: u64 = 0b1111;

/// Mask of the 21 length bits of a descriptor.
pub const LEN_MASK: u64 = 0x1FFFFF;

/// The type code of a frame kind.
pub open spec fn type_code(t: MSG_TYPE) -> u64 {
    match t {
        MSG_TYPE::REQ => REQ,
        MSG_TYPE::REPL => REPL,
        MSG_TYPE::ERR => ERR,
    }
}

/// The body length stored in a descriptor: its low 21 bits.
pub open spec fn desc_len(desc: u64) -> u32 {
    (desc & LEN_MASK) as u32
}

/// The type code stored in a descriptor: its top four bits.
pub open spec fn desc_code(desc: u64) -> u64 {
    desc >> 60
}

/// A descriptor is accepted when its length is at most the maximum
/// and bits 22 to 24 are clear.
pub open spec fn valid_desc(desc: u64) -> bool {
    &&& desc_len(desc) <= MAX_MSG_SIZE_BYTES
    &&& desc & MASK_22_24 == 0
}

/// The descriptor built for a frame of kind `t` and body length `len`.
pub open spec fn spec_build_desc(t: MSG_TYPE, len: u32) -> u64 {
    (type_code(t) << 60) | (len as u64)
}

/// The error with which a descriptor is refused.
pub open spec fn desc_error(desc: u64) -> SleanError {
    if desc_len(desc) > MAX_MSG_SIZE_BYTES {
        SleanError::InvalidFrameLen(desc_len(desc))
    } else {
        SleanError::InvalidFrameHeader(desc)
    }
}

/// A descriptor built for a kind `t` and a body length within the maximum is
/// accepted by validation, announces that length, and carries exactly the type
/// code of `t`, so that it is recognised as a frame of kind `t` and of no other.
pub proof fn lemma_build_desc_roundtrip(t: MSG_TYPE, len: u32)
    requires
        len <= MAX_MSG_SIZE_BYTES,
    ensures
        valid_desc(spec_build_desc(t, len)),
        desc_len(spec_build_desc(t, len)) == len,
        desc_code(spec_build_desc(t, len)) == type_code(t),
{
    let c = type_code(t);
    let d = spec_build_desc(t, len);
    assert(c <= 15);
    assert(((c << 60u64) | (len as u64)) & 0x1FFFFFu64 == len as u64 && ((c << 60u64) | (len as u64))
        & (0b111u64 << 22u64) == 0 && ((c << 60u64) | (len as u64)) >> 60u64 == c) by (bit_vector)
        requires
            c <= 15,
            len <= 2097144u32,
    ;
}

/// A frame descriptor that passed validation.
#[derive(Debug)]
pub struct FrameDescriptor {
    desc: u64,
}

impl FrameDescriptor {
    #[verifier::type_invariant]
    spec fn inv(self) -> bool {
        valid_desc(self.desc)
    }

    /// The raw descriptor value.
    pub closed spec fn view(&self) -> u64 {
        self.desc
    }

    /// Builds the descriptor of a frame of kind `msg_type` whose body is `len` bytes.
    pub fn build_desc(msg_type: MSG_TYPE, len: u32) -> (d: u64)
        ensures
            d == spec_build_desc(msg_type, len),
    {
        match msg_type {
            MSG_TYPE::REQ => (REQ << 60) | (len as u64),
            MSG_TYPE::REPL => (REPL << 60) | (len as u64),
            MSG_TYPE::ERR => (ERR << 60) | (len as u64),
        }
    }

    /// The largest body length a frame may announce.
    pub fn max_size() -> (m: u32)
        ensures
            m == MAX_MSG_SIZE_BYTES,
    {
        MAX_MSG_SIZE_BYTES
    }

    /// Whether the descriptor announces a request.
    pub fn is_req(&self) -> (b: bool)
        ensures
            b == (desc_code(self.view()) == REQ),
    {
        self.desc >> 60 == REQ
    }

    /// Whether the descriptor announces a reply.
    pub fn is_repl(&self) -> (b: bool)
        ensures
            b == (desc_code(self.view()) == REPL),
    {
        self.desc >> 60 == REPL
    }

    /// Whether the descriptor announces an error.
    pub fn is_err(&self) -> (b: bool)
        ensures
            b == (desc_code(self.view()) == ERR),
    {
        self.desc >> 60 == ERR
    }

    /// The body length announced by the descriptor.
    pub fn len(&self) -> (l: u32)
        ensures
            l == desc_len(self.view()),
            l <= MAX_MSG_SIZE_BYTES,
    {
        proof {
            use_type_invariant(self);
        }
        FrameDescriptor::extract_len(self.desc)
    }

    /// The body length stored in a raw descriptor.
    pub fn extract_len(desc: u64) -> (l: u32)
        ensures
            l == desc_len(desc),
    {
        (desc & LEN_MASK) as u32
    }

    /// The raw descriptor value.
    pub fn desc(&self) -> (d: u64)
        ensures
            d == self.view(),
    {
        self.desc
    }

    /// The descriptor in upper-case hexadecimal, as it is displayed.
    pub fn to_text(&self) -> (s: String)
        ensures
            s@ == upper_hex(self.view() as nat),
    {
        format_upper_hex(self.desc)
    }

    /// The descriptor as it is shown for debugging: the value in hexadecimal
    /// with its `0x` prefix, padded to sixteen characters, then the length.
    pub fn debug_text(&self) -> (s: String)
        ensures
            s@ == "Plain "@ + "0x"@ + pad_zeros(upper_hex(self.view() as nat), 14) + ", len: "@
                + decimal(desc_len(self.view()) as nat),
    {
        let mut s = String::from_str("Plain ");
        let hex = format_prefixed_hex16(self.desc);
        s.append(hex.as_str());
        s.append(", len: ");
        let len = format_u32(self.len());
        s.append(len.as_str());
        s
    }

    /// Validates a raw descriptor: its length must be at most the maximum and
    /// bits 22 to 24 must be clear.
    pub fn from_desc(value: u64) -> (r: Result<FrameDescriptor, SleanError>)
        ensures
            r is Ok <==> valid_desc(value),
            r matches Ok(fd) ==> fd.view() == value,
            r matches Err(e) ==> e == desc_error(value),
    {
        let len = FrameDescriptor::extract_len(value);
        if len > MAX_MSG_SIZE_BYTES {
            return Err(SleanError::InvalidFrameLen(len));
        }
        if value & MASK_22_24 != 0 {
            return Err(SleanError::InvalidFrameHeader(value));
        }
        Ok(FrameDescriptor { desc: value })
    }
}

impl vstd::std_specs::convert::TryFromSpecImpl<u64> for FrameDescriptor {
    open spec fn obeys_try_from_spec() -> bool {
        true
    }

    closed spec fn try_from_spec(value: u64) -> Result<FrameDescriptor, SleanError> {
        if valid_desc(value) {
            Ok(FrameDescriptor { desc: value })
        } else {
            Err(desc_error(value))
        }
    }
}

impl TryFrom<u64> for FrameDescriptor {
    type Error = SleanError;

    fn try_from(value: u64) -> (r: Result<FrameDescriptor, SleanError>)
        ensures
            r is Ok <==> valid_desc(value),
            r matches Ok(fd) ==> fd.view() == value,
            r matches Err(e) ==> e == desc_error(value),
    {
        FrameDescriptor::from_desc(value)
    }
}

impl vstd::std_specs::convert::FromSpecImpl<FrameDescriptor> for u64 {
    open spec fn obeys_from_spec() -> bool {
        true
    }

    open spec fn from_spec(fd: FrameDescriptor) -> u64 {
        fd.view()
    }
}

impl From<FrameDescriptor> for u64 {
    /// The raw descriptor value.
    fn from(fd: FrameDescriptor) -> (d: u64) {
        fd.desc
    }
}

} // verus!
