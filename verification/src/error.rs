use vstd::prelude::*;
use vstd::string::StringExecFns;

verus! {

/// The kinds of I/O failure that the library produces or carries.
#[derive(Debug, Clone, Copy, PartialEq, Eq, Structural)]
pub enum IoKind {
    UnexpectedEof,
    InvalidData,
    OutOfMemory,
    WriteZero,
    WouldBlock,
    Interrupted,
    Other,
}

/// Errors of the messaging layer.
#[derive(Debug)]
pub enum SleanError {
    InvalidFrameHeader(u64),
    InvalidFrameLen(u32),
    UnexpectedIoFailure(IoKind),
    DecodingFailed(String),
    EncodingFailed(String),
    AppError { code: i32, msg: String },
}

pub type SleanResult<T> = Result<T, SleanError>;

/// An error as it travels to the remote peer: a code and a message.
pub type RemoteError = (i32, String);

/// The character of a digit below sixteen, upper case for ten and above.
pub open spec fn digit_char(d: nat) -> char {
    if d < 10 {
        (48 + d) as char
    } else {
        (55 + d) as char
    }
}

/// The decimal digits of `n`, most significant first, without leading zeros.
pub open spec fn decimal(n: nat) -> Seq<char>
    decreases n,
{
    if n < 10 {
        seq![digit_char(n)]
    } else {
        decimal(n / 10).push(digit_char(n % 10))
    }
}

/// The decimal text of a signed number: a minus sign before negative ones.
pub open spec fn signed_decimal(v: int) -> Seq<char> {
    if v < 0 {
        seq!['-'] + decimal((-v) as nat)
    } else {
        decimal(v as nat)
    }
}

/// The upper-case hexadecimal digits of `n`, without prefix or leading zeros.
pub open spec fn upper_hex(n: nat) -> Seq<char>
    decreases n,
{
    if n < 16 {
        seq![digit_char(n)]
    } else {
        upper_hex(n / 16).push(digit_char(n % 16))
    }
}

/// The description that the standard library gives of an I/O error kind.
pub uninterp spec fn io_kind_description(kind: IoKind) -> Seq<char>;

/// `format!("{:X}", v)`: the standard library formats an unsigned number with
/// `UpperHex` as its upper-case hexadecimal digits, without prefix.
#[verifier::external_body]
pub(crate) fn format_upper_hex(v: u64) -> (s: String)
    ensures
        s@ == upper_hex(v as nat),
{
    format!("{:X}", v)
}

/// `s` preceded by as many zeros as make it `width` characters long.
pub open spec fn pad_zeros(s: Seq<char>, width: nat) -> Seq<char> {
    if s.len() >= width {
        s
    } else {
        Seq::new((width - s.len()) as nat, |i: int| '0') + s
    }
}

/// `format!("{:#016X}", v)`: the alternate form puts `0x` before the
/// upper-case hexadecimal digits, and zero padding to a width of sixteen,
/// the prefix included, goes between the prefix and the digits.
#[verifier::external_body]
pub(crate) fn format_prefixed_hex16(v: u64) -> (s: String)
    ensures
        s@ == "0x"@ + pad_zeros(upper_hex(v as nat), 14),
{
    format!("{:#016X}", v)
}

/// `format!("{}", v)` for a `u32`: its decimal digits.
#[verifier::external_body]
pub(crate) fn format_u32(v: u32) -> (s: String)
    ensures
        s@ == decimal(v as nat),
{
    format!("{}", v)
}

/// `format!("{}", v)` for an `i32`: its decimal digits, after a minus sign
/// when negative.
#[verifier::external_body]
fn format_i32(v: i32) -> (s: String)
    ensures
        s@ == signed_decimal(v as int),
{
    format!("{}", v)
}

/// `ErrorKind::to_string` of the standard library, for the kind that `kind`
/// stands for. The text is what the standard library's `Display` gives; the
/// contract names it and says nothing more of it.
#[verifier::external_body]
pub(crate) fn describe_io_kind(kind: IoKind) -> (s: String)
    ensures
        s@ == io_kind_description(kind),
{
    let std_kind = match kind {
        IoKind::UnexpectedEof => std::io::ErrorKind::UnexpectedEof,
        IoKind::InvalidData => std::io::ErrorKind::InvalidData,
        IoKind::OutOfMemory => std::io::ErrorKind::OutOfMemory,
        IoKind::WriteZero => std::io::ErrorKind::WriteZero,
        IoKind::WouldBlock => std::io::ErrorKind::WouldBlock,
        IoKind::Interrupted => std::io::ErrorKind::Interrupted,
        IoKind::Other => std::io::ErrorKind::Other,
    };
    std_kind.to_string()
}

/// The text of an error, as shown to a person.
pub open spec fn error_message(e: SleanError) -> Seq<char> {
    match e {
        SleanError::InvalidFrameHeader(v) => "Invalid header "@ + upper_hex(v as nat) + ","@,
        SleanError::InvalidFrameLen(l) => "Invalid frame len "@ + decimal(l as nat) + ","@,
        SleanError::UnexpectedIoFailure(_) => "Unexpected Io Error"@,
        SleanError::DecodingFailed(m) => "Decoding failed with error "@ + m@,
        SleanError::EncodingFailed(m) => "Encoding failed with error "@ + m@,
        SleanError::AppError { code, msg } => "Application Error: "@ + signed_decimal(code as int)
            + ": "@ + msg@,
    }
}

/// An error can be sent to the peer unless it is an application error with a
/// code that is not negative: non-negative codes belong to the library.
pub open spec fn remote_convertible(e: SleanError) -> bool {
    !(e matches SleanError::AppError { code, .. } && code >= 0)
}

/// The code under which an error is sent to the peer.
pub open spec fn remote_code(e: SleanError) -> i32 {
    match e {
        SleanError::InvalidFrameHeader(_) => 1000,
        SleanError::InvalidFrameLen(_) => 1000,
        SleanError::UnexpectedIoFailure(_) => 1,
        SleanError::EncodingFailed(_) => 5000,
        SleanError::DecodingFailed(_) => 5100,
        SleanError::AppError { code, .. } => code,
    }
}

/// The message with which an error is sent to the peer.
pub open spec fn remote_message(e: SleanError) -> Seq<char> {
    match e {
        SleanError::InvalidFrameHeader(_) => error_message(e),
        SleanError::InvalidFrameLen(_) => error_message(e),
        SleanError::UnexpectedIoFailure(kind) => io_kind_description(kind),
        SleanError::EncodingFailed(m) => m@,
        SleanError::DecodingFailed(m) => m@,
        SleanError::AppError { msg, .. } => msg@,
    }
}

impl SleanError {
    /// The text of the error, as shown to a person.
    pub fn message(&self) -> (s: String)
        ensures
            s@ == error_message(*self),
    {
        match self {
            SleanError::InvalidFrameHeader(v) => {
                let mut s = String::from_str("Invalid header ");
                let hex = format_upper_hex(*v);
                s.append(hex.as_str());
                s.append(",");
                s
            },
            SleanError::InvalidFrameLen(l) => {
                let mut s = String::from_str("Invalid frame len ");
                let dec = format_u32(*l);
                s.append(dec.as_str());
                s.append(",");
                s
            },
            SleanError::UnexpectedIoFailure(_) => String::from_str("Unexpected Io Error"),
            SleanError::DecodingFailed(m) => {
                let mut s = String::from_str("Decoding failed with error ");
                s.append(m.as_str());
                s
            },
            SleanError::EncodingFailed(m) => {
                let mut s = String::from_str("Encoding failed with error ");
                s.append(m.as_str());
                s
            },
            SleanError::AppError { code, msg } => {
                let mut s = String::from_str("Application Error: ");
                let dec = format_i32(*code);
                s.append(dec.as_str());
                s.append(": ");
                s.append(msg.as_str());
                s
            },
        }
    }

    /// The error as it is sent to the peer: a code and a message. Frame
    /// errors go under code 1000 with their text, I/O failures under code 1
    /// with the description of their kind, encoding and decoding failures
    /// under 5000 and 5100, and application errors under their own code.
    pub fn to_remote_error(self) -> (r: RemoteError)
        requires
            remote_convertible(self),
        ensures
            r.0 == remote_code(self),
            r.1@ == remote_message(self),
    {
        match self {
            SleanError::InvalidFrameHeader(_) => (1000, self.message()),
            SleanError::InvalidFrameLen(_) => (1000, self.message()),
            SleanError::UnexpectedIoFailure(kind) => (1, describe_io_kind(kind)),
            SleanError::EncodingFailed(m) => (5000, m),
            SleanError::DecodingFailed(m) => (5100, m),
            SleanError::AppError { code, msg } => (code, msg),
        }
    }
}

} // verus!
