use vstd::prelude::*;

use crate::wire::{drop_front, push_u32, read_u32, u32_bytes, u32_of};

verus! {

/// The transport error carried by [`Error::Io`].
#[verifier::external_type_specification]
#[verifier::external_body]
pub struct ExIoError(std::io::Error);

/// Why a frame could not be read or written.
#[derive(Debug)]
pub enum Error {
    /// The peer broke the protocol; the connection is to be closed with this code.
    Http(ErrorCode),
    /// The transport failed.
    Io(std::io::Error),
}

/// The error codes of RST_STREAM and GOAWAY frames.
#[derive(Clone, Copy, Debug, PartialEq, Eq, Structural)]
pub enum ErrorCode {
    NoError,
    ProtocolError,
    InternalError,
    FlowControlError,
    SettingsTimeout,
    StreamClosed,
    FrameSizeError,
    RefusedStream,
    Cancel,
    CompressionError,
    ConnectError,
    EnhanceYourCalm,
    InadequateSecurity,
    Http11Required,
    Unknown(u32),
}

/// The 32-bit wire value of an error code.
pub open spec fn code_value(e: ErrorCode) -> u32 {
    match e {
        ErrorCode::NoError => 0x0,
        ErrorCode::ProtocolError => 0x1,
        ErrorCode::InternalError => 0x2,
        ErrorCode::FlowControlError => 0x3,
        ErrorCode::SettingsTimeout => 0x4,
        ErrorCode::StreamClosed => 0x5,
        ErrorCode::FrameSizeError => 0x6,
        ErrorCode::RefusedStream => 0x7,
        ErrorCode::Cancel => 0x8,
        ErrorCode::CompressionError => 0x9,
        ErrorCode::ConnectError => 0xa,
        ErrorCode::EnhanceYourCalm => 0xb,
        ErrorCode::InadequateSecurity => 0xc,
        ErrorCode::Http11Required => 0xd,
        ErrorCode::Unknown(c) => c,
    }
}

/// The error code that a 32-bit wire value stands for; values past the defined
/// ones are kept as `Unknown`.
pub open spec fn code_of_value(c: u32) -> ErrorCode {
    if c == 0x0 {
        ErrorCode::NoError
    } else if c == 0x1 {
        ErrorCode::ProtocolError
    } else if c == 0x2 {
        ErrorCode::InternalError
    } else if c == 0x3 {
        ErrorCode::FlowControlError
    } else if c == 0x4 {
        ErrorCode::SettingsTimeout
    } else if c == 0x5 {
        ErrorCode::StreamClosed
    } else if c == 0x6 {
        ErrorCode::FrameSizeError
    } else if c == 0x7 {
        ErrorCode::RefusedStream
    } else if c == 0x8 {
        ErrorCode::Cancel
    } else if c == 0x9 {
        ErrorCode::CompressionError
    } else if c == 0xa {
        ErrorCode::ConnectError
    } else if c == 0xb {
        ErrorCode::EnhanceYourCalm
    } else if c == 0xc {
        ErrorCode::InadequateSecurity
    } else if c == 0xd {
        ErrorCode::Http11Required
    } else {
        ErrorCode::Unknown(c)
    }
}

/// An error code is well formed when `Unknown` holds none of the defined values.
pub open spec fn code_wf(e: ErrorCode) -> bool {
    match e {
        ErrorCode::Unknown(c) => c > 0xd,
        _ => true,
    }
}

/// The registered name of an error code.
pub open spec fn code_name(e: ErrorCode) -> Seq<char> {
    match e {
        ErrorCode::NoError => "NO_ERROR"@,
        ErrorCode::ProtocolError => "PROTOCOL_ERROR"@,
        ErrorCode::InternalError => "INTERNAL_ERROR"@,
        ErrorCode::FlowControlError => "FLOW_CONTROL_ERROR"@,
        ErrorCode::SettingsTimeout => "SETTINGS_TIMEOUT"@,
        ErrorCode::StreamClosed => "STREAM_CLOSED"@,
        ErrorCode::FrameSizeError => "FRAME_SIZE_ERROR"@,
        ErrorCode::RefusedStream => "REFUSED_STREAM"@,
        ErrorCode::Cancel => "CANCEL"@,
        ErrorCode::CompressionError => "COMPRESSION_ERROR"@,
        ErrorCode::ConnectError => "CONNECT_ERROR"@,
        ErrorCode::EnhanceYourCalm => "ENHANCE_YOUR_CALM"@,
        ErrorCode::InadequateSecurity => "INADEQUATE_SECURITY"@,
        ErrorCode::Http11Required => "HTTP_1_1_REQUIRED"@,
        ErrorCode::Unknown(_) => "UNKNOWN"@,
    }
}

/// Every well-formed code is read back from its wire value.
pub proof fn lemma_code_round_trip(e: ErrorCode)
    requires
        code_wf(e),
    ensures
        code_of_value(code_value(e)) == e,
{
}

impl ErrorCode {
    /// The registered name of the code; an unknown code is named `UNKNOWN`.
    pub fn name(&self) -> (r: &'static str)
        ensures
            r@ == code_name(*self),
    {
        match self {
            ErrorCode::NoError => "NO_ERROR",
            ErrorCode::ProtocolError => "PROTOCOL_ERROR",
            ErrorCode::InternalError => "INTERNAL_ERROR",
            ErrorCode::FlowControlError => "FLOW_CONTROL_ERROR",
            ErrorCode::SettingsTimeout => "SETTINGS_TIMEOUT",
            ErrorCode::StreamClosed => "STREAM_CLOSED",
            ErrorCode::FrameSizeError => "FRAME_SIZE_ERROR",
            ErrorCode::RefusedStream => "REFUSED_STREAM",
            ErrorCode::Cancel => "CANCEL",
            ErrorCode::CompressionError => "COMPRESSION_ERROR",
            ErrorCode::ConnectError => "CONNECT_ERROR",
            ErrorCode::EnhanceYourCalm => "ENHANCE_YOUR_CALM",
            ErrorCode::InadequateSecurity => "INADEQUATE_SECURITY",
            ErrorCode::Http11Required => "HTTP_1_1_REQUIRED",
            ErrorCode::Unknown(_) => "UNKNOWN",
        }
    }

    /// The 32-bit wire value.
    pub fn value(&self) -> (r: u32)
        ensures
            r == code_value(*self),
    {
        match self {
            ErrorCode::NoError => 0x0,
            ErrorCode::ProtocolError => 0x1,
            ErrorCode::InternalError => 0x2,
            ErrorCode::FlowControlError => 0x3,
            ErrorCode::SettingsTimeout => 0x4,
            ErrorCode::StreamClosed => 0x5,
            ErrorCode::FrameSizeError => 0x6,
            ErrorCode::RefusedStream => 0x7,
            ErrorCode::Cancel => 0x8,
            ErrorCode::CompressionError => 0x9,
            ErrorCode::ConnectError => 0xa,
            ErrorCode::EnhanceYourCalm => 0xb,
            ErrorCode::InadequateSecurity => 0xc,
            ErrorCode::Http11Required => 0xd,
            ErrorCode::Unknown(c) => *c,
        }
    }

    /// The error code for a 32-bit wire value.
    pub fn from_value(c: u32) -> (r: ErrorCode)
        ensures
            r == code_of_value(c),
            code_wf(r),
    {
        match c {
            0x0 => ErrorCode::NoError,
            0x1 => ErrorCode::ProtocolError,
            0x2 => ErrorCode::InternalError,
            0x3 => ErrorCode::FlowControlError,
            0x4 => ErrorCode::SettingsTimeout,
            0x5 => ErrorCode::StreamClosed,
            0x6 => ErrorCode::FrameSizeError,
            0x7 => ErrorCode::RefusedStream,
            0x8 => ErrorCode::Cancel,
            0x9 => ErrorCode::CompressionError,
            0xa => ErrorCode::ConnectError,
            0xb => ErrorCode::EnhanceYourCalm,
            0xc => ErrorCode::InadequateSecurity,
            0xd => ErrorCode::Http11Required,
            _ => ErrorCode::Unknown(c),
        }
    }
}

/// Reads and writes error codes as 32-bit big-endian words.
pub struct ErrorCodeCodec;

impl ErrorCodeCodec {
    /// Takes one error code off the front of `src`; `None`, with `src` untouched,
    /// while fewer than four bytes are there.
    pub fn decode(&mut self, src: &mut Vec<u8>) -> (r: Result<Option<ErrorCode>, Error>)
        ensures
            old(src)@.len() < 4 ==> (r matches Ok(None)) && final(src)@ == old(src)@,
            old(src)@.len() >= 4 ==> r == Ok::<Option<ErrorCode>, Error>(
                Some(code_of_value(u32_of(old(src)@))),
            ) && final(src)@ == old(src)@.subrange(4, old(src)@.len() as int),
    {
        if src.len() < 4 {
            return Ok(None);
        }
        let code = read_u32(src.as_slice(), 0);
        assert(src@.subrange(0, src@.len() as int) =~= src@);
        drop_front(src, 4);
        Ok(Some(ErrorCode::from_value(code)))
    }

    /// Appends the wire form of `item`.
    pub fn encode(&mut self, item: ErrorCode, dst: &mut Vec<u8>) -> (r: Result<(), Error>)
        ensures
            r matches Ok(()),
            final(dst)@ == old(dst)@ + u32_bytes(code_value(item)),
    {
        push_u32(dst, item.value());
        Ok(())
    }
}

} // verus!
