//! The first form of the peer connection messages, with a `u8` code in the
//! header and the code written as a `u32` in the body.
use crate::frame::{read_matches, sp_u32, sp_u8, Read, Reader};
use crate::{ProtocolHeader, SlskError};
use vstd::prelude::*;

pub mod messages;

verus! {

/// Length of the header: a `u32` length and a `u8` code.
pub const HEADER_LEN: u32 = 5;

/// Code of a message.
#[derive(Debug, Clone, Copy, PartialEq, Eq, Structural)]
pub enum MessageCode {
    PierceFireWall,
    PeerInit,
    Unknown,
}

/// The code that a byte stands for: 0 and 1, anything else unknown.
pub open spec fn spec_code(code: u8) -> MessageCode {
    if code == 0 {
        MessageCode::PierceFireWall
    } else if code == 1 {
        MessageCode::PeerInit
    } else {
        MessageCode::Unknown
    }
}

impl vstd::std_specs::convert::FromSpecImpl<u8> for MessageCode {
    open spec fn obeys_from_spec() -> bool {
        true
    }

    open spec fn from_spec(v: u8) -> MessageCode {
        spec_code(v)
    }
}

impl From<u8> for MessageCode {
    fn from(code: u8) -> (c: MessageCode) {
        if code == 0 {
            MessageCode::PierceFireWall
        } else if code == 1 {
            MessageCode::PeerInit
        } else {
            MessageCode::Unknown
        }
    }
}

/// Header of a message: the code and the length of the body.
#[derive(Debug, Clone, Copy, PartialEq, Eq, Structural)]
pub struct Header {
    pub code: MessageCode,
    pub message_len: usize,
}

impl View for Header {
    type V = Header;

    open spec fn view(&self) -> Header {
        *self
    }
}

impl ProtocolHeader for Header {
    type Code = MessageCode;

    open spec fn spec_message_len(&self) -> nat {
        self.message_len as nat
    }

    open spec fn spec_code(&self) -> MessageCode {
        self.code
    }

    fn message_len(&self) -> (n: usize) {
        self.message_len
    }

    fn new(message_len: usize, code: MessageCode) -> (h: Self)
        ensures
            h == (Header { code, message_len }),
    {
        Header { code, message_len }
    }
}

impl Header {
    /// A `u32` length, counting the code byte, then the code byte. A length
    /// of zero cannot count the code and is invalid.
    pub open spec fn spec_read(s: Seq<u8>, p: int) -> Read<Header> {
        match sp_u32(s, p) {
            Err(e) => Err(e),
            Ok((length, p)) => match sp_u8(s, p) {
                Err(e) => Err(e),
                Ok((code, p)) => if length < 1 {
                    Err(SlskError::InvalidData)
                } else {
                    Ok((Header { code: spec_code(code), message_len: (length - 1) as usize }, p))
                },
            },
        }
    }

    pub fn read(src: &mut Reader) -> (res: Result<Self, SlskError>)
        ensures
            final(src).data() == old(src).data(),
            read_matches(res, Self::spec_read(old(src).data(), old(src).position()), final(src).position()),
    {
        let message_length = src.read_u32()?;
        let code = src.read_u8()?;
        let code = MessageCode::from(code);
        if message_length < 1 {
            return Err(SlskError::InvalidData);
        }
        Ok(Header::new((message_length - 1) as usize, code))
    }
}

} // verus!
