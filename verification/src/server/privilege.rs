//! Privileges given to another user.
use crate::frame::{le32, ser_str, str_bytes, write_string, write_u32};
use crate::server::{ser_header, write_header, MessageCode};
use vstd::prelude::*;

verus! {

/// Days of privileges that we give to a user.
#[derive(Debug)]
pub struct PrivilegesGift {
    pub username: String,
    pub days: u32,
}

impl View for PrivilegesGift {
    type V = (Seq<char>, u32);

    open spec fn view(&self) -> Self::V {
        (self.username@, self.days)
    }
}

impl PrivilegesGift {
    pub open spec fn spec_len(v: (Seq<char>, u32)) -> int {
        4 + 4 + str_bytes(v.0) + 4
    }

    pub open spec fn spec_bytes(v: (Seq<char>, u32)) -> Seq<u8> {
        ser_header(Self::spec_len(v) as u32, MessageCode::GivePrivileges) + ser_str(v.0) + le32(v.1)
    }

    /// Writes the message: header with code `GivePrivileges`, user name, days.
    pub fn write_to_buf(&self, buffer: &mut Vec<u8>)
        requires
            Self::spec_len(self@) <= u32::MAX,
        ensures
            final(buffer)@ == old(buffer)@ + Self::spec_bytes(self@),
    {
        let len = 4 + 4 + self.username.as_str().as_bytes().len() as u32 + 4;
        write_header(buffer, len, MessageCode::GivePrivileges);
        write_string(buffer, self.username.as_str());
        write_u32(buffer, self.days);
        assert(final(buffer)@ =~= old(buffer)@ + Self::spec_bytes(self@));
    }
}

} // verus!
