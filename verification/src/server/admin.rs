//! Administrative command.
use crate::frame::{ser_list, ser_rep, ser_str, str_bytes, write_list, write_string};
use crate::server::{ser_header, write_header, MessageCode};
use vstd::prelude::*;

verus! {

/// An administrative command: a string and a list of strings.
#[derive(Debug)]
pub struct AdminCommand {
    pub string1: String,
    pub string2: Vec<String>,
}

/// Sum over the strings of their byte length plus the four bytes of their prefix.
pub open spec fn strs_len(v: Seq<Seq<char>>) -> int
    decreases v.len(),
{
    if v.len() == 0 {
        0
    } else {
        strs_len(v.drop_last()) + str_bytes(v.last()) + 4
    }
}

impl View for AdminCommand {
    type V = (Seq<char>, Seq<Seq<char>>);

    open spec fn view(&self) -> Self::V {
        (self.string1@, crate::frame::views(self.string2@))
    }
}

impl AdminCommand {
    /// The length field: the bytes that follow it, that is the code, the
    /// first string with its prefix, the count of the list, and the list's
    /// strings with their prefixes.
    pub open spec fn spec_len(v: (Seq<char>, Seq<Seq<char>>)) -> int {
        4 + (4 + str_bytes(v.0)) + 4 + strs_len(v.1)
    }

    pub open spec fn spec_bytes(v: (Seq<char>, Seq<Seq<char>>)) -> Seq<u8> {
        ser_header(Self::spec_len(v) as u32, MessageCode::AdminCommand) + ser_str(v.0) + ser_list::<
            String,
        >(v.1)
    }

    /// Writes the command: header with code `AdminCommand`, the string, the list.
    pub fn write_to_buf(&self, buffer: &mut Vec<u8>)
        requires
            Self::spec_len(self@) <= u32::MAX,
        ensures
            final(buffer)@ == old(buffer)@ + Self::spec_bytes(self@),
    {
        let ghost v = crate::frame::views(self.string2@);
        let mut str2_len: u32 = 0;
        let mut i: usize = 0;
        while i < self.string2.len()
            invariant
                i <= self.string2@.len(),
                v == crate::frame::views(self.string2@),
                str2_len == strs_len(v.subrange(0, i as int)),
                Self::spec_len(self@) <= u32::MAX,
            decreases self.string2@.len() - i,
        {
            proof {
                assert(v.subrange(0, i + 1).drop_last() =~= v.subrange(0, i as int));
                lemma_strs_len_prefix(v, i + 1);
            }
            str2_len = str2_len + self.string2[i].as_str().as_bytes().len() as u32 + 4;
            i = i + 1;
        }
        assert(v.subrange(0, v.len() as int) =~= v);
        let len = 4 + (4 + self.string1.as_str().as_bytes().len() as u32) + 4 + str2_len;
        write_header(buffer, len, MessageCode::AdminCommand);
        write_string(buffer, self.string1.as_str());
        write_list(buffer, &self.string2);
        assert(final(buffer)@ =~= old(buffer)@ + Self::spec_bytes(self@));
    }
}

/// The length of a prefix of the list is at most that of the whole list.
pub proof fn lemma_strs_len_prefix(v: Seq<Seq<char>>, n: int)
    requires
        0 <= n <= v.len(),
    ensures
        0 <= strs_len(v.subrange(0, n)) <= strs_len(v),
    decreases v.len(),
{
    if v.len() > 0 {
        if n == v.len() {
            assert(v.subrange(0, n) =~= v);
            lemma_strs_len_prefix(v.drop_last(), n - 1);
        } else {
            assert(v.drop_last().subrange(0, n) =~= v.subrange(0, n));
            lemma_strs_len_prefix(v.drop_last(), n);
        }
    }
}

/// The strings of a list, each with its prefix, take `strs_len` bytes.
pub proof fn lemma_strs_rep_len(v: Seq<Seq<char>>)
    ensures
        ser_rep::<String>(v).len() == strs_len(v),
    decreases v.len(),
{
    broadcast use crate::frame::group_wire_lemmas;

    if v.len() > 0 {
        lemma_strs_rep_len(v.drop_last());
    }
}

/// The length field of an admin command counts the bytes after it.
pub proof fn lemma_admin_command_len(v: (Seq<char>, Seq<Seq<char>>))
    ensures
        AdminCommand::spec_bytes(v).len() == 4 + AdminCommand::spec_len(v),
{
    broadcast use crate::frame::group_wire_lemmas;

    lemma_strs_rep_len(v.1);
}

} // verus!
