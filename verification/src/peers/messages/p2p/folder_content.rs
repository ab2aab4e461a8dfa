//! Requests for the contents of shared folders.
use crate::frame::{item, read_list, sp_list, views, ParseBytes, Read, Reader};
use crate::peers::messages::p2p::{ser_peer_header, write_peer_header, PeerMessageCode};
use crate::server::admin::{lemma_strs_len_prefix, strs_len};
use crate::SlskError;
use vstd::prelude::*;

verus! {

/// A request for the contents of some folders.
#[derive(Debug)]
pub struct FolderContentsRequest {
    pub files: Vec<String>,
}

impl View for FolderContentsRequest {
    type V = Seq<Seq<char>>;

    open spec fn view(&self) -> Seq<Seq<char>> {
        views(self.files@)
    }
}

impl ParseBytes for FolderContentsRequest {
    /// A list of folder names.
    open spec fn spec_parse(s: Seq<u8>, p: int) -> Read<Seq<Seq<char>>> {
        sp_list(s, p, item::<String>())
    }

    fn parse(src: &mut Reader) -> (res: Result<Self, SlskError>) {
        let files = read_list::<String>(src)?;
        Ok(FolderContentsRequest { files })
    }
}

impl FolderContentsRequest {
    /// The length field as computed for this message: four bytes, one per
    /// folder, and the folder names with their prefixes.
    pub open spec fn spec_len(v: Seq<Seq<char>>) -> int {
        4 + v.len() + strs_len(v)
    }

    /// Only the header is written: the length, then the code
    /// `FolderContentsRequest`.
    pub open spec fn spec_bytes(v: Seq<Seq<char>>) -> Seq<u8> {
        ser_peer_header(Self::spec_len(v) as u32, PeerMessageCode::FolderContentsRequest)
    }

    pub fn write_to_buf(&self, buffer: &mut Vec<u8>)
        requires
            Self::spec_len(self@) <= u32::MAX,
        ensures
            final(buffer)@ == old(buffer)@ + Self::spec_bytes(self@),
    {
        let ghost v = self@;
        let mut files_size: u32 = 0;
        let mut i: usize = 0;
        while i < self.files.len()
            invariant
                i <= self.files@.len(),
                v == views(self.files@),
                files_size == strs_len(v.subrange(0, i as int)),
                Self::spec_len(v) <= u32::MAX,
            decreases self.files@.len() - i,
        {
            proof {
                assert(v.subrange(0, i + 1).drop_last() =~= v.subrange(0, i as int));
                lemma_strs_len_prefix(v, i + 1);
            }
            files_size = files_size + 4;
            files_size = files_size + self.files[i].as_str().as_bytes().len() as u32;
            i = i + 1;
        }
        assert(v.subrange(0, v.len() as int) =~= v);
        let length = 4 + self.files.len() as u32 + files_size;
        write_peer_header(buffer, length, PeerMessageCode::FolderContentsRequest);
    }
}

} // verus!
