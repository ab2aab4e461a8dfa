//! Number of shared folders and files.
use crate::frame::{le32, write_u32};
use crate::server::{ser_header, write_header, MessageCode};
use vstd::prelude::*;

verus! {

/// How many folders and files we share.
#[derive(Debug)]
pub struct SharedFolderAndFiles {
    pub dirs: u32,
    pub files: u32,
}

impl View for SharedFolderAndFiles {
    type V = (u32, u32);

    open spec fn view(&self) -> Self::V {
        (self.dirs, self.files)
    }
}

impl SharedFolderAndFiles {
    /// Header whose length field, 12, counts the code and the two counts,
    /// then the number of folders and the number of files.
    pub open spec fn spec_bytes(v: (u32, u32)) -> Seq<u8> {
        ser_header(12, MessageCode::SharedFoldersAndFiles) + le32(v.0) + le32(v.1)
    }

    pub fn write_to_buf(&self, buffer: &mut Vec<u8>)
        ensures
            final(buffer)@ == old(buffer)@ + Self::spec_bytes(self@),
    {
        write_header(buffer, 12, MessageCode::SharedFoldersAndFiles);
        write_u32(buffer, self.dirs);
        write_u32(buffer, self.files);
        assert(final(buffer)@ =~= old(buffer)@ + Self::spec_bytes(self@));
    }
}

} // verus!
