//! Section framing: every RenderWare container is a flat byte buffer holding
//! a tree of typed, length-prefixed, versioned chunks. A section header is
//! exactly three unsigned little-endian 32-bit fields: type code, payload
//! size (excluding the header), and packed version.

use vstd::prelude::*;

use crate::byte_stream::{spec_read_u32, ByteStream};
use crate::error::{mirrors, DecodeError};

verus! {

broadcast use vstd::std_specs::control_flow::group_control_flow_axioms;

/// The fixed 12-byte header that frames every section.
#[derive(Clone, Copy, Debug, PartialEq, Eq, Structural)]
pub struct RwSectionHeader {
    /// Section type code.
    pub section_type: u32,
    /// Byte size of the payload, excluding the header itself.
    pub section_size: u32,
    /// Packed version number.
    pub version_number: u32,
}

/// Three consecutive little-endian 32-bit fields at `pos`.
pub open spec fn spec_read_header(data: Seq<u8>, pos: int) -> Result<
    (RwSectionHeader, int),
    DecodeError,
> {
    match spec_read_u32(data, pos) {
        Err(e) => Err(e),
        Ok((section_type, p1)) => match spec_read_u32(data, p1) {
            Err(e) => Err(e),
            Ok((section_size, p2)) => match spec_read_u32(data, p2) {
                Err(e) => Err(e),
                Ok((version_number, p3)) => Ok(
                    (RwSectionHeader { section_type, section_size, version_number }, p3),
                ),
            },
        },
    }
}

/// A byte cursor framed as a RenderWare file: headers are read from the
/// cursor, and the cursor itself stays available for payload reads.
pub struct RwFile<'a> {
    stream: ByteStream<'a>,
}

impl<'a> RwFile<'a> {
    /// The bytes of the whole file.
    pub closed spec fn spec_data(&self) -> Seq<u8> {
        self.stream.spec_data()
    }

    /// The current cursor position.
    pub closed spec fn spec_pos(&self) -> int {
        self.stream.spec_pos()
    }

    /// Opens a file over a whole in-memory buffer.
    pub fn new(buffer: &'a [u8]) -> (r: RwFile<'a>)
        ensures
            r.spec_data() == buffer@,
            r.spec_pos() == 0,
    {
        RwFile { stream: ByteStream::new(buffer) }
    }

    /// Reads the 12-byte section header at the cursor.
    pub fn read_section_header(&mut self) -> (r: Result<RwSectionHeader, DecodeError>)
        ensures
            final(self).spec_data() == old(self).spec_data(),
            mirrors(
                spec_read_header(old(self).spec_data(), old(self).spec_pos()),
                r,
                final(self).spec_pos(),
            ),
    {
        let section_type = self.stream.read_u32()?;
        let section_size = self.stream.read_u32()?;
        let version_number = self.stream.read_u32()?;
        Ok(RwSectionHeader { section_type, section_size, version_number })
    }

    /// Borrows the underlying byte cursor for payload reads.
    pub fn get_stream(&mut self) -> (r: &mut ByteStream<'a>)
        ensures
            r.spec_data() == old(self).spec_data(),
            r.spec_pos() == old(self).spec_pos(),
            final(self).spec_data() == final(r).spec_data(),
            final(self).spec_pos() == final(r).spec_pos(),
    {
        &mut self.stream
    }
}

} // verus!
