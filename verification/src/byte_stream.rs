//! Bounds-checked little-endian reader over an immutable byte slice.
//!
//! Every read is mirrored by a spec function over the byte sequence, so the
//! value an exec read returns — and the cursor position it leaves — is the
//! one the spec computes. Reads never panic: a read past the end of the
//! buffer fails with [`DecodeError::Truncated`]. Position changes saturate
//! at `usize::MAX`, which is always at or past the end of the buffer, so a
//! position set beyond the buffer simply makes every later read fail.

use vstd::prelude::*;

use crate::error::{mirrors, mirrors_view, DecodeError};
use crate::text::{field_text, spec_field_text};

verus! {

broadcast use vstd::std_specs::control_flow::group_control_flow_axioms;

/// Position arithmetic saturates at `usize::MAX`; the saturation point is
/// never below the buffer length, so reads past it fail either way.
pub open spec fn sat_add(pos: int, n: int) -> int {
    if pos + n > usize::MAX {
        usize::MAX as int
    } else {
        pos + n
    }
}

/// One byte at `pos`.
pub open spec fn spec_read_u8(data: Seq<u8>, pos: int) -> Result<(u8, int), DecodeError> {
    if 0 <= pos && pos + 1 <= data.len() {
        Ok((data[pos], pos + 1))
    } else {
        Err(DecodeError::Truncated)
    }
}

/// Two bytes at `pos`, little endian.
pub open spec fn spec_read_u16(data: Seq<u8>, pos: int) -> Result<(u16, int), DecodeError> {
    if 0 <= pos && pos + 2 <= data.len() {
        Ok(((data[pos] + data[pos + 1] * 0x100) as u16, pos + 2))
    } else {
        Err(DecodeError::Truncated)
    }
}

/// Four bytes at `pos`, little endian.
pub open spec fn spec_read_u32(data: Seq<u8>, pos: int) -> Result<(u32, int), DecodeError> {
    if 0 <= pos && pos + 4 <= data.len() {
        Ok(
            (
                (data[pos] + data[pos + 1] * 0x100 + data[pos + 2] * 0x10000 + data[pos + 3]
                    * 0x1000000) as u32,
                pos + 4,
            ),
        )
    } else {
        Err(DecodeError::Truncated)
    }
}

/// Two bytes at `pos`, little endian, as a two's-complement signed value.
pub open spec fn spec_read_i16(data: Seq<u8>, pos: int) -> Result<(i16, int), DecodeError> {
    match spec_read_u16(data, pos) {
        Ok((v, p)) => Ok(((v as i16), p)),
        Err(e) => Err(e),
    }
}

/// Four bytes at `pos`, little endian, as a two's-complement signed value.
pub open spec fn spec_read_i32(data: Seq<u8>, pos: int) -> Result<(i32, int), DecodeError> {
    match spec_read_u32(data, pos) {
        Ok((v, p)) => Ok(((v as i32), p)),
        Err(e) => Err(e),
    }
}

/// A run of `n` raw bytes at `pos`.
pub open spec fn spec_read_bytes(data: Seq<u8>, pos: int, n: int) -> Result<
    (Seq<u8>, int),
    DecodeError,
> {
    if 0 <= pos && 0 <= n && pos + n <= data.len() {
        Ok((data.subrange(pos, pos + n), pos + n))
    } else {
        Err(DecodeError::Truncated)
    }
}

/// A run of `n` bytes at `pos` decoded as a NUL-truncated text field.
pub open spec fn spec_read_string(data: Seq<u8>, pos: int, n: int) -> Result<
    (Seq<char>, int),
    DecodeError,
> {
    match spec_read_bytes(data, pos, n) {
        Ok((bytes, p)) => Ok((spec_field_text(bytes), p)),
        Err(e) => Err(e),
    }
}

/// Bounds-checked little-endian primitive reader over an immutable byte
/// slice. Holds only a borrowed buffer and a cursor position.
pub struct ByteStream<'a> {
    data: &'a [u8],
    pos: usize,
}

impl<'a> ByteStream<'a> {
    /// The bytes under the cursor.
    pub closed spec fn spec_data(&self) -> Seq<u8> {
        self.data@
    }

    /// The current cursor position.
    pub closed spec fn spec_pos(&self) -> int {
        self.pos as int
    }

    /// Opens a cursor at the start of the buffer.
    pub fn new(stream: &'a [u8]) -> (r: ByteStream<'a>)
        ensures
            r.spec_data() == stream@,
            r.spec_pos() == 0,
    {
        ByteStream { data: stream, pos: 0 }
    }

    /// Reads one byte.
    pub fn read_u8(&mut self) -> (r: Result<u8, DecodeError>)
        ensures
            final(self).spec_data() == old(self).spec_data(),
            mirrors(
                spec_read_u8(old(self).spec_data(), old(self).spec_pos()),
                r,
                final(self).spec_pos(),
            ),
            r is Err ==> final(self).spec_pos() == old(self).spec_pos(),
    {
        if self.pos < self.data.len() {
            let v = self.data[self.pos];
            self.pos = self.pos + 1;
            Ok(v)
        } else {
            Err(DecodeError::Truncated)
        }
    }

    /// Reads a little-endian unsigned 16-bit value.
    pub fn read_u16(&mut self) -> (r: Result<u16, DecodeError>)
        ensures
            final(self).spec_data() == old(self).spec_data(),
            mirrors(
                spec_read_u16(old(self).spec_data(), old(self).spec_pos()),
                r,
                final(self).spec_pos(),
            ),
            r is Err ==> final(self).spec_pos() == old(self).spec_pos(),
    {
        if self.data.len() >= 2 && self.pos <= self.data.len() - 2 {
            let b0 = self.data[self.pos];
            let b1 = self.data[self.pos + 1];
            self.pos = self.pos + 2;
            Ok((b0 as u16) + (b1 as u16) * 0x100)
        } else {
            Err(DecodeError::Truncated)
        }
    }

    /// Reads a little-endian unsigned 32-bit value.
    pub fn read_u32(&mut self) -> (r: Result<u32, DecodeError>)
        ensures
            final(self).spec_data() == old(self).spec_data(),
            mirrors(
                spec_read_u32(old(self).spec_data(), old(self).spec_pos()),
                r,
                final(self).spec_pos(),
            ),
            r is Err ==> final(self).spec_pos() == old(self).spec_pos(),
    {
        if self.data.len() >= 4 && self.pos <= self.data.len() - 4 {
            let b0 = self.data[self.pos];
            let b1 = self.data[self.pos + 1];
            let b2 = self.data[self.pos + 2];
            let b3 = self.data[self.pos + 3];
            self.pos = self.pos + 4;
            Ok((b0 as u32) + (b1 as u32) * 0x100 + (b2 as u32) * 0x10000 + (b3 as u32) * 0x1000000)
        } else {
            Err(DecodeError::Truncated)
        }
    }

    /// Reads a little-endian signed 16-bit value.
    pub fn read_i16(&mut self) -> (r: Result<i16, DecodeError>)
        ensures
            final(self).spec_data() == old(self).spec_data(),
            mirrors(
                spec_read_i16(old(self).spec_data(), old(self).spec_pos()),
                r,
                final(self).spec_pos(),
            ),
            r is Err ==> final(self).spec_pos() == old(self).spec_pos(),
    {
        match self.read_u16() {
            Ok(v) => Ok(v as i16),
            Err(e) => Err(e),
        }
    }

    /// Reads a little-endian signed 32-bit value.
    pub fn read_i32(&mut self) -> (r: Result<i32, DecodeError>)
        ensures
            final(self).spec_data() == old(self).spec_data(),
            mirrors(
                spec_read_i32(old(self).spec_data(), old(self).spec_pos()),
                r,
                final(self).spec_pos(),
            ),
            r is Err ==> final(self).spec_pos() == old(self).spec_pos(),
    {
        match self.read_u32() {
            Ok(v) => Ok(v as i32),
            Err(e) => Err(e),
        }
    }

    /// Reads a 32-bit value that the wire format documents as an IEEE-754
    /// single-precision float; the value is carried as its raw bit pattern.
    pub fn read_f32_bits(&mut self) -> (r: Result<u32, DecodeError>)
        ensures
            final(self).spec_data() == old(self).spec_data(),
            mirrors(
                spec_read_u32(old(self).spec_data(), old(self).spec_pos()),
                r,
                final(self).spec_pos(),
            ),
            r is Err ==> final(self).spec_pos() == old(self).spec_pos(),
    {
        self.read_u32()
    }

    /// Reads `size` raw bytes.
    pub fn read(&mut self, size: usize) -> (r: Result<Vec<u8>, DecodeError>)
        ensures
            final(self).spec_data() == old(self).spec_data(),
            mirrors_view(
                spec_read_bytes(old(self).spec_data(), old(self).spec_pos(), size as int),
                r,
                final(self).spec_pos(),
            ),
            r is Err ==> final(self).spec_pos() == old(self).spec_pos(),
    {
        let dlen = self.data.len();
        if size <= dlen && self.pos <= dlen - size {
            let start = self.pos;
            let mut buf: Vec<u8> = Vec::new();
            let mut i: usize = 0;
            while i < size
                invariant
                    0 <= i <= size,
                    dlen == self.data@.len(),
                    start + size <= dlen,
                    self.pos == start,
                    buf@ == self.data@.subrange(start as int, start + i),
                decreases size - i,
            {
                let b = self.data[start + i];
                buf.push(b);
                proof {
                    assert(buf@ =~= self.data@.subrange(start as int, start + i + 1));
                }
                i += 1;
            }
            self.pos = start + size;
            Ok(buf)
        } else {
            Err(DecodeError::Truncated)
        }
    }

    /// Reads `size` bytes as a NUL-truncated text field.
    pub fn read_string(&mut self, size: usize) -> (r: Result<String, DecodeError>)
        ensures
            final(self).spec_data() == old(self).spec_data(),
            mirrors_view(
                spec_read_string(old(self).spec_data(), old(self).spec_pos(), size as int),
                r,
                final(self).spec_pos(),
            ),
            r is Err ==> final(self).spec_pos() == old(self).spec_pos(),
    {
        let bytes = self.read(size)?;
        Ok(field_text(&bytes))
    }

    /// The buffer length.
    pub fn get_size(&self) -> (r: usize)
        ensures
            r == self.spec_data().len(),
    {
        self.data.len()
    }

    /// The current cursor position.
    pub fn get_position(&self) -> (r: usize)
        ensures
            r == self.spec_pos(),
    {
        self.pos
    }

    /// Moves the cursor to an absolute position, possibly beyond the end of
    /// the buffer: every read attempted there fails.
    pub fn set_position(&mut self, position: usize)
        ensures
            final(self).spec_data() == old(self).spec_data(),
            final(self).spec_pos() == position as int,
    {
        self.pos = position;
    }

    /// Moves the cursor `size` bytes forward, saturating at `usize::MAX`.
    pub fn skip(&mut self, size: usize)
        ensures
            final(self).spec_data() == old(self).spec_data(),
            final(self).spec_pos() == sat_add(old(self).spec_pos(), size as int),
    {
        if self.pos <= usize::MAX - size {
            self.pos = self.pos + size;
        } else {
            self.pos = usize::MAX;
        }
    }
}

} // verus!
