use crate::error::ImageError;
use crate::interpreter::data_reader::{spec_compressed_size, spec_compressed_u32, DataReader};
use vstd::prelude::*;

verus! {

/// A block of bytes from which compressed integers are read at offsets.
#[derive(Debug)]
pub struct CompressedStream {
    pub data: Vec<u8>,
}

impl CompressedStream {
    /// Takes `size` bytes from the cursor of `reader`.
    pub fn new(reader: &mut DataReader, size: u32) -> (result: Result<
        CompressedStream,
        ImageError,
    >)
        ensures
            final(reader).bytes() == old(reader).bytes(),
            match result {
                Ok(stream) => old(reader).spec_fits(old(reader).pos() as int, size as int)
                    && stream.data@ == old(reader).bytes().subrange(
                    old(reader).pos() as int,
                    old(reader).pos() + size,
                ) && final(reader).pos() == old(reader).pos() + size,
                Err(e) => !old(reader).spec_fits(old(reader).pos() as int, size as int) && e
                    == ImageError::UnexpectedEof && final(reader).pos() == old(reader).pos(),
            },
    {
        let mut position: usize = reader.get_position();
        let data: Vec<u8> = reader.read_bytes_vec_exact_immut(&mut position, size as usize)?;
        let _ = reader.set_position(position);
        Ok(CompressedStream { data })
    }

    /// Reads a compressed unsigned integer at `offset`, and moves `offset` past it.
    pub fn try_read_compressed_u32(&self, offset: &mut usize) -> (result: Result<u32, ImageError>)
        ensures
            match result {
                Ok(v) => spec_compressed_size(self.data@, *old(offset) as int) > 0 && v
                    == spec_compressed_u32(self.data@, *old(offset) as int) && *final(offset)
                    == *old(offset) + spec_compressed_size(self.data@, *old(offset) as int),
                Err(e) => spec_compressed_size(self.data@, *old(offset) as int) == 0 && e
                    == ImageError::UnexpectedEof && *final(offset) == *old(offset),
            },
    {
        let p: usize = *offset;
        let len: usize = self.data.len();
        if p >= len {
            return Err(ImageError::UnexpectedEof);
        }
        let bytes_left: usize = len - p;
        let b: u8 = self.data[p];
        if b < 0x80 {
            *offset = p + 1;
            return Ok(b as u32);
        }
        if b < 0xC0 {
            if bytes_left < 2 {
                return Err(ImageError::UnexpectedEof);
            }
            *offset = p + 2;
            return Ok(((b - 0x80) as u32) * 0x100 + self.data[p + 1] as u32);
        }
        if bytes_left < 4 {
            return Err(ImageError::UnexpectedEof);
        }
        *offset = p + 4;
        Ok(
            ((b % 0x20) as u32) * 0x100_0000 + (self.data[p + 1] as u32) * 0x1_0000 + (self.data[p
                + 2] as u32) * 0x100 + self.data[p + 3] as u32,
        )
    }

    /// Reads the byte at `offset`, and moves `offset` past it.
    pub fn read_u8(&self, offset: &mut usize) -> (result: Result<u8, ImageError>)
        ensures
            match result {
                Ok(b) => *old(offset) < self.data@.len() && b == self.data@[*old(offset) as int]
                    && *final(offset) == *old(offset) + 1,
                Err(e) => *old(offset) >= self.data@.len() && e == ImageError::UnexpectedEof
                    && *final(offset) == *old(offset),
            },
    {
        if *offset >= self.data.len() {
            return Err(ImageError::UnexpectedEof);
        }
        let b: u8 = self.data[*offset];
        *offset = *offset + 1;
        Ok(b)
    }
}

} // verus!
