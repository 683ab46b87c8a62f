use crate::error::ImageError;
use crate::interpreter::data_reader::{spec_compressed_size, spec_compressed_u32, DataReader};
use vstd::prelude::*;

verus! {

/// The `#Blob` heap: each entry is a compressed length followed by that many bytes.
#[derive(Debug)]
pub struct BlobStream {
    reader: DataReader,
}

/// The number of bytes that the length of the entry at `offset` takes; zero where no
/// length can be read there.
pub open spec fn spec_blob_prefix(s: Seq<u8>, offset: int) -> int {
    spec_compressed_size(s, offset)
}

/// The number of bytes of the entry at `offset`.
pub open spec fn spec_blob_len(s: Seq<u8>, offset: int) -> int {
    spec_compressed_u32(s, offset)
}

/// Why the entry at `offset` cannot be read, if it cannot: its length is cut off, or
/// its bytes are.
pub open spec fn spec_blob_error(s: Seq<u8>, offset: int) -> Option<ImageError> {
    if offset == 0 {
        None
    } else if spec_blob_prefix(s, offset) == 0 {
        Some(ImageError::InvalidData)
    } else if offset + spec_blob_prefix(s, offset) + spec_blob_len(s, offset) > s.len() {
        Some(ImageError::UnexpectedEof)
    } else {
        None
    }
}

/// The bytes of the entry at `offset`; offset zero is the empty entry.
pub open spec fn spec_blob(s: Seq<u8>, offset: int) -> Seq<u8> {
    if offset == 0 {
        Seq::<u8>::empty()
    } else {
        s.subrange(
            offset + spec_blob_prefix(s, offset),
            offset + spec_blob_prefix(s, offset) + spec_blob_len(s, offset),
        )
    }
}

impl BlobStream {
    /// The bytes of the heap.
    pub closed spec fn bytes(&self) -> Seq<u8> {
        self.reader.bytes()
    }

    /// Takes the heap of `size` bytes from the cursor of `reader`.
    pub fn new(reader: &DataReader, size: usize) -> (result: Result<BlobStream, ImageError>)
        ensures
            match result {
                Ok(stream) => reader.spec_fits(reader.pos() as int, size as int) && stream.bytes()
                    == reader.bytes().subrange(reader.pos() as int, reader.pos() + size),
                Err(e) => !reader.spec_fits(reader.pos() as int, size as int) && e
                    == ImageError::UnexpectedEof,
            },
    {
        Ok(BlobStream { reader: reader.slice(size)? })
    }

    /// A heap with no bytes.
    pub fn empty() -> (stream: BlobStream)
        ensures
            stream.bytes() == Seq::<u8>::empty(),
    {
        BlobStream { reader: DataReader::empty() }
    }

    /// A copy of the bytes of the entry at `offset`.
    pub fn read(&self, offset: u32) -> (result: Result<Vec<u8>, ImageError>)
        ensures
            match result {
                Ok(blob) => spec_blob_error(self.bytes(), offset as int).is_none() && blob@
                    == spec_blob(self.bytes(), offset as int),
                Err(e) => spec_blob_error(self.bytes(), offset as int) == Some(e),
            },
    {
        if offset == 0 {
            return Ok(Vec::new());
        }
        let mut position: usize = offset as usize;
        match self.reader.try_read_compressed_u32_immut(&mut position) {
            Some(length) => self.reader.read_bytes_vec_exact_immut(&mut position, length as usize),
            None => Err(ImageError::InvalidData),
        }
    }

    /// A reader over the bytes of the entry at `offset`.
    pub fn create_reader(&self, offset: u32) -> (result: Result<DataReader, ImageError>)
        ensures
            match result {
                Ok(r) => spec_blob_error(self.bytes(), offset as int).is_none() && r.bytes()
                    == spec_blob(self.bytes(), offset as int) && r.pos() == 0,
                Err(e) => spec_blob_error(self.bytes(), offset as int) == Some(e),
            },
    {
        if offset == 0 {
            return Ok(DataReader::empty());
        }
        let mut position: usize = offset as usize;
        match self.reader.try_read_compressed_u32_immut(&mut position) {
            Some(length) => self.reader.slice_from(position, length as usize),
            None => Err(ImageError::InvalidData),
        }
    }
}

} // verus!
