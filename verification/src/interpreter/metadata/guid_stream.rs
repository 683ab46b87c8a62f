use crate::error::ImageError;
use crate::interpreter::data_reader::DataReader;
use vstd::prelude::*;

verus! {

/// The number of bytes of one record of the `#GUID` heap.
pub const GUID_SIZE: usize = 16;

/// The `#GUID` heap: records of sixteen bytes, counted from one.
#[derive(Debug)]
pub struct GuidStream {
    data: Vec<u8>,
}

impl GuidStream {
    /// The bytes of the heap.
    pub closed spec fn bytes(&self) -> Seq<u8> {
        self.data@
    }

    /// Takes the heap of `size` bytes from the cursor of `reader`, which stays.
    pub fn new(reader: &DataReader, size: usize) -> (result: Result<GuidStream, ImageError>)
        ensures
            match result {
                Ok(stream) => reader.spec_fits(reader.pos() as int, size as int) && stream.bytes()
                    == reader.bytes().subrange(reader.pos() as int, reader.pos() + size),
                Err(e) => !reader.spec_fits(reader.pos() as int, size as int) && e
                    == ImageError::UnexpectedEof,
            },
    {
        let mut position: usize = reader.get_position();
        let data: Vec<u8> = reader.read_bytes_vec_exact_immut(&mut position, size)?;
        Ok(GuidStream { data })
    }

    /// A heap with no records.
    pub fn empty() -> (stream: GuidStream)
        ensures
            stream.bytes() == Seq::<u8>::empty(),
    {
        GuidStream { data: Vec::new() }
    }

    /// The record numbered `index`, counted from one; `None` for index zero and for
    /// a record that the heap does not hold whole.
    pub fn get(&self, index: u32) -> (guid: Option<Vec<u8>>)
        ensures
            match guid {
                Some(g) => index >= 1 && 16 * index <= self.bytes().len() && g@
                    == self.bytes().subrange(16 * (index - 1), 16 * index),
                None => index == 0 || 16 * index > self.bytes().len(),
            },
    {
        if index == 0 {
            return None;
        }
        let end: u64 = 16 * (index as u64);
        let len: usize = self.data.len();
        if end > len as u64 {
            return None;
        }
        let start: usize = (end - 16) as usize;
        let mut guid: Vec<u8> = Vec::with_capacity(GUID_SIZE);
        let mut i: usize = 0;
        while i < 16
            invariant
                i <= 16,
                start + 16 <= self.data@.len(),
                len == self.data@.len(),
                guid@ == self.data@.subrange(start as int, start + i),
            decreases 16 - i,
        {
            guid.push(self.data[start + i]);
            i += 1;
            assert(guid@ =~= self.data@.subrange(start as int, start + i));
        }
        Some(guid)
    }
}

} // verus!
