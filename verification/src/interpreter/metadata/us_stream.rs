use super::blob_stream::{spec_blob, spec_blob_error};
use crate::error::ImageError;
use crate::interpreter::data_reader::{spec_u16_le, DataReader};
use vstd::prelude::*;

verus! {

/// The string that `String::from_utf16_lossy` makes of a sequence of UTF-16 code
/// units: the characters they encode, with the replacement character for each unit
/// that is no part of a valid encoding.
pub uninterp spec fn spec_utf16_lossy(units: Seq<u16>) -> Seq<char>;

/// `String::from_utf16_lossy`: the result is a function of the code units alone.
#[verifier::external_body]
fn utf16_lossy(units: &Vec<u16>) -> (string: String)
    ensures
        string@ == spec_utf16_lossy(units@),
{
    String::from_utf16_lossy(units.as_slice())
}

/// The little-endian code units that `payload` holds, two bytes each; a last odd
/// byte is left out.
pub open spec fn spec_utf16_units(payload: Seq<u8>) -> Seq<u16> {
    Seq::new(payload.len() / 2, |i: int| spec_u16_le(payload, 2 * i) as u16)
}

/// The `#US` heap: entries framed like blobs, each holding a string in UTF-16 and one
/// closing byte.
#[derive(Debug)]
pub struct USStream {
    reader: DataReader,
}

impl USStream {
    /// The bytes of the heap.
    pub closed spec fn bytes(&self) -> Seq<u8> {
        self.reader.bytes()
    }

    /// Takes the heap of `size` bytes from the cursor of `reader`.
    pub fn new(reader: &mut DataReader, size: usize) -> (result: Result<USStream, ImageError>)
        ensures
            final(reader).bytes() == old(reader).bytes(),
            final(reader).pos() == old(reader).pos(),
            match result {
                Ok(stream) => old(reader).spec_fits(old(reader).pos() as int, size as int)
                    && stream.bytes() == old(reader).bytes().subrange(
                    old(reader).pos() as int,
                    old(reader).pos() + size,
                ),
                Err(e) => !old(reader).spec_fits(old(reader).pos() as int, size as int) && e
                    == ImageError::UnexpectedEof,
            },
    {
        Ok(USStream { reader: reader.slice(size)? })
    }

    /// A heap with no bytes.
    pub fn empty() -> (stream: USStream)
        ensures
            stream.bytes() == Seq::<u8>::empty(),
    {
        USStream { reader: DataReader::empty() }
    }

    /// The string of the entry at `offset`. Offset zero gives the empty string.
    pub fn read(&self, offset: usize) -> (result: Result<String, ImageError>)
        ensures
            match result {
                Ok(s) => {
                    &&& offset <= u32::MAX
                    &&& spec_blob_error(self.bytes(), offset as int).is_none()
                    &&& s@ == (if offset == 0 {
                        Seq::<char>::empty()
                    } else {
                        spec_utf16_lossy(spec_utf16_units(spec_blob(self.bytes(), offset as int)))
                    })
                },
                Err(e) => if offset > u32::MAX {
                    e == ImageError::InvalidData
                } else {
                    spec_blob_error(self.bytes(), offset as int) == Some(e)
                },
            },
    {
        if offset == 0 {
            return Ok(String::new());
        }
        if offset > u32::MAX as usize {
            return Err(ImageError::InvalidData);
        }
        let mut position: usize = offset;
        match self.reader.try_read_compressed_u32_immut(&mut position) {
            Some(len) => self.read_utf16_string(position, len as usize),
            None => Err(ImageError::InvalidData),
        }
    }

    /// The string that the `length` bytes at `offset` hold in UTF-16.
    pub fn read_utf16_string(&self, offset: usize, length: usize) -> (result: Result<
        String,
        ImageError,
    >)
        ensures
            match result {
                Ok(s) => offset + length <= self.bytes().len() && s@ == spec_utf16_lossy(
                    spec_utf16_units(self.bytes().subrange(offset as int, offset + length)),
                ),
                Err(e) => offset + length > self.bytes().len() && e == ImageError::UnexpectedEof,
            },
    {
        let mut position: usize = offset;
        let payload: Vec<u8> = self.reader.read_bytes_vec_exact_immut(&mut position, length)?;
        let total: usize = payload.len();
        let count: usize = total / 2;
        let mut units: Vec<u16> = Vec::with_capacity(count);
        let mut i: usize = 0;
        while i < count
            invariant
                i <= count,
                count == payload@.len() / 2,
                payload@.len() <= usize::MAX,
                units@.len() == i,
                forall|j: int|
                    0 <= j < i ==> #[trigger] units@[j] == spec_u16_le(payload@, 2 * j) as u16,
            decreases count - i,
        {
            let unit: u16 = payload[2 * i] as u16 + 0x100 * (payload[2 * i + 1] as u16);
            units.push(unit);
            i += 1;
        }
        assert(units@ =~= spec_utf16_units(payload@));
        Ok(utf16_lossy(&units))
    }
}

} // verus!
