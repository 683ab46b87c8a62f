use crate::error::ImageError;
use crate::interpreter::data_reader::{push_byte_char, spec_ascii, spec_scan_zero, DataReader};
use vstd::prelude::*;

verus! {

/// The `#Strings` heap: names, each closed by a zero byte, found by their offset.
#[derive(Debug)]
pub struct StringsStream {
    data: Vec<u8>,
}

impl StringsStream {
    /// The bytes of the heap.
    pub closed spec fn bytes(&self) -> Seq<u8> {
        self.data@
    }

    /// Where the string at `offset` ends: at the first zero byte from there on.
    pub open spec fn spec_string_end(&self, offset: int) -> int {
        spec_scan_zero(self.bytes(), offset, self.bytes().len() as int)
    }

    /// True where a string closed by a zero byte starts at `offset`.
    pub open spec fn spec_has_string(&self, offset: int) -> bool {
        0 <= offset < self.bytes().len() && self.spec_string_end(offset) < self.bytes().len()
    }

    /// The string at `offset`; the empty string at offset zero.
    pub open spec fn spec_string(&self, offset: int) -> Seq<char> {
        if offset == 0 {
            Seq::<char>::empty()
        } else {
            spec_ascii(self.bytes().subrange(offset, self.spec_string_end(offset)))
        }
    }

    /// Takes the heap of `size` bytes from the cursor of `reader`.
    pub fn new(reader: &mut DataReader, size: u32) -> (result: Result<StringsStream, ImageError>)
        ensures
            final(reader).bytes() == old(reader).bytes(),
            match result {
                Ok(stream) => old(reader).spec_fits(old(reader).pos() as int, size as int)
                    && stream.bytes() == old(reader).bytes().subrange(
                    old(reader).pos() as int,
                    old(reader).pos() + size,
                ) && final(reader).pos() == old(reader).pos() + size,
                Err(e) => !old(reader).spec_fits(old(reader).pos() as int, size as int) && e
                    == ImageError::UnexpectedEof && final(reader).pos() == old(reader).pos(),
            },
    {
        let mut position: usize = reader.get_position();
        let data: Vec<u8> = reader.read_bytes_vec_exact_immut(&mut position, size as usize)?;
        let _ = reader.set_position(position);
        Ok(StringsStream { data })
    }

    /// A heap with no bytes.
    pub fn empty() -> (stream: StringsStream)
        ensures
            stream.bytes() == Seq::<u8>::empty(),
    {
        StringsStream { data: Vec::new() }
    }

    /// A copy of the string at `offset`. Offset zero gives the empty string.
    pub fn get_string_clone(&self, offset: u32) -> (result: Result<String, ImageError>)
        ensures
            match result {
                Ok(s) => (offset == 0 || self.spec_has_string(offset as int)) && s@
                    == self.spec_string(offset as int),
                Err(e) => offset != 0 && !self.spec_has_string(offset as int) && e
                    == ImageError::UnexpectedEof,
            },
    {
        if offset == 0 {
            return Ok(String::new());
        }
        self.read_string_to_0(offset)
    }

    /// The string from `offset` up to the first zero byte.
    pub fn read_string_to_0(&self, offset: u32) -> (result: Result<String, ImageError>)
        ensures
            match result {
                Ok(s) => self.spec_has_string(offset as int) && s@ == spec_ascii(
                    self.bytes().subrange(offset as int, self.spec_string_end(offset as int)),
                ),
                Err(e) => !self.spec_has_string(offset as int) && e == ImageError::UnexpectedEof,
            },
    {
        let len: usize = self.data.len();
        let start: usize = offset as usize;
        if start >= len {
            return Err(ImageError::UnexpectedEof);
        }
        let mut string = String::new();
        let mut i: usize = start;
        while i < len && self.data[i] != 0
            invariant
                start <= i <= len,
                len == self.data@.len(),
                spec_scan_zero(self.data@, start as int, len as int) == spec_scan_zero(
                    self.data@,
                    i as int,
                    len as int,
                ),
                string@ == spec_ascii(self.data@.subrange(start as int, i as int)),
            decreases len - i,
        {
            push_byte_char(&mut string, self.data[i]);
            i += 1;
            assert(string@ =~= spec_ascii(self.data@.subrange(start as int, i as int)));
        }
        if i >= len {
            return Err(ImageError::UnexpectedEof);
        }
        Ok(string)
    }
}

} // verus!
