use super::data_reader::{
    push_byte_char, spec_ascii, spec_scan_zero, spec_u16_le, spec_u32_le, spec_u64_le,
};
use crate::error::ImageError;
use vstd::prelude::*;

verus! {

/// A cursor over the bytes of an image that it does not own.
pub struct ImageReader<'a> {
    image: &'a Vec<u8>,
    position: usize,
}

impl<'a> ImageReader<'a> {
    /// The bytes of the image.
    pub closed spec fn bytes(&self) -> Seq<u8> {
        self.image@
    }

    /// The cursor. It may stand beyond the end of the image; every read from
    /// there fails.
    pub closed spec fn pos(&self) -> nat {
        self.position as nat
    }

    /// True where `size` bytes can be read at the cursor.
    pub open spec fn spec_fits(&self, size: int) -> bool {
        self.pos() + size <= self.bytes().len()
    }

    pub fn new(image: &'a Vec<u8>) -> (reader: ImageReader<'a>)
        ensures
            reader.bytes() == image@,
            reader.pos() == 0,
    {
        ImageReader { image, position: 0 }
    }

    /// Succeeds where `size` bytes can be read at the cursor.
    pub fn check_position(&self, size: usize) -> (result: Result<(), ImageError>)
        ensures
            result.is_ok() <==> self.spec_fits(size as int),
            result.is_err() ==> result == Err::<(), ImageError>(ImageError::UnexpectedEof),
            self.bytes().len() <= usize::MAX,
    {
        let len: usize = self.image.len();
        if self.position > len || size > len - self.position {
            return Err(ImageError::UnexpectedEof);
        }
        Ok(())
    }

    /// Moves the cursor to `position`, and fails where that is beyond the end of
    /// the image. The cursor is moved even then.
    pub fn set_position(&mut self, position: usize) -> (result: Result<(), ImageError>)
        ensures
            final(self).bytes() == old(self).bytes(),
            final(self).pos() == position,
            result.is_ok() <==> position <= old(self).bytes().len(),
            result.is_err() ==> result == Err::<(), ImageError>(ImageError::UnexpectedEof),
    {
        self.position = position;
        self.check_position(0)
    }

    pub fn get_position(&self) -> (position: usize)
        ensures
            position == self.pos(),
    {
        self.position
    }

    /// Moves the cursor `size` bytes on.
    pub fn advance(&mut self, size: usize) -> (result: Result<(), ImageError>)
        ensures
            final(self).bytes() == old(self).bytes(),
            match result {
                Ok(()) => old(self).spec_fits(size as int) && final(self).pos() == old(self).pos()
                    + size,
                Err(e) => !old(self).spec_fits(size as int) && e == ImageError::UnexpectedEof
                    && final(self).pos() == old(self).pos(),
            },
    {
        self.check_position(size)?;
        self.position = self.position + size;
        Ok(())
    }

    /// Moves the cursor `size` bytes back.
    pub fn back(&mut self, size: usize) -> (result: Result<(), ImageError>)
        ensures
            final(self).bytes() == old(self).bytes(),
            match result {
                Ok(()) => size <= old(self).pos() && final(self).pos() == old(self).pos() - size,
                Err(e) => size > old(self).pos() && e == ImageError::UnexpectedEof && final(self).pos() == old(self).pos(),
            },
    {
        if self.position < size {
            return Err(ImageError::UnexpectedEof);
        }
        self.position = self.position - size;
        Ok(())
    }

    pub fn read_u8(&mut self) -> (result: Result<u8, ImageError>)
        ensures
            final(self).bytes() == old(self).bytes(),
            match result {
                Ok(v) => old(self).spec_fits(1) && v == old(self).bytes()[old(self).pos() as int]
                    && final(self).pos() == old(self).pos() + 1,
                Err(e) => !old(self).spec_fits(1) && e == ImageError::UnexpectedEof && final(self).pos() == old(self).pos(),
            },
    {
        self.check_position(1)?;
        let value: u8 = self.image[self.position];
        self.position = self.position + 1;
        Ok(value)
    }

    pub fn read_u16(&mut self) -> (result: Result<u16, ImageError>)
        ensures
            final(self).bytes() == old(self).bytes(),
            match result {
                Ok(v) => old(self).spec_fits(2) && v == spec_u16_le(
                    old(self).bytes(),
                    old(self).pos() as int,
                ) && final(self).pos() == old(self).pos() + 2,
                Err(e) => !old(self).spec_fits(2) && e == ImageError::UnexpectedEof && final(self).pos() == old(self).pos(),
            },
    {
        self.check_position(2)?;
        let p: usize = self.position;
        let value: u16 = self.image[p] as u16 + 0x100 * (self.image[p + 1] as u16);
        self.position = p + 2;
        Ok(value)
    }

    pub fn read_u32(&mut self) -> (result: Result<u32, ImageError>)
        ensures
            final(self).bytes() == old(self).bytes(),
            match result {
                Ok(v) => old(self).spec_fits(4) && v == spec_u32_le(
                    old(self).bytes(),
                    old(self).pos() as int,
                ) && final(self).pos() == old(self).pos() + 4,
                Err(e) => !old(self).spec_fits(4) && e == ImageError::UnexpectedEof && final(self).pos() == old(self).pos(),
            },
    {
        self.check_position(4)?;
        let p: usize = self.position;
        let low: u32 = self.image[p] as u32 + 0x100 * (self.image[p + 1] as u32);
        let high: u32 = self.image[p + 2] as u32 + 0x100 * (self.image[p + 3] as u32);
        self.position = p + 4;
        Ok(low + 0x1_0000 * high)
    }

    pub fn read_u64(&mut self) -> (result: Result<u64, ImageError>)
        ensures
            final(self).bytes() == old(self).bytes(),
            match result {
                Ok(v) => old(self).spec_fits(8) && v == spec_u64_le(
                    old(self).bytes(),
                    old(self).pos() as int,
                ) && final(self).pos() == old(self).pos() + 8,
                Err(e) => !old(self).spec_fits(8) && e == ImageError::UnexpectedEof && final(self).pos() == old(self).pos(),
            },
    {
        self.check_position(8)?;
        let low: u32 = self.read_u32()?;
        let high: u32 = self.read_u32()?;
        Ok(low as u64 + 0x1_0000_0000 * (high as u64))
    }

    /// Fills `array` from the cursor on.
    pub fn read_bytes(&mut self, array: &mut Vec<u8>) -> (result: Result<(), ImageError>)
        ensures
            final(self).bytes() == old(self).bytes(),
            match result {
                Ok(()) => old(self).spec_fits(old(array)@.len() as int) && final(array)@ == old(self).bytes().subrange(
                    old(self).pos() as int,
                    old(self).pos() as int + old(array)@.len() as int,
                ) && final(self).pos() == old(self).pos() + old(array)@.len(),
                Err(e) => !old(self).spec_fits(old(array)@.len() as int) && e
                    == ImageError::UnexpectedEof && final(self).pos() == old(self).pos() && final(array)@ == old(array)@,
            },
    {
        let length: usize = array.len();
        let result = self.read_bytes_exact(array, length);
        proof {
            if result.is_ok() {
                assert(array@ =~= old(self).bytes().subrange(
                    old(self).pos() as int,
                    old(self).pos() as int + old(array)@.len() as int,
                ));
            }
        }
        result
    }

    /// Fills the first `length` places of `array` from the cursor on.
    pub fn read_bytes_exact(&mut self, array: &mut Vec<u8>, length: usize) -> (result: Result<
        (),
        ImageError,
    >)
        requires
            length <= old(array)@.len(),
        ensures
            final(self).bytes() == old(self).bytes(),
            match result {
                Ok(()) => old(self).spec_fits(length as int) && final(array)@ == old(self).bytes().subrange(old(self).pos() as int, old(self).pos() as int + length)
                    + old(array)@.subrange(length as int, old(array)@.len() as int) && final(self).pos() == old(self).pos() + length,
                Err(e) => !old(self).spec_fits(length as int) && e == ImageError::UnexpectedEof
                    && final(self).pos() == old(self).pos() && final(array)@ == old(array)@,
            },
    {
        self.check_position(length)?;
        let p: usize = self.position;
        let ghost before = array@;
        let mut i: usize = 0;
        while i < length
            invariant
                i <= length <= before.len(),
                p + length <= self.image@.len() <= usize::MAX,
                p == self.position,
                self.image == old(self).image,
                array@.len() == before.len(),
                array@ =~= self.image@.subrange(p as int, p + i) + before.subrange(
                    i as int,
                    before.len() as int,
                ),
            decreases length - i,
        {
            array.set(i, self.image[p + i]);
            i += 1;
        }
        self.position = p + length;
        Ok(())
    }

    /// Reads a string that lies in a window of `max_length` bytes at the cursor
    /// and ends at the first zero byte of the window, or with the window.
    pub fn read_string(&mut self, max_length: usize) -> (result: Result<String, ImageError>)
        ensures
            final(self).bytes() == old(self).bytes(),
            match result {
                Ok(s) => old(self).spec_fits(max_length as int) && s@ == spec_ascii(
                    old(self).bytes().subrange(
                        old(self).pos() as int,
                        spec_scan_zero(
                            old(self).bytes(),
                            old(self).pos() as int,
                            old(self).pos() + max_length,
                        ),
                    ),
                ) && final(self).pos() == old(self).pos() + max_length,
                Err(e) => !old(self).spec_fits(max_length as int) && e
                    == ImageError::UnexpectedEof && final(self).pos() == old(self).pos(),
            },
    {
        self.check_position(max_length)?;
        let start: usize = self.position;
        let limit: usize = start + max_length;
        let (string, end) = self.scan_string(start, limit);
        self.position = limit;
        Ok(string)
    }

    fn scan_string(&self, start: usize, limit: usize) -> (out: (String, usize))
        requires
            start <= limit <= self.bytes().len(),
        ensures
            out.1 == spec_scan_zero(self.bytes(), start as int, limit as int),
            start <= out.1 <= limit,
            out.0@ == spec_ascii(self.bytes().subrange(start as int, out.1 as int)),
    {
        let mut string = String::new();
        let mut i: usize = start;
        while i < limit && self.image[i] != 0
            invariant
                start <= i <= limit <= self.image@.len(),
                spec_scan_zero(self.image@, start as int, limit as int) == spec_scan_zero(
                    self.image@,
                    i as int,
                    limit as int,
                ),
                string@ == spec_ascii(self.image@.subrange(start as int, i as int)),
            decreases limit - i,
        {
            push_byte_char(&mut string, self.image[i]);
            i += 1;
            assert(string@ =~= spec_ascii(self.image@.subrange(start as int, i as int)));
        }
        (string, i)
    }

    /// Reads a string that ends at the first zero byte at or after the cursor,
    /// and moves the cursor past that byte. Fails, and moves nothing, where no
    /// zero byte follows.
    pub fn read_string_to_0(&mut self) -> (result: Result<String, ImageError>)
        ensures
            final(self).bytes() == old(self).bytes(),
            match result {
                Ok(s) => {
                    let end = spec_scan_zero(
                        old(self).bytes(),
                        old(self).pos() as int,
                        old(self).bytes().len() as int,
                    );
                    &&& old(self).pos() <= end < old(self).bytes().len()
                    &&& s@ == spec_ascii(old(self).bytes().subrange(old(self).pos() as int, end))
                    &&& final(self).pos() == end + 1
                },
                Err(e) => (old(self).pos() > old(self).bytes().len() || spec_scan_zero(
                    old(self).bytes(),
                    old(self).pos() as int,
                    old(self).bytes().len() as int,
                ) >= old(self).bytes().len()) && e == ImageError::UnexpectedEof && final(self).pos() == old(self).pos(),
            },
    {
        let limit: usize = self.image.len();
        if self.position > limit {
            return Err(ImageError::UnexpectedEof);
        }
        let (string, end) = self.scan_string(self.position, limit);
        if end >= limit {
            return Err(ImageError::UnexpectedEof);
        }
        self.position = end + 1;
        Ok(string)
    }
}

} // verus!
