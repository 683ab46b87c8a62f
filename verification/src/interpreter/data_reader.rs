use crate::error::ImageError;
use vstd::prelude::*;

verus! {

/// The little-endian 16-bit value at `pos`.
pub open spec fn spec_u16_le(s: Seq<u8>, pos: int) -> int {
    s[pos] as int + 0x100 * s[pos + 1] as int
}

/// The little-endian 32-bit value at `pos`.
pub open spec fn spec_u32_le(s: Seq<u8>, pos: int) -> int {
    spec_u16_le(s, pos) + 0x1_0000 * spec_u16_le(s, pos + 2)
}

/// The little-endian 64-bit value at `pos`.
pub open spec fn spec_u64_le(s: Seq<u8>, pos: int) -> int {
    spec_u32_le(s, pos) + 0x1_0000_0000 * spec_u32_le(s, pos + 4)
}

/// How many bytes the compressed integer at `pos` takes: 1, 2 or 4, going by the top
/// bits of its first byte; 0 where the data ends before the integer does.
pub open spec fn spec_compressed_size(s: Seq<u8>, pos: int) -> int {
    if pos < 0 || pos >= s.len() {
        0
    } else if s[pos] < 0x80 {
        1
    } else if s[pos] < 0xC0 {
        if pos + 2 <= s.len() {
            2
        } else {
            0
        }
    } else {
        if pos + 4 <= s.len() {
            4
        } else {
            0
        }
    }
}

/// The value of the compressed unsigned integer at `pos`: the bits of the first byte
/// below its length marker, then the following bytes, big-endian.
pub open spec fn spec_compressed_u32(s: Seq<u8>, pos: int) -> int {
    if s[pos] < 0x80 {
        s[pos] as int
    } else if s[pos] < 0xC0 {
        (s[pos] - 0x80) * 0x100 + s[pos + 1]
    } else {
        (s[pos] as int % 0x20) * 0x100_0000 + s[pos + 1] * 0x1_0000 + s[pos + 2] * 0x100 + s[pos
            + 3]
    }
}

/// Half the range of a compressed signed integer of `size` bytes.
pub open spec fn spec_compressed_half(size: int) -> int {
    if size == 1 {
        0x40
    } else if size == 2 {
        0x2000
    } else {
        0x1000_0000
    }
}

/// The signed reading of an unsigned compressed value: its lowest bit is the sign,
/// the bits above it are the low bits of the two's-complement value.
pub open spec fn spec_compressed_i32(unsigned: int, size: int) -> int {
    if unsigned % 2 == 0 {
        unsigned / 2
    } else {
        unsigned / 2 - spec_compressed_half(size)
    }
}

/// The first place at or after `from` and before `limit` that holds a zero byte;
/// `limit` (or `from`, if that is later) where there is none.
pub open spec fn spec_scan_zero(s: Seq<u8>, from: int, limit: int) -> int
    decreases limit - from,
{
    if from >= limit || from < 0 || from >= s.len() || s[from] == 0 {
        from
    } else {
        spec_scan_zero(s, from + 1, limit)
    }
}

/// Each byte read as the character with that code.
pub open spec fn spec_ascii(s: Seq<u8>) -> Seq<char> {
    Seq::new(s.len(), |i: int| s[i] as char)
}

pub proof fn lemma_scan_zero_bounds(s: Seq<u8>, from: int, limit: int)
    requires
        0 <= from <= limit <= s.len(),
    ensures
        from <= spec_scan_zero(s, from, limit) <= limit,
        spec_scan_zero(s, from, limit) < limit ==> s[spec_scan_zero(s, from, limit)] == 0,
        forall|i: int| from <= i < spec_scan_zero(s, from, limit) ==> s[i] != 0,
    decreases limit - from,
{
    if from < limit && s[from] != 0 {
        lemma_scan_zero_bounds(s, from + 1, limit);
    }
}

/// `String::push`: the string grows by exactly the character given.
#[verifier::external_body]
pub(crate) fn push_char(string: &mut String, c: char)
    ensures
        final(string)@ == old(string)@.push(c),
{
    string.push(c);
}

/// Adds the character whose code is `byte`.
pub(crate) fn push_byte_char(string: &mut String, byte: u8)
    ensures
        final(string)@ == old(string)@.push(byte as char),
{
    push_char(string, byte as char);
}

/// A block of bytes with a cursor. The plain readers move the reader's own cursor;
/// those named `_immut` leave the reader alone and move a cursor of the caller's.
/// A read that would pass the end of the data fails and moves no cursor.
#[derive(Debug)]
pub struct DataReader {
    data: Vec<u8>,
    position: usize,
}

impl DataReader {
    #[verifier::type_invariant]
    spec fn inv(&self) -> bool {
        self.position <= self.data@.len()
    }

    /// The bytes the reader holds.
    pub closed spec fn bytes(&self) -> Seq<u8> {
        self.data@
    }

    /// The reader's cursor.
    pub closed spec fn pos(&self) -> nat {
        self.position as nat
    }

    /// True where `size` bytes can be read at `position`.
    pub open spec fn spec_fits(&self, position: int, size: int) -> bool {
        position + size <= self.bytes().len()
    }

    pub fn new(data: Vec<u8>) -> (reader: DataReader)
        ensures
            reader.bytes() == data@,
            reader.pos() == 0,
    {
        DataReader { data, position: 0 }
    }

    /// A reader with no data.
    pub fn empty() -> (reader: DataReader)
        ensures
            reader.bytes() == Seq::<u8>::empty(),
            reader.pos() == 0,
    {
        DataReader { data: Vec::new(), position: 0 }
    }

    /// The number of bytes the reader holds.
    pub fn len(&self) -> (n: usize)
        ensures
            n == self.bytes().len(),
    {
        self.data.len()
    }

    fn copy_range(&self, position: usize, size: usize) -> (out: Vec<u8>)
        requires
            position + size <= self.bytes().len(),
        ensures
            out@ == self.bytes().subrange(position as int, position + size),
    {
        let mut out: Vec<u8> = Vec::with_capacity(size);
        let mut i: usize = 0;
        while i < size
            invariant
                i <= size,
                position + size <= self.data.len(),
                out@ == self.data@.subrange(position as int, position + i),
            decreases size - i,
        {
            out.push(self.data[position + i]);
            i += 1;
            assert(out@ =~= self.data@.subrange(position as int, position + i));
        }
        out
    }

    /// An independent reader over the `size` bytes at the cursor.
    pub fn slice(&self, size: usize) -> (result: Result<DataReader, ImageError>)
        ensures
            match result {
                Ok(r) => self.spec_fits(self.pos() as int, size as int) && r.pos() == 0 && r.bytes()
                    == self.bytes().subrange(self.pos() as int, self.pos() + size),
                Err(e) => !self.spec_fits(self.pos() as int, size as int) && e
                    == ImageError::UnexpectedEof,
            },
    {
        self.slice_from(self.position, size)
    }

    /// An independent reader over the `size` bytes at `position`.
    pub fn slice_from(&self, position: usize, size: usize) -> (result: Result<
        DataReader,
        ImageError,
    >)
        ensures
            match result {
                Ok(r) => self.spec_fits(position as int, size as int) && r.pos() == 0
                    && r.bytes() == self.bytes().subrange(position as int, position + size),
                Err(e) => !self.spec_fits(position as int, size as int) && e
                    == ImageError::UnexpectedEof,
            },
    {
        match self.check_position(position, size) {
            Ok(()) => {},
            Err(e) => {
                return Err(e);
            },
        }
        let data: Vec<u8> = self.copy_range(position, size);
        Ok(DataReader { data, position: 0 })
    }

    /// Succeeds where `size` bytes can be read at `position`.
    pub fn check_position(&self, position: usize, size: usize) -> (result: Result<
        (),
        ImageError,
    >)
        ensures
            result.is_ok() <==> self.spec_fits(position as int, size as int),
            result.is_err() ==> result == Err::<(), ImageError>(ImageError::UnexpectedEof),
            self.bytes().len() <= usize::MAX,
    {
        if position > self.data.len() || size > self.data.len() - position {
            return Err(ImageError::UnexpectedEof);
        }
        Ok(())
    }

    /// Moves the cursor to `position`, which may be the end of the data but not beyond.
    pub fn set_position(&mut self, position: usize) -> (result: Result<(), ImageError>)
        ensures
            final(self).bytes() == old(self).bytes(),
            match result {
                Ok(()) => position <= old(self).bytes().len() && final(self).pos() == position,
                Err(e) => position > old(self).bytes().len() && e == ImageError::UnexpectedEof
                    && final(self).pos() == old(self).pos(),
            },
    {
        match self.check_position(position, 0) {
            Ok(()) => {},
            Err(e) => {
                return Err(e);
            },
        }
        self.position = position;
        Ok(())
    }

    pub fn get_position(&self) -> (position: usize)
        ensures
            position == self.pos(),
            position <= self.bytes().len(),
            self.bytes().len() <= usize::MAX,
    {
        proof {
            use_type_invariant(self);
        }
        let _ = self.data.len();
        self.position
    }

    /// Moves the cursor `size` bytes on.
    pub fn advance(&mut self, size: usize) -> (result: Result<(), ImageError>)
        ensures
            final(self).bytes() == old(self).bytes(),
            match result {
                Ok(()) => old(self).spec_fits(old(self).pos() as int, size as int) && final(self).pos()
                    == old(self).pos() + size,
                Err(e) => !old(self).spec_fits(old(self).pos() as int, size as int) && e
                    == ImageError::UnexpectedEof && final(self).pos() == old(self).pos(),
            },
    {
        match self.check_position(self.position, size) {
            Ok(()) => {},
            Err(e) => {
                return Err(e);
            },
        }
        self.position = self.position + size;
        Ok(())
    }

    /// Moves the cursor `size` bytes back.
    pub fn back(&mut self, size: usize) -> (result: Result<(), ImageError>)
        ensures
            final(self).bytes() == old(self).bytes(),
            match result {
                Ok(()) => size <= old(self).pos() && final(self).pos() == old(self).pos() - size,
                Err(e) => size > old(self).pos() && e == ImageError::UnexpectedEof
                    && final(self).pos() == old(self).pos(),
            },
    {
        proof {
            use_type_invariant(&*self);
        }
        if self.position < size {
            return Err(ImageError::UnexpectedEof);
        }
        self.position = self.position - size;
        Ok(())
    }

    pub fn read_u8(&mut self) -> (result: Result<u8, ImageError>)
        ensures
            final(self).bytes() == old(self).bytes(),
            match result {
                Ok(v) => old(self).spec_fits(old(self).pos() as int, 1) && v == old(self).bytes()[old(self).pos() as int] && final(self).pos() == old(self).pos() + 1,
                Err(e) => !old(self).spec_fits(old(self).pos() as int, 1) && e
                    == ImageError::UnexpectedEof && final(self).pos() == old(self).pos(),
            },
    {
        proof {
            use_type_invariant(&*self);
        }
        let mut position: usize = self.position;
        let result = self.read_u8_immut(&mut position);
        self.position = position;
        result
    }

    pub fn read_u8_immut(&self, position: &mut usize) -> (result: Result<u8, ImageError>)
        ensures
            match result {
                Ok(v) => self.spec_fits(*old(position) as int, 1) && v == self.bytes()[*old(position) as int] && *final(position) == *old(position) + 1,
                Err(e) => !self.spec_fits(*old(position) as int, 1) && e
                    == ImageError::UnexpectedEof && *final(position) == *old(position),
            },
    {
        match self.check_position(*position, 1) {
            Ok(()) => {},
            Err(e) => {
                return Err(e);
            },
        }
        let value: u8 = self.data[*position];
        *position = *position + 1;
        Ok(value)
    }

    pub fn read_u16(&mut self) -> (result: Result<u16, ImageError>)
        ensures
            final(self).bytes() == old(self).bytes(),
            match result {
                Ok(v) => old(self).spec_fits(old(self).pos() as int, 2) && v == spec_u16_le(
                    old(self).bytes(),
                    old(self).pos() as int,
                ) && final(self).pos() == old(self).pos() + 2,
                Err(e) => !old(self).spec_fits(old(self).pos() as int, 2) && e
                    == ImageError::UnexpectedEof && final(self).pos() == old(self).pos(),
            },
    {
        proof {
            use_type_invariant(&*self);
        }
        let mut position: usize = self.position;
        let result = self.read_u16_immut(&mut position);
        self.position = position;
        result
    }

    pub fn read_u16_immut(&self, position: &mut usize) -> (result: Result<u16, ImageError>)
        ensures
            match result {
                Ok(v) => self.spec_fits(*old(position) as int, 2) && v == spec_u16_le(
                    self.bytes(),
                    *old(position) as int,
                ) && *final(position) == *old(position) + 2,
                Err(e) => !self.spec_fits(*old(position) as int, 2) && e
                    == ImageError::UnexpectedEof && *final(position) == *old(position),
            },
    {
        match self.check_position(*position, 2) {
            Ok(()) => {},
            Err(e) => {
                return Err(e);
            },
        }
        let p: usize = *position;
        let value: u16 = self.data[p] as u16 + 0x100 * (self.data[p + 1] as u16);
        *position = p + 2;
        Ok(value)
    }

    pub fn read_u32(&mut self) -> (result: Result<u32, ImageError>)
        ensures
            final(self).bytes() == old(self).bytes(),
            match result {
                Ok(v) => old(self).spec_fits(old(self).pos() as int, 4) && v == spec_u32_le(
                    old(self).bytes(),
                    old(self).pos() as int,
                ) && final(self).pos() == old(self).pos() + 4,
                Err(e) => !old(self).spec_fits(old(self).pos() as int, 4) && e
                    == ImageError::UnexpectedEof && final(self).pos() == old(self).pos(),
            },
    {
        proof {
            use_type_invariant(&*self);
        }
        let mut position: usize = self.position;
        let result = self.read_u32_immut(&mut position);
        self.position = position;
        result
    }

    pub fn read_u32_immut(&self, position: &mut usize) -> (result: Result<u32, ImageError>)
        ensures
            match result {
                Ok(v) => self.spec_fits(*old(position) as int, 4) && v == spec_u32_le(
                    self.bytes(),
                    *old(position) as int,
                ) && *final(position) == *old(position) + 4,
                Err(e) => !self.spec_fits(*old(position) as int, 4) && e
                    == ImageError::UnexpectedEof && *final(position) == *old(position),
            },
    {
        match self.check_position(*position, 4) {
            Ok(()) => {},
            Err(e) => {
                return Err(e);
            },
        }
        let p: usize = *position;
        let low: u32 = self.data[p] as u32 + 0x100 * (self.data[p + 1] as u32);
        let high: u32 = self.data[p + 2] as u32 + 0x100 * (self.data[p + 3] as u32);
        *position = p + 4;
        Ok(low + 0x1_0000 * high)
    }

    pub fn read_u64(&mut self) -> (result: Result<u64, ImageError>)
        ensures
            final(self).bytes() == old(self).bytes(),
            match result {
                Ok(v) => old(self).spec_fits(old(self).pos() as int, 8) && v == spec_u64_le(
                    old(self).bytes(),
                    old(self).pos() as int,
                ) && final(self).pos() == old(self).pos() + 8,
                Err(e) => !old(self).spec_fits(old(self).pos() as int, 8) && e
                    == ImageError::UnexpectedEof && final(self).pos() == old(self).pos(),
            },
    {
        proof {
            use_type_invariant(&*self);
        }
        let mut position: usize = self.position;
        let result = self.read_u64_immut(&mut position);
        self.position = position;
        result
    }

    pub fn read_u64_immut(&self, position: &mut usize) -> (result: Result<u64, ImageError>)
        ensures
            match result {
                Ok(v) => self.spec_fits(*old(position) as int, 8) && v == spec_u64_le(
                    self.bytes(),
                    *old(position) as int,
                ) && *final(position) == *old(position) + 8,
                Err(e) => !self.spec_fits(*old(position) as int, 8) && e
                    == ImageError::UnexpectedEof && *final(position) == *old(position),
            },
    {
        match self.check_position(*position, 8) {
            Ok(()) => {},
            Err(e) => {
                return Err(e);
            },
        }
        let mut p: usize = *position;
        let low = self.read_u32_immut(&mut p);
        let high = self.read_u32_immut(&mut p);
        match (low, high) {
            (Ok(l), Ok(h)) => {
                *position = p;
                Ok(l as u64 + 0x1_0000_0000 * (h as u64))
            },
            _ => Err(ImageError::UnexpectedEof),
        }
    }

    /// Reads a compressed unsigned integer. `None` where the data ends before the
    /// integer does; the cursor then stays.
    pub fn try_read_compressed_u32_immut(&self, position: &mut usize) -> (value: Option<u32>)
        ensures
            match value {
                Some(v) => spec_compressed_size(self.bytes(), *old(position) as int) > 0 && v
                    == spec_compressed_u32(self.bytes(), *old(position) as int) && *final(position) == *old(position) + spec_compressed_size(self.bytes(), *old(position) as int),
                None => spec_compressed_size(self.bytes(), *old(position) as int) == 0 && *final(position) == *old(position),
            },
    {
        let p: usize = *position;
        if self.check_position(p, 1).is_err() {
            return None;
        }
        let b: u8 = self.data[p];
        if b < 0x80 {
            *position = p + 1;
            return Some(b as u32);
        }
        if b < 0xC0 {
            if self.check_position(p, 2).is_err() {
                return None;
            }
            *position = p + 2;
            return Some(((b - 0x80) as u32) * 0x100 + self.data[p + 1] as u32);
        }
        if self.check_position(p, 4).is_err() {
            return None;
        }
        *position = p + 4;
        Some(
            ((b % 0x20) as u32) * 0x100_0000 + (self.data[p + 1] as u32) * 0x1_0000 + (self.data[p
                + 2] as u32) * 0x100 + self.data[p + 3] as u32,
        )
    }

    /// Reads a compressed signed integer: a compressed unsigned integer whose lowest
    /// bit is the sign.
    pub fn try_read_compressed_i32_immut(&self, position: &mut usize) -> (value: Option<i32>)
        ensures
            match value {
                Some(v) => spec_compressed_size(self.bytes(), *old(position) as int) > 0 && v
                    == spec_compressed_i32(
                    spec_compressed_u32(self.bytes(), *old(position) as int),
                    spec_compressed_size(self.bytes(), *old(position) as int),
                ) && *final(position) == *old(position) + spec_compressed_size(
                    self.bytes(),
                    *old(position) as int,
                ),
                None => spec_compressed_size(self.bytes(), *old(position) as int) == 0 && *final(position) == *old(position),
            },
    {
        let start: usize = *position;
        match self.try_read_compressed_u32_immut(position) {
            None => None,
            Some(unsigned) => {
                let size: usize = *position - start;
                let half: i32 = if size == 1 {
                    0x40
                } else if size == 2 {
                    0x2000
                } else {
                    0x1000_0000
                };
                let magnitude: i32 = (unsigned / 2) as i32;
                if unsigned % 2 == 0 {
                    Some(magnitude)
                } else {
                    Some(magnitude - half)
                }
            },
        }
    }

    /// Fills `array` from the cursor on.
    pub fn read_bytes(&mut self, array: &mut Vec<u8>) -> (result: Result<(), ImageError>)
        ensures
            final(self).bytes() == old(self).bytes(),
            match result {
                Ok(()) => old(self).spec_fits(old(self).pos() as int, old(array)@.len() as int)
                    && final(array)@ == old(self).bytes().subrange(
                    old(self).pos() as int,
                    old(self).pos() as int + old(array)@.len() as int,
                ) && final(self).pos() == old(self).pos() + old(array)@.len(),
                Err(e) => !old(self).spec_fits(old(self).pos() as int, old(array)@.len() as int) && e
                    == ImageError::UnexpectedEof && final(self).pos() == old(self).pos()
                    && final(array)@ == old(array)@,
            },
    {
        proof {
            use_type_invariant(&*self);
        }
        let mut position: usize = self.position;
        let result = self.read_bytes_immut(&mut position, array);
        self.position = position;
        result
    }

    /// Fills `array` from `position` on.
    pub fn read_bytes_immut(&self, position: &mut usize, array: &mut Vec<u8>) -> (result: Result<
        (),
        ImageError,
    >)
        ensures
            match result {
                Ok(()) => self.spec_fits(*old(position) as int, old(array)@.len() as int)
                    && final(array)@ == self.bytes().subrange(
                    *old(position) as int,
                    *old(position) + old(array)@.len(),
                ) && *final(position) == *old(position) + old(array)@.len(),
                Err(e) => !self.spec_fits(*old(position) as int, old(array)@.len() as int) && e
                    == ImageError::UnexpectedEof && *final(position) == *old(position) && final(array)@ == old(array)@,
            },
    {
        let length: usize = array.len();
        let result = self.read_bytes_exact_immut(position, array, length);
        proof {
            if result.is_ok() {
                assert(array@ =~= self.bytes().subrange(
                    *old(position) as int,
                    *old(position) + old(array)@.len(),
                ));
            }
        }
        result
    }

    /// Fills the first `length` places of `array` from the cursor on.
    pub fn read_bytes_exact(&mut self, array: &mut Vec<u8>, length: usize) -> (result: Result<
        (),
        ImageError,
    >)
        requires
            length <= old(array)@.len(),
        ensures
            final(self).bytes() == old(self).bytes(),
            match result {
                Ok(()) => old(self).spec_fits(old(self).pos() as int, length as int) && final(array)@
                    == old(self).bytes().subrange(old(self).pos() as int, old(self).pos() + length)
                    + old(array)@.subrange(length as int, old(array)@.len() as int) && final(self).pos() == old(self).pos() + length,
                Err(e) => !old(self).spec_fits(old(self).pos() as int, length as int) && e
                    == ImageError::UnexpectedEof && final(self).pos() == old(self).pos()
                    && final(array)@ == old(array)@,
            },
    {
        proof {
            use_type_invariant(&*self);
        }
        let mut position: usize = self.position;
        let result = self.read_bytes_exact_immut(&mut position, array, length);
        self.position = position;
        result
    }

    /// Fills the first `length` places of `array` from `position` on.
    pub fn read_bytes_exact_immut(
        &self,
        position: &mut usize,
        array: &mut Vec<u8>,
        length: usize,
    ) -> (result: Result<(), ImageError>)
        requires
            length <= old(array)@.len(),
        ensures
            match result {
                Ok(()) => self.spec_fits(*old(position) as int, length as int) && final(array)@
                    == self.bytes().subrange(*old(position) as int, *old(position) + length)
                    + old(array)@.subrange(length as int, old(array)@.len() as int) && *final(position) == *old(position) + length,
                Err(e) => !self.spec_fits(*old(position) as int, length as int) && e
                    == ImageError::UnexpectedEof && *final(position) == *old(position) && final(array)@ == old(array)@,
            },
    {
        match self.check_position(*position, length) {
            Ok(()) => {},
            Err(e) => {
                return Err(e);
            },
        }
        let p: usize = *position;
        let ghost before = array@;
        let mut i: usize = 0;
        while i < length
            invariant
                i <= length <= before.len(),
                p + length <= self.data.len(),
                array@.len() == before.len(),
                array@ =~= self.data@.subrange(p as int, p + i) + before.subrange(
                    i as int,
                    before.len() as int,
                ),
            decreases length - i,
        {
            array.set(i, self.data[p + i]);
            i += 1;
        }
        *position = p + length;
        Ok(())
    }

    /// Fills `vec` from the cursor on.
    pub fn read_bytes_vec(&mut self, vec: &mut Vec<u8>) -> (result: Result<(), ImageError>)
        ensures
            final(self).bytes() == old(self).bytes(),
            match result {
                Ok(()) => old(self).spec_fits(old(self).pos() as int, old(vec)@.len() as int) && final(vec)@ == old(self).bytes().subrange(
                    old(self).pos() as int,
                    old(self).pos() as int + old(vec)@.len() as int,
                ) && final(self).pos() == old(self).pos() + old(vec)@.len(),
                Err(e) => !old(self).spec_fits(old(self).pos() as int, old(vec)@.len() as int) && e
                    == ImageError::UnexpectedEof && final(self).pos() == old(self).pos()
                    && final(vec)@ == old(vec)@,
            },
    {
        proof {
            use_type_invariant(&*self);
        }
        self.read_bytes(vec)
    }

    /// Fills `vec` from `position` on.
    pub fn read_bytes_vec_immut(&self, position: &mut usize, vec: &mut Vec<u8>) -> (result:
        Result<(), ImageError>)
        ensures
            match result {
                Ok(()) => self.spec_fits(*old(position) as int, old(vec)@.len() as int) && final(vec)@ == self.bytes().subrange(
                    *old(position) as int,
                    *old(position) + old(vec)@.len(),
                ) && *final(position) == *old(position) + old(vec)@.len(),
                Err(e) => !self.spec_fits(*old(position) as int, old(vec)@.len() as int) && e
                    == ImageError::UnexpectedEof && *final(position) == *old(position) && final(vec)@ == old(vec)@,
            },
    {
        self.read_bytes_immut(position, vec)
    }

    /// The `length` bytes at `position`, as a new vector.
    pub fn read_bytes_vec_exact_immut(&self, position: &mut usize, length: usize) -> (result:
        Result<Vec<u8>, ImageError>)
        ensures
            match result {
                Ok(v) => self.spec_fits(*old(position) as int, length as int) && v@
                    == self.bytes().subrange(*old(position) as int, *old(position) + length)
                    && *final(position) == *old(position) + length,
                Err(e) => !self.spec_fits(*old(position) as int, length as int) && e
                    == ImageError::UnexpectedEof && *final(position) == *old(position),
            },
    {
        match self.check_position(*position, length) {
            Ok(()) => {},
            Err(e) => {
                return Err(e);
            },
        }
        let vec: Vec<u8> = self.copy_range(*position, length);
        *position = *position + length;
        Ok(vec)
    }

    /// Reads a string that lies in a window of `max_length` bytes at the cursor and
    /// ends at the first zero byte of the window, or with the window.
    pub fn read_string(&mut self, max_length: usize) -> (result: Result<String, ImageError>)
        ensures
            final(self).bytes() == old(self).bytes(),
            match result {
                Ok(s) => old(self).spec_fits(old(self).pos() as int, max_length as int) && s@
                    == spec_ascii(
                    old(self).bytes().subrange(
                        old(self).pos() as int,
                        spec_scan_zero(
                            old(self).bytes(),
                            old(self).pos() as int,
                            old(self).pos() + max_length,
                        ),
                    ),
                ) && final(self).pos() == old(self).pos() + max_length,
                Err(e) => !old(self).spec_fits(old(self).pos() as int, max_length as int) && e
                    == ImageError::UnexpectedEof && final(self).pos() == old(self).pos(),
            },
    {
        proof {
            use_type_invariant(&*self);
        }
        let mut position: usize = self.position;
        let result = self.read_string_immut(&mut position, max_length);
        self.position = position;
        result
    }

    /// Reads a string that lies in a window of `max_length` bytes at `position`.
    pub fn read_string_immut(&self, position: &mut usize, max_length: usize) -> (result: Result<
        String,
        ImageError,
    >)
        ensures
            match result {
                Ok(s) => self.spec_fits(*old(position) as int, max_length as int) && s@
                    == spec_ascii(
                    self.bytes().subrange(
                        *old(position) as int,
                        spec_scan_zero(
                            self.bytes(),
                            *old(position) as int,
                            *old(position) + max_length,
                        ),
                    ),
                ) && *final(position) == *old(position) + max_length,
                Err(e) => !self.spec_fits(*old(position) as int, max_length as int) && e
                    == ImageError::UnexpectedEof && *final(position) == *old(position),
            },
    {
        match self.check_position(*position, max_length) {
            Ok(()) => {},
            Err(e) => {
                return Err(e);
            },
        }
        let start: usize = *position;
        let limit: usize = start + max_length;
        let (string, end) = self.scan_string(start, limit);
        *position = limit;
        Ok(string)
    }

    /// The characters from `start` up to the first zero byte before `limit`, and
    /// the place where the scan stopped.
    fn scan_string(&self, start: usize, limit: usize) -> (out: (String, usize))
        requires
            start <= limit <= self.bytes().len(),
        ensures
            out.1 == spec_scan_zero(self.bytes(), start as int, limit as int),
            start <= out.1 <= limit,
            out.0@ == spec_ascii(self.bytes().subrange(start as int, out.1 as int)),
    {
        let mut string = String::new();
        let mut i: usize = start;
        while i < limit && self.data[i] != 0
            invariant
                start <= i <= limit <= self.data@.len(),
                spec_scan_zero(self.data@, start as int, limit as int) == spec_scan_zero(
                    self.data@,
                    i as int,
                    limit as int,
                ),
                string@ == spec_ascii(self.data@.subrange(start as int, i as int)),
            decreases limit - i,
        {
            push_byte_char(&mut string, self.data[i]);
            i += 1;
            assert(string@ =~= spec_ascii(self.data@.subrange(start as int, i as int)));
        }
        (string, i)
    }

    /// Reads a string that ends at the first zero byte at or after the cursor, and
    /// moves the cursor past that byte. Fails, and moves nothing, where no zero byte
    /// follows.
    pub fn read_string_to_0(&mut self) -> (result: Result<String, ImageError>)
        ensures
            final(self).bytes() == old(self).bytes(),
            match result {
                Ok(s) => {
                    let end = spec_scan_zero(
                        old(self).bytes(),
                        old(self).pos() as int,
                        old(self).bytes().len() as int,
                    );
                    &&& end < old(self).bytes().len()
                    &&& s@ == spec_ascii(old(self).bytes().subrange(old(self).pos() as int, end))
                    &&& final(self).pos() == end + 1
                },
                Err(e) => spec_scan_zero(
                    old(self).bytes(),
                    old(self).pos() as int,
                    old(self).bytes().len() as int,
                ) >= old(self).bytes().len() && e == ImageError::UnexpectedEof && final(self).pos() == old(self).pos(),
            },
    {
        proof {
            use_type_invariant(&*self);
        }
        let limit: usize = self.data.len();
        let (string, end) = self.scan_string(self.position, limit);
        if end >= limit {
            return Err(ImageError::UnexpectedEof);
        }
        self.position = end + 1;
        Ok(string)
    }
}

} // verus!
