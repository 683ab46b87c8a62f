use crate::error::ImageError;
use crate::interpreter::data_reader::{spec_u16_le, spec_u32_le, DataReader};
use vstd::prelude::*;

verus! {

/// One entry of the section table: where a section lies in the file and where it
/// is mapped in the loaded image.
#[derive(Clone, Copy, Debug)]
pub struct ImageSectionHeader {
    pub name: [u8; 8],
    pub virtual_size: u32,
    pub virtual_address: u32,
    pub size_of_raw_data: u32,
    pub pointer_to_raw_data: u32,
    pub pointer_to_relocations: u32,
    pub pointer_to_line_numbers: u32,
    pub number_of_relocations: u16,
    pub number_of_line_numbers: u16,
    pub characteristics: u32,
}

/// The number of bytes a section header takes.
pub const SECTION_HEADER_SIZE: usize = 40;

impl ImageSectionHeader {
    /// True where `self` is what the forty bytes at `pos` hold.
    pub open spec fn spec_parsed_from(&self, s: Seq<u8>, pos: int) -> bool {
        &&& self.name@ == s.subrange(pos, pos + 8)
        &&& self.virtual_size == spec_u32_le(s, pos + 8)
        &&& self.virtual_address == spec_u32_le(s, pos + 12)
        &&& self.size_of_raw_data == spec_u32_le(s, pos + 16)
        &&& self.pointer_to_raw_data == spec_u32_le(s, pos + 20)
        &&& self.pointer_to_relocations == spec_u32_le(s, pos + 24)
        &&& self.pointer_to_line_numbers == spec_u32_le(s, pos + 28)
        &&& self.number_of_relocations == spec_u16_le(s, pos + 32)
        &&& self.number_of_line_numbers == spec_u16_le(s, pos + 34)
        &&& self.characteristics == spec_u32_le(s, pos + 36)
    }

    /// True where the section holds the address `rva` of the loaded image.
    pub open spec fn spec_contains(&self, rva: u32) -> bool {
        self.virtual_address <= rva < self.virtual_address + self.virtual_size
    }

    /// Reads one section header at the cursor.
    pub fn new(reader: &mut DataReader) -> (result: Result<ImageSectionHeader, ImageError>)
        ensures
            final(reader).bytes() == old(reader).bytes(),
            match result {
                Ok(h) => old(reader).spec_fits(old(reader).pos() as int, 40) && h.spec_parsed_from(
                    old(reader).bytes(),
                    old(reader).pos() as int,
                ) && final(reader).pos() == old(reader).pos() + 40,
                Err(e) => !old(reader).spec_fits(old(reader).pos() as int, 40) && e
                    == ImageError::UnexpectedEof && final(reader).pos() == old(reader).pos(),
            },
    {
        reader.check_position(reader.get_position(), SECTION_HEADER_SIZE)?;
        let ghost s = reader.bytes();
        let ghost pos = reader.pos() as int;
        let name: [u8; 8] = [
            reader.read_u8()?,
            reader.read_u8()?,
            reader.read_u8()?,
            reader.read_u8()?,
            reader.read_u8()?,
            reader.read_u8()?,
            reader.read_u8()?,
            reader.read_u8()?,
        ];
        assert(name@ =~= s.subrange(pos, pos + 8));
        Ok(
            ImageSectionHeader {
                name,
                virtual_size: reader.read_u32()?,
                virtual_address: reader.read_u32()?,
                size_of_raw_data: reader.read_u32()?,
                pointer_to_raw_data: reader.read_u32()?,
                pointer_to_relocations: reader.read_u32()?,
                pointer_to_line_numbers: reader.read_u32()?,
                number_of_relocations: reader.read_u16()?,
                number_of_line_numbers: reader.read_u16()?,
                characteristics: reader.read_u32()?,
            },
        )
    }
}

} // verus!
