use super::image_option_header::{spec_option_header_error, ImageOptionHeader};
use super::image_section_header::ImageSectionHeader;
use crate::error::ImageError;
use crate::interpreter::data_reader::{spec_u16_le, spec_u32_le, DataReader};
use vstd::prelude::*;

verus! {

/// The signature that opens the image.
pub const DOS_SIGNATURE: u16 = 0x5A4D;

/// The signature that opens the NT headers.
pub const NT_SIGNATURE: u32 = 0x0000_4550;

/// Where the offset of the NT headers is kept.
pub const NT_OFFSET_POSITION: usize = 0x3C;

/// The headers of a portable-executable image: the file header, the optional
/// header and the section table.
#[derive(Debug)]
pub struct PE {
    pub nt_headers_offset: usize,
    pub machine: u16,
    pub num_of_sections: u16,
    pub timestamp: u32,
    pub pointer_to_symbol_table: u32,
    pub num_of_symbols: u32,
    pub size_of_optional_header: u16,
    pub characteristics: u16,
    pub image_option_header: ImageOptionHeader,
    pub image_section_headers: Vec<ImageSectionHeader>,
}

/// Where the NT headers of the image start.
pub open spec fn spec_nt_offset(s: Seq<u8>) -> int {
    spec_u32_le(s, 0x3C)
}

/// Where the section table of the image starts: behind the optional header.
pub open spec fn spec_section_table(s: Seq<u8>) -> int {
    spec_nt_offset(s) + 24 + spec_u16_le(s, spec_nt_offset(s) + 20)
}

/// How many section headers are read: as many as the file header declares, but no
/// more than fit between the end of the first header's pointer field and the raw
/// data of the first section.
pub open spec fn spec_section_count(s: Seq<u8>) -> int {
    let declared = spec_u16_le(s, spec_nt_offset(s) + 6);
    let first = spec_u32_le(s, spec_section_table(s) + 0x14);
    let after = spec_section_table(s) + 0x18;
    let room = if first >= after {
        (first - after) / 0x28
    } else {
        0
    };
    if declared == 0 {
        0
    } else if room < declared {
        room
    } else {
        declared
    }
}

/// Why the headers of the image cannot be read, if they cannot.
pub open spec fn spec_pe_error(s: Seq<u8>) -> Option<ImageError> {
    let nt = spec_nt_offset(s);
    if 2 > s.len() {
        Some(ImageError::UnexpectedEof)
    } else if spec_u16_le(s, 0) != 0x5A4D {
        Some(ImageError::InvalidData)
    } else if 0x40 > s.len() || nt + 4 > s.len() {
        Some(ImageError::UnexpectedEof)
    } else if spec_u32_le(s, nt) != 0x4550 {
        Some(ImageError::InvalidData)
    } else if nt + 24 > s.len() {
        Some(ImageError::UnexpectedEof)
    } else if spec_u16_le(s, nt + 20) == 0 {
        Some(ImageError::InvalidData)
    } else if spec_option_header_error(s, nt + 24, spec_u16_le(s, nt + 20)).is_some() {
        spec_option_header_error(s, nt + 24, spec_u16_le(s, nt + 20))
    } else if spec_section_table(s) > s.len() {
        Some(ImageError::UnexpectedEof)
    } else if spec_u16_le(s, nt + 6) > 0 && spec_section_table(s) + 0x18 > s.len() {
        Some(ImageError::UnexpectedEof)
    } else if spec_section_table(s) + 0x28 * spec_section_count(s) > s.len() {
        Some(ImageError::UnexpectedEof)
    } else {
        None
    }
}

/// The file offset of the address `rva` of the loaded image, going by the sections
/// from `from` on: the first section that holds the address maps it; an address that
/// no section holds maps to itself.
pub open spec fn spec_rva_to_file_offset(sections: Seq<ImageSectionHeader>, rva: u32, from: int) -> int
    decreases sections.len() - from,
{
    if from < 0 || from >= sections.len() {
        rva as int
    } else if sections[from].spec_contains(rva) {
        (rva - sections[from].virtual_address + sections[from].pointer_to_raw_data) % 0x1_0000_0000
    } else {
        spec_rva_to_file_offset(sections, rva, from + 1)
    }
}

impl PE {
    /// True where the headers are what the image `s` holds.
    pub open spec fn spec_parsed_from(&self, s: Seq<u8>) -> bool {
        let nt = spec_nt_offset(s);
        &&& self.nt_headers_offset == nt
        &&& self.machine == spec_u16_le(s, nt + 4)
        &&& self.num_of_sections == spec_section_count(s)
        &&& self.timestamp == spec_u32_le(s, nt + 8)
        &&& self.pointer_to_symbol_table == spec_u32_le(s, nt + 12)
        &&& self.num_of_symbols == spec_u32_le(s, nt + 16)
        &&& self.size_of_optional_header == spec_u16_le(s, nt + 20)
        &&& self.characteristics == spec_u16_le(s, nt + 22)
        &&& self.image_option_header.spec_common_from(s, nt + 24)
        &&& self.image_option_header.spec_sized_from(s, nt + 24)
        &&& self.image_option_header.spec_directories_from(
            s,
            nt + 24,
            self.size_of_optional_header as int,
        )
        &&& self.image_section_headers@.len() == self.num_of_sections
        &&& forall|k: int|
            0 <= k < self.num_of_sections ==> (
            #[trigger] self.image_section_headers@[k]).spec_parsed_from(
                s,
                spec_section_table(s) + 0x28 * k,
            )
    }

    /// Reads the headers of the image that `reader` holds, from its first byte on.
    #[verifier::loop_isolation(false)]
    pub fn new(reader: &mut DataReader) -> (result: Result<PE, ImageError>)
        ensures
            final(reader).bytes() == old(reader).bytes(),
            match result {
                Ok(pe) => spec_pe_error(old(reader).bytes()).is_none() && pe.spec_parsed_from(
                    old(reader).bytes(),
                ) && final(reader).pos() == spec_section_table(old(reader).bytes()) + 0x28
                    * pe.num_of_sections,
                Err(e) => spec_pe_error(old(reader).bytes()) == Some(e),
            },
    {
        let ghost s = reader.bytes();
        reader.set_position(0)?;
        let pe_sig: u16 = reader.read_u16()?;
        if pe_sig != DOS_SIGNATURE {
            return Err(ImageError::InvalidData);
        }
        reader.check_position(0, 0x40)?;
        reader.set_position(NT_OFFSET_POSITION)?;
        let nt_headers_offset: usize = reader.read_u32()? as usize;
        reader.set_position(nt_headers_offset)?;
        let nt_headers_sig: u32 = reader.read_u32()?;
        if nt_headers_sig != NT_SIGNATURE {
            return Err(ImageError::InvalidData);
        }
        reader.check_position(reader.get_position(), 20)?;
        let machine: u16 = reader.read_u16()?;
        let declared: u16 = reader.read_u16()?;
        let timestamp: u32 = reader.read_u32()?;
        let pointer_to_symbol_table: u32 = reader.read_u32()?;
        let num_of_symbols: u32 = reader.read_u32()?;
        let size_of_optional_header: u16 = reader.read_u16()?;
        let characteristics: u16 = reader.read_u16()?;
        if size_of_optional_header == 0 {
            return Err(ImageError::InvalidData);
        }
        let image_option_header: ImageOptionHeader = ImageOptionHeader::new(
            reader,
            size_of_optional_header as u32,
        )?;
        let room_left: usize = reader.len() - image_option_header.start_offset;
        if room_left < size_of_optional_header as usize {
            return Err(ImageError::UnexpectedEof);
        }
        let table: usize = image_option_header.start_offset + size_of_optional_header as usize;
        reader.set_position(table)?;
        let mut num_of_sections: u16 = declared;
        if declared > 0 {
            reader.check_position(table, 0x18)?;
            reader.advance(0x14)?;
            let first_section_offset: usize = reader.read_u32()? as usize;
            let after: usize = reader.get_position();
            let room: usize = if first_section_offset >= after {
                (first_section_offset - after) / 0x28
            } else {
                0
            };
            if room < declared as usize {
                num_of_sections = room as u16;
            }
            reader.set_position(table)?;
        }
        reader.check_position(table, 0x28 * (num_of_sections as usize))?;
        let mut image_section_headers: Vec<ImageSectionHeader> = Vec::with_capacity(
            num_of_sections as usize,
        );
        let mut k: u16 = 0;
        while k < num_of_sections
            invariant
                k <= num_of_sections,
                reader.bytes() == s,
                reader.pos() == table + 0x28 * k,
                table + 0x28 * num_of_sections <= s.len(),
                image_section_headers@.len() == k,
                forall|j: int|
                    0 <= j < k ==> (#[trigger] image_section_headers@[j]).spec_parsed_from(
                        s,
                        table + 0x28 * j,
                    ),
            decreases num_of_sections - k,
        {
            let header: ImageSectionHeader = ImageSectionHeader::new(reader)?;
            image_section_headers.push(header);
            k += 1;
        }
        Ok(
            PE {
                nt_headers_offset,
                machine,
                num_of_sections,
                timestamp,
                pointer_to_symbol_table,
                num_of_symbols,
                size_of_optional_header,
                characteristics,
                image_option_header,
                image_section_headers,
            },
        )
    }

    /// The file offset of the address `rva` of the loaded image.
    pub fn rva_to_file_offset(&self, rva: u32) -> (offset: usize)
        ensures
            offset == spec_rva_to_file_offset(self.image_section_headers@, rva, 0),
    {
        let mut i: usize = 0;
        while i < self.image_section_headers.len()
            invariant
                i <= self.image_section_headers@.len(),
                spec_rva_to_file_offset(self.image_section_headers@, rva, 0)
                    == spec_rva_to_file_offset(self.image_section_headers@, rva, i as int),
            decreases self.image_section_headers@.len() - i,
        {
            let section: &ImageSectionHeader = &self.image_section_headers[i];
            if rva >= section.virtual_address && rva - section.virtual_address
                < section.virtual_size {
                let offset: u32 = (rva - section.virtual_address).wrapping_add(
                    section.pointer_to_raw_data,
                );
                return offset as usize;
            }
            i += 1;
        }
        rva as usize
    }
}

} // verus!
