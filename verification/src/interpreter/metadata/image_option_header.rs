use super::image_data_directory::{spec_data_directory, ImageDataDirectory};
use crate::error::ImageError;
use crate::interpreter::data_reader::{spec_u16_le, spec_u32_le, spec_u64_le, DataReader};
use vstd::prelude::*;

verus! {

/// The number of entries of the data-directory array.
pub const DATA_DIR_COUNT: usize = 16;

/// The magic of the 32-bit form of the optional header.
pub const MAGIC_PE32: u16 = 0x010B;

/// The magic of the 64-bit form of the optional header.
pub const MAGIC_PE32_PLUS: u16 = 0x020B;

/// The optional header of the image, in either of its two forms. Fields that are
/// four bytes wide in the 32-bit form are widened; `base_of_data` is zero in the
/// 64-bit form, which has none.
#[derive(Clone, Copy, Debug)]
pub struct ImageOptionHeader {
    pub start_offset: usize,
    pub magic: u16,
    pub major_linker_version: u8,
    pub minor_linker_version: u8,
    pub size_of_code: u32,
    pub size_of_initialized_data: u32,
    pub size_of_uninitialized_data: u32,
    pub address_of_entry_point: u32,
    pub base_of_code: u32,
    pub base_of_data: u32,
    pub image_base: u64,
    pub section_alignment: u32,
    pub file_alignment: u32,
    pub major_operating_system_version: u16,
    pub minor_operating_system_version: u16,
    pub major_image_version: u16,
    pub minor_image_version: u16,
    pub major_subsystem_version: u16,
    pub minor_subsystem_version: u16,
    pub win32_version_value: u32,
    pub size_of_image: u32,
    pub size_of_headers: u32,
    pub check_sum: u32,
    pub subsystem: u16,
    pub dll_characteristics: u16,
    pub size_of_stack_reserve: u64,
    pub size_of_stack_commit: u64,
    pub size_of_heap_reserve: u64,
    pub size_of_heap_commit: u64,
    pub loader_flags: u32,
    pub number_of_rva_and_sizes: u32,
    pub data_directory: [ImageDataDirectory; 16],
}

/// The size of the header up to its data directories: 0x60 bytes in the 32-bit
/// form, 0x70 in the 64-bit form.
pub open spec fn spec_fixed_size(magic: int) -> int {
    if magic == 0x020B {
        0x70
    } else {
        0x60
    }
}

/// How many data directories a header of `total_size` bytes holds, sixteen at most.
pub open spec fn spec_directory_count(magic: int, total_size: int) -> int {
    let room = (total_size - spec_fixed_size(magic)) / 8;
    if room < 0 {
        0
    } else if room > 16 {
        16
    } else {
        room
    }
}

/// Why the optional header at `pos` cannot be read, if it cannot.
pub open spec fn spec_option_header_error(s: Seq<u8>, pos: int, total_size: int) -> Option<
    ImageError,
> {
    let magic = spec_u16_le(s, pos);
    if pos + 2 > s.len() {
        Some(ImageError::UnexpectedEof)
    } else if magic != 0x010B && magic != 0x020B {
        Some(ImageError::InvalidData)
    } else if total_size < spec_fixed_size(magic) {
        Some(ImageError::InvalidData)
    } else if pos + spec_fixed_size(magic) + 8 * spec_directory_count(magic, total_size)
        > s.len() {
        Some(ImageError::UnexpectedEof)
    } else {
        None
    }
}

impl ImageOptionHeader {
    /// True where the fields that both forms share are what the bytes at `pos` hold.
    pub open spec fn spec_common_from(&self, s: Seq<u8>, pos: int) -> bool {
        &&& self.start_offset == pos
        &&& self.magic == spec_u16_le(s, pos)
        &&& self.major_linker_version == s[pos + 2]
        &&& self.minor_linker_version == s[pos + 3]
        &&& self.size_of_code == spec_u32_le(s, pos + 4)
        &&& self.size_of_initialized_data == spec_u32_le(s, pos + 8)
        &&& self.size_of_uninitialized_data == spec_u32_le(s, pos + 12)
        &&& self.address_of_entry_point == spec_u32_le(s, pos + 16)
        &&& self.base_of_code == spec_u32_le(s, pos + 20)
        &&& self.section_alignment == spec_u32_le(s, pos + 32)
        &&& self.file_alignment == spec_u32_le(s, pos + 36)
        &&& self.major_operating_system_version == spec_u16_le(s, pos + 40)
        &&& self.minor_operating_system_version == spec_u16_le(s, pos + 42)
        &&& self.major_image_version == spec_u16_le(s, pos + 44)
        &&& self.minor_image_version == spec_u16_le(s, pos + 46)
        &&& self.major_subsystem_version == spec_u16_le(s, pos + 48)
        &&& self.minor_subsystem_version == spec_u16_le(s, pos + 50)
        &&& self.win32_version_value == spec_u32_le(s, pos + 52)
        &&& self.size_of_image == spec_u32_le(s, pos + 56)
        &&& self.size_of_headers == spec_u32_le(s, pos + 60)
        &&& self.check_sum == spec_u32_le(s, pos + 64)
        &&& self.subsystem == spec_u16_le(s, pos + 68)
        &&& self.dll_characteristics == spec_u16_le(s, pos + 70)
    }

    /// True where the fields whose place or width depends on the form are what the
    /// bytes at `pos` hold.
    pub open spec fn spec_sized_from(&self, s: Seq<u8>, pos: int) -> bool {
        if self.magic == 0x020B {
            &&& self.base_of_data == 0
            &&& self.image_base == spec_u64_le(s, pos + 24)
            &&& self.size_of_stack_reserve == spec_u64_le(s, pos + 72)
            &&& self.size_of_stack_commit == spec_u64_le(s, pos + 80)
            &&& self.size_of_heap_reserve == spec_u64_le(s, pos + 88)
            &&& self.size_of_heap_commit == spec_u64_le(s, pos + 96)
            &&& self.loader_flags == spec_u32_le(s, pos + 104)
            &&& self.number_of_rva_and_sizes == spec_u32_le(s, pos + 108)
        } else {
            &&& self.base_of_data == spec_u32_le(s, pos + 24)
            &&& self.image_base == spec_u32_le(s, pos + 28)
            &&& self.size_of_stack_reserve == spec_u32_le(s, pos + 72)
            &&& self.size_of_stack_commit == spec_u32_le(s, pos + 76)
            &&& self.size_of_heap_reserve == spec_u32_le(s, pos + 80)
            &&& self.size_of_heap_commit == spec_u32_le(s, pos + 84)
            &&& self.loader_flags == spec_u32_le(s, pos + 88)
            &&& self.number_of_rva_and_sizes == spec_u32_le(s, pos + 92)
        }
    }

    /// True where the data directories are what the bytes after the fixed part
    /// hold, as far as the header's size reaches, and zero beyond.
    pub open spec fn spec_directories_from(&self, s: Seq<u8>, pos: int, total_size: int) -> bool {
        forall|i: int|
            0 <= i < 16 ==> #[trigger] self.data_directory@[i] == (if i < spec_directory_count(
                self.magic as int,
                total_size,
            ) {
                spec_data_directory(s, pos + spec_fixed_size(self.magic as int) + 8 * i)
            } else {
                ImageDataDirectory { virtual_address: 0, size: 0 }
            })
    }

    /// Reads the optional header of `total_size` bytes at the cursor.
    pub fn new(reader: &mut DataReader, total_size: u32) -> (result: Result<
        ImageOptionHeader,
        ImageError,
    >)
        ensures
            final(reader).bytes() == old(reader).bytes(),
            match result {
                Ok(h) => {
                    &&& spec_option_header_error(
                        old(reader).bytes(),
                        old(reader).pos() as int,
                        total_size as int,
                    ).is_none()
                    &&& h.spec_common_from(old(reader).bytes(), old(reader).pos() as int)
                    &&& h.spec_sized_from(old(reader).bytes(), old(reader).pos() as int)
                    &&& h.spec_directories_from(
                        old(reader).bytes(),
                        old(reader).pos() as int,
                        total_size as int,
                    )
                    &&& final(reader).pos() == old(reader).pos() + spec_fixed_size(h.magic as int)
                        + 8 * spec_directory_count(h.magic as int, total_size as int)
                },
                Err(e) => spec_option_header_error(
                    old(reader).bytes(),
                    old(reader).pos() as int,
                    total_size as int,
                ) == Some(e),
            },
    {
        let start_offset: usize = reader.get_position();
        let magic: u16 = reader.read_u16()?;
        if magic != MAGIC_PE32 && magic != MAGIC_PE32_PLUS {
            return Err(ImageError::InvalidData);
        }
        let is64: bool = magic == MAGIC_PE32_PLUS;
        let fixed: usize = if is64 {
            0x70
        } else {
            0x60
        };
        if (total_size as usize) < fixed {
            return Err(ImageError::InvalidData);
        }
        let room: usize = (total_size as usize - fixed) / 8;
        let count: usize = if room > DATA_DIR_COUNT {
            DATA_DIR_COUNT
        } else {
            room
        };
        reader.check_position(start_offset, fixed + 8 * count)?;
        let major_linker_version: u8 = reader.read_u8()?;
        let minor_linker_version: u8 = reader.read_u8()?;
        let size_of_code: u32 = reader.read_u32()?;
        let size_of_initialized_data: u32 = reader.read_u32()?;
        let size_of_uninitialized_data: u32 = reader.read_u32()?;
        let address_of_entry_point: u32 = reader.read_u32()?;
        let base_of_code: u32 = reader.read_u32()?;
        let base_of_data: u32 = if is64 {
            0
        } else {
            reader.read_u32()?
        };
        let image_base: u64 = if is64 {
            reader.read_u64()?
        } else {
            reader.read_u32()? as u64
        };
        let section_alignment: u32 = reader.read_u32()?;
        let file_alignment: u32 = reader.read_u32()?;
        let major_operating_system_version: u16 = reader.read_u16()?;
        let minor_operating_system_version: u16 = reader.read_u16()?;
        let major_image_version: u16 = reader.read_u16()?;
        let minor_image_version: u16 = reader.read_u16()?;
        let major_subsystem_version: u16 = reader.read_u16()?;
        let minor_subsystem_version: u16 = reader.read_u16()?;
        let win32_version_value: u32 = reader.read_u32()?;
        let size_of_image: u32 = reader.read_u32()?;
        let size_of_headers: u32 = reader.read_u32()?;
        let check_sum: u32 = reader.read_u32()?;
        let subsystem: u16 = reader.read_u16()?;
        let dll_characteristics: u16 = reader.read_u16()?;
        let size_of_stack_reserve: u64 = Self::read_word(reader, is64)?;
        let size_of_stack_commit: u64 = Self::read_word(reader, is64)?;
        let size_of_heap_reserve: u64 = Self::read_word(reader, is64)?;
        let size_of_heap_commit: u64 = Self::read_word(reader, is64)?;
        let loader_flags: u32 = reader.read_u32()?;
        let number_of_rva_and_sizes: u32 = reader.read_u32()?;
        let mut data_directory: [ImageDataDirectory; 16] = [ImageDataDirectory::zero();16];
        let mut i: usize = 0;
        while i < count
            invariant
                i <= count <= 16,
                reader.bytes() == old(reader).bytes(),
                reader.pos() == start_offset + fixed + 8 * i,
                start_offset + fixed + 8 * count <= reader.bytes().len(),
                forall|j: int|
                    0 <= j < 16 ==> #[trigger] data_directory@[j] == (if j < i {
                        spec_data_directory(reader.bytes(), start_offset + fixed + 8 * j)
                    } else {
                        ImageDataDirectory { virtual_address: 0, size: 0 }
                    }),
            decreases count - i,
        {
            let entry: ImageDataDirectory = ImageDataDirectory::new(reader)?;
            data_directory[i] = entry;
            i += 1;
        }
        Ok(
            ImageOptionHeader {
                start_offset,
                magic,
                major_linker_version,
                minor_linker_version,
                size_of_code,
                size_of_initialized_data,
                size_of_uninitialized_data,
                address_of_entry_point,
                base_of_code,
                base_of_data,
                image_base,
                section_alignment,
                file_alignment,
                major_operating_system_version,
                minor_operating_system_version,
                major_image_version,
                minor_image_version,
                major_subsystem_version,
                minor_subsystem_version,
                win32_version_value,
                size_of_image,
                size_of_headers,
                check_sum,
                subsystem,
                dll_characteristics,
                size_of_stack_reserve,
                size_of_stack_commit,
                size_of_heap_reserve,
                size_of_heap_commit,
                loader_flags,
                number_of_rva_and_sizes,
                data_directory,
            },
        )
    }

    /// Reads a field that is eight bytes wide in the 64-bit form and four in the other.
    fn read_word(reader: &mut DataReader, is64: bool) -> (result: Result<u64, ImageError>)
        ensures
            final(reader).bytes() == old(reader).bytes(),
            match result {
                Ok(v) => {
                    &&& old(reader).spec_fits(old(reader).pos() as int, if is64 { 8int } else { 4int })
                    &&& v == (if is64 {
                        spec_u64_le(old(reader).bytes(), old(reader).pos() as int)
                    } else {
                        spec_u32_le(old(reader).bytes(), old(reader).pos() as int)
                    })
                    &&& final(reader).pos() == old(reader).pos() + (if is64 { 8int } else { 4int })
                },
                Err(e) => !old(reader).spec_fits(old(reader).pos() as int, if is64 { 8int } else { 4int })
                    && e == ImageError::UnexpectedEof && final(reader).pos() == old(reader).pos(),
            },
    {
        if is64 {
            reader.read_u64()
        } else {
            match reader.read_u32() {
                Ok(v) => Ok(v as u64),
                Err(e) => Err(e),
            }
        }
    }
}

} // verus!
