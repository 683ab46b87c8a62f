use super::image_data_directory::{spec_data_directory, ImageDataDirectory};
use crate::error::ImageError;
use crate::interpreter::data_reader::{spec_u16_le, spec_u32_le, DataReader};
use vstd::prelude::*;

verus! {

/// The runtime header of a managed image: it names the metadata and the entry point.
#[derive(Clone, Copy, Debug)]
pub struct ImageCor20Header {
    pub cb: u32,
    pub major_runtime_version: u16,
    pub minor_runtime_version: u16,
    pub metadata: ImageDataDirectory,
    pub flags: u32,
    pub entry_point_token: u32,
    pub resources: ImageDataDirectory,
    pub strong_name_signature: ImageDataDirectory,
    pub code_manager_table: ImageDataDirectory,
    pub vtable_fixups: ImageDataDirectory,
    pub export_address_table_jumps: ImageDataDirectory,
    pub managed_native_header: ImageDataDirectory,
}

/// The number of bytes the runtime header takes, and the least value of its `cb`.
pub const COR20_HEADER_SIZE: usize = 0x48;

impl ImageCor20Header {
    /// True where `self` is what the bytes at `pos` hold.
    pub open spec fn spec_parsed_from(&self, s: Seq<u8>, pos: int) -> bool {
        &&& self.cb == spec_u32_le(s, pos)
        &&& self.major_runtime_version == spec_u16_le(s, pos + 4)
        &&& self.minor_runtime_version == spec_u16_le(s, pos + 6)
        &&& self.metadata == spec_data_directory(s, pos + 8)
        &&& self.flags == spec_u32_le(s, pos + 16)
        &&& self.entry_point_token == spec_u32_le(s, pos + 20)
        &&& self.resources == spec_data_directory(s, pos + 24)
        &&& self.strong_name_signature == spec_data_directory(s, pos + 32)
        &&& self.code_manager_table == spec_data_directory(s, pos + 40)
        &&& self.vtable_fixups == spec_data_directory(s, pos + 48)
        &&& self.export_address_table_jumps == spec_data_directory(s, pos + 56)
        &&& self.managed_native_header == spec_data_directory(s, pos + 64)
    }

    /// Reads the runtime header at the cursor. The header's own size field must be
    /// at least the size of the header.
    pub fn new(reader: &mut DataReader) -> (result: Result<ImageCor20Header, ImageError>)
        ensures
            final(reader).bytes() == old(reader).bytes(),
            match result {
                Ok(h) => {
                    &&& old(reader).spec_fits(old(reader).pos() as int, 0x48)
                    &&& h.spec_parsed_from(old(reader).bytes(), old(reader).pos() as int)
                    &&& h.cb >= 0x48
                    &&& final(reader).pos() == old(reader).pos() + 0x48
                },
                Err(e) => {
                    &&& final(reader).pos() == old(reader).pos()
                    &&& if !old(reader).spec_fits(old(reader).pos() as int, 0x48) {
                        e == ImageError::UnexpectedEof
                    } else {
                        e == ImageError::InvalidData && spec_u32_le(
                            old(reader).bytes(),
                            old(reader).pos() as int,
                        ) < 0x48
                    }
                },
            },
    {
        let start: usize = reader.get_position();
        reader.check_position(start, COR20_HEADER_SIZE)?;
        let cb: u32 = reader.read_u32()?;
        if cb < 0x48 {
            let _ = reader.set_position(start);
            return Err(ImageError::InvalidData);
        }
        Ok(
            ImageCor20Header {
                cb,
                major_runtime_version: reader.read_u16()?,
                minor_runtime_version: reader.read_u16()?,
                metadata: ImageDataDirectory::new(reader)?,
                flags: reader.read_u32()?,
                entry_point_token: reader.read_u32()?,
                resources: ImageDataDirectory::new(reader)?,
                strong_name_signature: ImageDataDirectory::new(reader)?,
                code_manager_table: ImageDataDirectory::new(reader)?,
                vtable_fixups: ImageDataDirectory::new(reader)?,
                export_address_table_jumps: ImageDataDirectory::new(reader)?,
                managed_native_header: ImageDataDirectory::new(reader)?,
            },
        )
    }
}

} // verus!
