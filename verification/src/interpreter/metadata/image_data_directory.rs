use crate::error::ImageError;
use crate::interpreter::data_reader::{spec_u32_le, DataReader};
use vstd::prelude::*;

verus! {

/// Where a block of the image lies: its address in the loaded image and its size.
#[derive(Clone, Copy, Debug, PartialEq, Eq, Structural)]
pub struct ImageDataDirectory {
    pub virtual_address: u32,
    pub size: u32,
}

/// The directory entry that the eight bytes at `pos` hold.
pub open spec fn spec_data_directory(s: Seq<u8>, pos: int) -> ImageDataDirectory {
    ImageDataDirectory {
        virtual_address: spec_u32_le(s, pos) as u32,
        size: spec_u32_le(s, pos + 4) as u32,
    }
}

/// The number of bytes a directory entry takes.
pub const DATA_DIRECTORY_SIZE: usize = 8;

impl ImageDataDirectory {
    /// Reads one entry at the cursor.
    pub fn new(reader: &mut DataReader) -> (result: Result<ImageDataDirectory, ImageError>)
        ensures
            final(reader).bytes() == old(reader).bytes(),
            match result {
                Ok(d) => old(reader).spec_fits(old(reader).pos() as int, 8) && d == spec_data_directory(
                    old(reader).bytes(),
                    old(reader).pos() as int,
                ) && final(reader).pos() == old(reader).pos() + 8,
                Err(e) => !old(reader).spec_fits(old(reader).pos() as int, 8) && e
                    == ImageError::UnexpectedEof && final(reader).pos() == old(reader).pos(),
            },
    {
        reader.check_position(reader.get_position(), DATA_DIRECTORY_SIZE)?;
        let virtual_address: u32 = reader.read_u32()?;
        let size: u32 = reader.read_u32()?;
        Ok(ImageDataDirectory { virtual_address, size })
    }

    /// The entry that names nothing.
    pub fn zero() -> (d: ImageDataDirectory)
        ensures
            d == (ImageDataDirectory { virtual_address: 0, size: 0 }),
    {
        ImageDataDirectory { virtual_address: 0, size: 0 }
    }
}

} // verus!
