use super::metadata::blob_stream::{spec_blob, spec_blob_error};
use super::metadata::root::{lemma_cells, Metadata};
use super::metadata::table_kind::MDTableType;
use crate::error::ImageError;
use vstd::prelude::*;
use super::assembly_name::AssemblyName;

verus! {

/// A reference to another assembly.
pub struct AssemblyRef {
    /// The token of the row.
    pub token: u32,
    pub assembly_name: AssemblyName,
    /// The offset of the locale in the `#Strings` heap.
    pub locale: u32,
    /// The offset of the hash in the `#Blob` heap.
    pub hash_value: u32,
}

impl AssemblyRef {
    /// Why row `row`, counted from zero, cannot be read, if it cannot.
    pub open spec fn spec_row_error(md: &Metadata, row: int) -> Option<ImageError> {
        if spec_blob_error(md.blob_stream.bytes(), md.spec_cell(35, 5, row) as int).is_some() {
            spec_blob_error(md.blob_stream.bytes(), md.spec_cell(35, 5, row) as int)
        } else if md.spec_cell_string(35, 6, row).is_none() {
            Some(ImageError::UnexpectedEof)
        } else {
            None
        }
    }

    /// True where `self` is row `row`, counted from zero, of the table.
    pub open spec fn spec_row(&self, md: &Metadata, row: int) -> bool {
        &&& self.token == 0x2300_0001 + row
        &&& self.assembly_name.major_version == md.spec_cell(35, 0, row)
        &&& self.assembly_name.minor_version == md.spec_cell(35, 1, row)
        &&& self.assembly_name.build_number == md.spec_cell(35, 2, row)
        &&& self.assembly_name.revision_number == md.spec_cell(35, 3, row)
        &&& self.assembly_name.flags == md.spec_cell(35, 4, row)
        &&& self.assembly_name.public_key_token@ == spec_blob(md.blob_stream.bytes(), md.spec_cell(35, 5, row) as int)
        &&& md.spec_cell_string(35, 6, row) == Some(self.assembly_name.name@)
        &&& self.locale == md.spec_cell(35, 7, row)
        &&& self.hash_value == md.spec_cell(35, 8, row)
    }


    /// Reads all rows of the table.
    #[verifier::loop_isolation(false)]
    pub fn read_assembly_refs(metadata: &Metadata) -> (result: Result<Vec<AssemblyRef>, ImageError>)
        requires
            metadata.spec_wf(),
        ensures
            match result {
                Ok(rows) => {
                    &&& rows@.len() == metadata.spec_rows(35)
                    &&& forall|r: int|
                        0 <= r < rows@.len() ==> (#[trigger] AssemblyRef::spec_row_error(
                            metadata,
                            r,
                        )).is_none()
                    &&& forall|r: int| 0 <= r < rows@.len() ==> (#[trigger] rows@[r]).spec_row(metadata, r)
                },
                Err(e) => exists|r: int|
                    0 <= r < metadata.spec_rows(35) && #[trigger] AssemblyRef::spec_row_error(metadata, r)
                        == Some(e) && forall|q: int|
                        0 <= q < r ==> (#[trigger] AssemblyRef::spec_row_error(metadata, q)).is_none(),
            },
    {
        let mut rows: Vec<AssemblyRef> = Vec::new();
        let count: u32 = metadata.row_count(35);
        let mut row: u32 = 0;
        while row < count
            invariant
                row <= count,
                rows@.len() == row,
                forall|r: int|
                    0 <= r < row ==> (#[trigger] AssemblyRef::spec_row_error(metadata, r)).is_none(),
                forall|r: int| 0 <= r < row ==> (#[trigger] rows@[r]).spec_row(metadata, r),
            decreases count - row,
        {
            proof {
                lemma_cells(metadata, MDTableType::AssemblyRef, row as int);
                assert(metadata.spec_table(35).spec_has_cell(0, row as int));
                assert(metadata.spec_table(35).spec_has_cell(1, row as int));
                assert(metadata.spec_table(35).spec_has_cell(2, row as int));
                assert(metadata.spec_table(35).spec_has_cell(3, row as int));
                assert(metadata.spec_table(35).spec_has_cell(4, row as int));
                assert(metadata.spec_table(35).spec_has_cell(5, row as int));
                assert(metadata.spec_table(35).spec_has_cell(6, row as int));
                assert(metadata.spec_table(35).spec_has_cell(7, row as int));
                assert(metadata.spec_table(35).spec_has_cell(8, row as int));
            }
            let major_version: u16 = metadata.cell(35, 0, row) as u16;
            let minor_version: u16 = metadata.cell(35, 1, row) as u16;
            let build_number: u16 = metadata.cell(35, 2, row) as u16;
            let revision_number: u16 = metadata.cell(35, 3, row) as u16;
            let flags: u32 = metadata.cell(35, 4, row);
            let public_key_token: Vec<u8> = match metadata.blob_stream.read(metadata.cell(35, 5, row)) {
                Ok(blob) => blob,
                Err(e) => {
                    assert(AssemblyRef::spec_row_error(metadata, row as int) == Some(e));
                    return Err(e);
                },
            };
            let name: String = match metadata.cell_string(35, 6, row) {
                Ok(text) => text,
                Err(e) => {
                    assert(AssemblyRef::spec_row_error(metadata, row as int) == Some(e));
                    return Err(e);
                },
            };
            let locale: u32 = metadata.cell(35, 7, row);
            let hash_value: u32 = metadata.cell(35, 8, row);
            rows.push(
                AssemblyRef {
                    token: 0x2300_0001 + row,
                    assembly_name: AssemblyName {
                        major_version,
                        minor_version,
                        build_number,
                        revision_number,
                        flags,
                        public_key_token,
                        name,
                    },
                    locale,
                    hash_value,
                },
            );
            row += 1;
        }
        Ok(rows)
    }
}

} // verus!
