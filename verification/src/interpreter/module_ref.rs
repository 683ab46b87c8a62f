use super::metadata::root::{lemma_cells, Metadata};
use super::metadata::table_kind::MDTableType;
use crate::error::ImageError;
use vstd::prelude::*;

verus! {

/// A row of the `TypeRef` table, read as the reference to the module that holds the type.
#[derive(Debug)]
pub struct ModuleRef {
    /// The token of the row.
    pub token: u32,
    pub resolution_scope: u32,
    pub name: String,
    pub namespace: String,
}

impl ModuleRef {
    /// Why row `row`, counted from zero, cannot be read, if it cannot.
    pub open spec fn spec_row_error(md: &Metadata, row: int) -> Option<ImageError> {
        if md.spec_cell_string(1, 1, row).is_none() {
            Some(ImageError::UnexpectedEof)
        } else if md.spec_cell_string(1, 2, row).is_none() {
            Some(ImageError::UnexpectedEof)
        } else {
            None
        }
    }

    /// True where `self` is row `row`, counted from zero, of the table.
    pub open spec fn spec_row(&self, md: &Metadata, row: int) -> bool {
        &&& self.token == 0x0100_0001 + row
        &&& self.resolution_scope == md.spec_cell(1, 0, row)
        &&& md.spec_cell_string(1, 1, row) == Some(self.name@)
        &&& md.spec_cell_string(1, 2, row) == Some(self.namespace@)
    }


    /// Reads all rows of the table.
    #[verifier::loop_isolation(false)]
    pub fn read_type_refs(metadata: &Metadata) -> (result: Result<Vec<ModuleRef>, ImageError>)
        requires
            metadata.spec_wf(),
        ensures
            match result {
                Ok(rows) => {
                    &&& rows@.len() == metadata.spec_rows(1)
                    &&& forall|r: int|
                        0 <= r < rows@.len() ==> (#[trigger] ModuleRef::spec_row_error(
                            metadata,
                            r,
                        )).is_none()
                    &&& forall|r: int| 0 <= r < rows@.len() ==> (#[trigger] rows@[r]).spec_row(metadata, r)
                },
                Err(e) => exists|r: int|
                    0 <= r < metadata.spec_rows(1) && #[trigger] ModuleRef::spec_row_error(metadata, r)
                        == Some(e) && forall|q: int|
                        0 <= q < r ==> (#[trigger] ModuleRef::spec_row_error(metadata, q)).is_none(),
            },
    {
        let mut rows: Vec<ModuleRef> = Vec::new();
        let count: u32 = metadata.row_count(1);
        let mut row: u32 = 0;
        while row < count
            invariant
                row <= count,
                rows@.len() == row,
                forall|r: int|
                    0 <= r < row ==> (#[trigger] ModuleRef::spec_row_error(metadata, r)).is_none(),
                forall|r: int| 0 <= r < row ==> (#[trigger] rows@[r]).spec_row(metadata, r),
            decreases count - row,
        {
            proof {
                lemma_cells(metadata, MDTableType::TypeRef, row as int);
                assert(metadata.spec_table(1).spec_has_cell(0, row as int));
                assert(metadata.spec_table(1).spec_has_cell(1, row as int));
                assert(metadata.spec_table(1).spec_has_cell(2, row as int));
            }
            let resolution_scope: u32 = metadata.cell(1, 0, row);
            let name: String = match metadata.cell_string(1, 1, row) {
                Ok(text) => text,
                Err(e) => {
                    assert(ModuleRef::spec_row_error(metadata, row as int) == Some(e));
                    return Err(e);
                },
            };
            let namespace: String = match metadata.cell_string(1, 2, row) {
                Ok(text) => text,
                Err(e) => {
                    assert(ModuleRef::spec_row_error(metadata, row as int) == Some(e));
                    return Err(e);
                },
            };
            rows.push(ModuleRef { token: 0x0100_0001 + row, resolution_scope, name, namespace });
            row += 1;
        }
        Ok(rows)
    }
}

} // verus!
