use super::metadata::root::{lemma_cells, Metadata};
use super::metadata::table_kind::MDTableType;
use crate::error::ImageError;
use vstd::prelude::*;

verus! {

/// A reference to a type of another module or assembly.
#[derive(Debug)]
pub struct TypeRef {
    /// The token of the row.
    pub token: u32,
    /// The coded token of the scope that holds the type.
    pub resolution_scope: u32,
    pub name: String,
    pub namespace: String,
}

impl TypeRef {
    /// Why row `row`, counted from zero, cannot be read, if it cannot.
    pub open spec fn spec_row_error(md: &Metadata, row: int) -> Option<ImageError> {
        if md.spec_cell_string(1, 1, row).is_none() {
            Some(ImageError::UnexpectedEof)
        } else if md.spec_cell_string(1, 2, row).is_none() {
            Some(ImageError::UnexpectedEof)
        } else {
            None
        }
    }

    /// True where `self` is row `row`, counted from zero, of the table.
    pub open spec fn spec_row(&self, md: &Metadata, row: int) -> bool {
        &&& self.token == 0x0100_0001 + row
        &&& self.resolution_scope == md.spec_cell(1, 0, row)
        &&& md.spec_cell_string(1, 1, row) == Some(self.name@)
        &&& md.spec_cell_string(1, 2, row) == Some(self.namespace@)
    }

    /// The full name of the type: its namespace, a dot, and its name.
    pub fn full_name(&self) -> (full: String)
        ensures
            full@ == super::text::spec_full_name(self.namespace@, self.name@),
    {
        super::text::full_name(&self.namespace, &self.name)
    }

    /// Reads all rows of the table.
    #[verifier::loop_isolation(false)]
    pub fn read_type_refs(metadata: &Metadata) -> (result: Result<Vec<TypeRef>, ImageError>)
        requires
            metadata.spec_wf(),
        ensures
            match result {
                Ok(rows) => {
                    &&& rows@.len() == metadata.spec_rows(1)
                    &&& forall|r: int|
                        0 <= r < rows@.len() ==> (#[trigger] TypeRef::spec_row_error(
                            metadata,
                            r,
                        )).is_none()
                    &&& forall|r: int| 0 <= r < rows@.len() ==> (#[trigger] rows@[r]).spec_row(metadata, r)
                },
                Err(e) => exists|r: int|
                    0 <= r < metadata.spec_rows(1) && #[trigger] TypeRef::spec_row_error(metadata, r)
                        == Some(e) && forall|q: int|
                        0 <= q < r ==> (#[trigger] TypeRef::spec_row_error(metadata, q)).is_none(),
            },
    {
        let mut rows: Vec<TypeRef> = Vec::new();
        let count: u32 = metadata.row_count(1);
        let mut row: u32 = 0;
        while row < count
            invariant
                row <= count,
                rows@.len() == row,
                forall|r: int|
                    0 <= r < row ==> (#[trigger] TypeRef::spec_row_error(metadata, r)).is_none(),
                forall|r: int| 0 <= r < row ==> (#[trigger] rows@[r]).spec_row(metadata, r),
            decreases count - row,
        {
            proof {
                lemma_cells(metadata, MDTableType::TypeRef, row as int);
                assert(metadata.spec_table(1).spec_has_cell(0, row as int));
                assert(metadata.spec_table(1).spec_has_cell(1, row as int));
                assert(metadata.spec_table(1).spec_has_cell(2, row as int));
            }
            let resolution_scope: u32 = metadata.cell(1, 0, row);
            let name: String = match metadata.cell_string(1, 1, row) {
                Ok(text) => text,
                Err(e) => {
                    assert(TypeRef::spec_row_error(metadata, row as int) == Some(e));
                    return Err(e);
                },
            };
            let namespace: String = match metadata.cell_string(1, 2, row) {
                Ok(text) => text,
                Err(e) => {
                    assert(TypeRef::spec_row_error(metadata, row as int) == Some(e));
                    return Err(e);
                },
            };
            rows.push(TypeRef { token: 0x0100_0001 + row, resolution_scope, name, namespace });
            row += 1;
        }
        Ok(rows)
    }
}

} // verus!
