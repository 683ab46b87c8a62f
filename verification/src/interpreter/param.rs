use super::metadata::root::{lemma_cells, Metadata};
use super::metadata::table_kind::MDTableType;
use crate::error::ImageError;
use vstd::prelude::*;

verus! {

/// A parameter of a method.
#[derive(Debug)]
pub struct Param {
    /// The token of the row.
    pub token: u32,
    pub flags: u16,
    /// The place of the parameter; zero is the return value.
    pub sequence: u16,
    pub name: String,
}

impl Param {
    /// Why row `row`, counted from zero, cannot be read, if it cannot.
    pub open spec fn spec_row_error(md: &Metadata, row: int) -> Option<ImageError> {
        if md.spec_cell_string(8, 2, row).is_none() {
            Some(ImageError::UnexpectedEof)
        } else {
            None
        }
    }

    /// True where `self` is row `row`, counted from zero, of the table.
    pub open spec fn spec_row(&self, md: &Metadata, row: int) -> bool {
        &&& self.token == 0x0800_0001 + row
        &&& self.flags == md.spec_cell(8, 0, row)
        &&& self.sequence == md.spec_cell(8, 1, row)
        &&& md.spec_cell_string(8, 2, row) == Some(self.name@)
    }


    /// Reads all rows of the table.
    #[verifier::loop_isolation(false)]
    pub fn read_params(metadata: &Metadata) -> (result: Result<Vec<Param>, ImageError>)
        requires
            metadata.spec_wf(),
        ensures
            match result {
                Ok(rows) => {
                    &&& rows@.len() == metadata.spec_rows(8)
                    &&& forall|r: int|
                        0 <= r < rows@.len() ==> (#[trigger] Param::spec_row_error(
                            metadata,
                            r,
                        )).is_none()
                    &&& forall|r: int| 0 <= r < rows@.len() ==> (#[trigger] rows@[r]).spec_row(metadata, r)
                },
                Err(e) => exists|r: int|
                    0 <= r < metadata.spec_rows(8) && #[trigger] Param::spec_row_error(metadata, r)
                        == Some(e) && forall|q: int|
                        0 <= q < r ==> (#[trigger] Param::spec_row_error(metadata, q)).is_none(),
            },
    {
        let mut rows: Vec<Param> = Vec::new();
        let count: u32 = metadata.row_count(8);
        let mut row: u32 = 0;
        while row < count
            invariant
                row <= count,
                rows@.len() == row,
                forall|r: int|
                    0 <= r < row ==> (#[trigger] Param::spec_row_error(metadata, r)).is_none(),
                forall|r: int| 0 <= r < row ==> (#[trigger] rows@[r]).spec_row(metadata, r),
            decreases count - row,
        {
            proof {
                lemma_cells(metadata, MDTableType::Param, row as int);
                assert(metadata.spec_table(8).spec_has_cell(0, row as int));
                assert(metadata.spec_table(8).spec_has_cell(1, row as int));
                assert(metadata.spec_table(8).spec_has_cell(2, row as int));
            }
            let flags: u16 = metadata.cell(8, 0, row) as u16;
            let sequence: u16 = metadata.cell(8, 1, row) as u16;
            let name: String = match metadata.cell_string(8, 2, row) {
                Ok(text) => text,
                Err(e) => {
                    assert(Param::spec_row_error(metadata, row as int) == Some(e));
                    return Err(e);
                },
            };
            rows.push(Param { token: 0x0800_0001 + row, flags, sequence, name });
            row += 1;
        }
        Ok(rows)
    }
}

} // verus!
