use super::metadata::root::{lemma_cells, Metadata};
use super::row_util::{advance_owner, lemma_first_above_step, spec_first_above, spec_owner};
use super::metadata::table_kind::MDTableType;
use super::row_util::spec_cell_sig;
use super::sig_equal::spec_option_sig_view;
use super::signature::CallingConventionSig;
use crate::error::ImageError;
use vstd::prelude::*;

verus! {

/// A field of a type.
pub struct Field {
    /// The token of the row.
    pub token: u32,
    pub flags: u16,
    pub name: String,
    pub signature: Option<CallingConventionSig>,
    /// The place of the type that owns the row, counted from zero.
    pub owner_type: u32,
}

impl Field {
    /// Why row `row`, counted from zero, cannot be read, if it cannot.
    pub open spec fn spec_row_error(md: &Metadata, row: int) -> Option<ImageError> {
        if md.spec_cell_string(4, 1, row).is_none() {
            Some(ImageError::UnexpectedEof)
        } else {
            None
        }
    }

    /// True where `self` is row `row`, counted from zero, of the table.
    pub open spec fn spec_row(&self, md: &Metadata, row: int, owners: Seq<u32>) -> bool {
        &&& self.token == 0x0400_0001 + row
        &&& self.flags == md.spec_cell(4, 0, row)
        &&& md.spec_cell_string(4, 1, row) == Some(self.name@)
        &&& spec_option_sig_view(self.signature) == spec_cell_sig(md, 4, 2, row)
        &&& self.owner_type + 1 == spec_owner(owners, row + 1)
    }

    /// True where the field is static.
    pub fn is_static(&self) -> (b: bool)
        ensures
            b == (self.flags & 0x0010 != 0),
    {
        self.flags & 0x0010 != 0
    }

    /// Reads all rows of the table.
    #[verifier::loop_isolation(false)]
    pub fn read_fields(metadata: &Metadata, owner_map: Vec<u32>) -> (result: Result<Vec<Field>, ImageError>)
        requires
            metadata.spec_wf(),
            owner_map@.len() <= 0x00FF_FFFF,
        ensures
            match result {
                Ok(rows) => {
                    &&& rows@.len() == metadata.spec_rows(4)
                    &&& forall|r: int|
                        0 <= r < rows@.len() ==> (#[trigger] Field::spec_row_error(
                            metadata,
                            r,
                        )).is_none() && spec_owner(owner_map@, r + 1) > 0
                    &&& forall|r: int| 0 <= r < rows@.len() ==> (#[trigger] rows@[r]).spec_row(metadata, r, owner_map@)
                },
                Err(e) => exists|r: int|
                    0 <= r < metadata.spec_rows(4) && (if spec_owner(owner_map@, r + 1) == 0 {
                        Some(ImageError::InvalidData)
                    } else {
                        #[trigger] Field::spec_row_error(metadata, r)
                    }) == Some(e) && forall|q: int|
                        0 <= q < r ==> (#[trigger] Field::spec_row_error(metadata, q)).is_none()
                            && spec_owner(owner_map@, q + 1) > 0,
            },
    {
        let mut rows: Vec<Field> = Vec::new();
        let count: u32 = metadata.row_count(4);
        let mut type_map_index: usize = 0;
        let mut owner_end: usize = 0;
        let mut row: u32 = 0;
        while row < count
            invariant
                row <= count,
                rows@.len() == row,
                type_map_index <= owner_map@.len(),
                owner_end == super::row_util::spec_last_owner(owner_map@, type_map_index as int),
                spec_first_above(owner_map@, row + 1, 0) == spec_first_above(
                    owner_map@,
                    row + 1,
                    type_map_index as int,
                ),
                forall|r: int|
                    0 <= r < row ==> (#[trigger] Field::spec_row_error(metadata, r)).is_none() && spec_owner(owner_map@, r + 1) > 0,
                forall|r: int| 0 <= r < row ==> (#[trigger] rows@[r]).spec_row(metadata, r, owner_map@),
            decreases count - row,
        {
            proof {
                lemma_cells(metadata, MDTableType::Field, row as int);
                assert(metadata.spec_table(4).spec_has_cell(0, row as int));
                assert(metadata.spec_table(4).spec_has_cell(1, row as int));
                assert(metadata.spec_table(4).spec_has_cell(2, row as int));
            }
            let found: (usize, usize) = advance_owner(
                &owner_map,
                row + 1,
                type_map_index,
                owner_end,
            );
            type_map_index = found.0;
            owner_end = found.1;
            if owner_end == 0 {
                assert(spec_owner(owner_map@, row + 1) == 0);
                return Err(ImageError::InvalidData);
            }
            let owner_type: u32 = (owner_end - 1) as u32;
            proof {
                lemma_first_above_step(owner_map@, row + 1, type_map_index as int);
            }
            let flags: u16 = metadata.cell(4, 0, row) as u16;
            let name: String = match metadata.cell_string(4, 1, row) {
                Ok(text) => text,
                Err(e) => {
                    assert(Field::spec_row_error(metadata, row as int) == Some(e));
                    return Err(e);
                },
            };
            let signature: Option<CallingConventionSig> = CallingConventionSig::read_metadata_sig(
                metadata,
                metadata.cell(4, 2, row),
            );
            rows.push(Field { token: 0x0400_0001 + row, flags, name, signature, owner_type });
            row += 1;
        }
        Ok(rows)
    }
}

} // verus!
