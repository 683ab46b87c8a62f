use super::metadata::root::{lemma_cells, Metadata};
use super::metadata::table_kind::MDTableType;
use super::row_util::{spec_cell_type, spec_option_type_view};
use super::type_sig::TypeSig;
use crate::error::ImageError;
use vstd::prelude::*;

verus! {

/// A type described by a signature: an instance of a generic type.
pub struct TypeSpec {
    /// The token of the row.
    pub token: u32,
    pub signature: Option<TypeSig>,
}

impl TypeSpec {
    /// Why row `row`, counted from zero, cannot be read, if it cannot.
    pub open spec fn spec_row_error(md: &Metadata, row: int) -> Option<ImageError> {
        None
    }

    /// True where `self` is row `row`, counted from zero, of the table.
    pub open spec fn spec_row(&self, md: &Metadata, row: int) -> bool {
        &&& self.token == 0x1B00_0001 + row
        &&& spec_option_type_view(self.signature) == spec_cell_type(md, 27, 0, row)
    }


    /// Reads all rows of the table.
    #[verifier::loop_isolation(false)]
    pub fn read_type_specs(metadata: &Metadata) -> (result: Result<Vec<TypeSpec>, ImageError>)
        requires
            metadata.spec_wf(),
        ensures
            match result {
                Ok(rows) => {
                    &&& rows@.len() == metadata.spec_rows(27)
                    &&& forall|r: int|
                        0 <= r < rows@.len() ==> (#[trigger] TypeSpec::spec_row_error(
                            metadata,
                            r,
                        )).is_none()
                    &&& forall|r: int| 0 <= r < rows@.len() ==> (#[trigger] rows@[r]).spec_row(metadata, r)
                },
                Err(e) => exists|r: int|
                    0 <= r < metadata.spec_rows(27) && #[trigger] TypeSpec::spec_row_error(metadata, r)
                        == Some(e) && forall|q: int|
                        0 <= q < r ==> (#[trigger] TypeSpec::spec_row_error(metadata, q)).is_none(),
            },
    {
        let mut rows: Vec<TypeSpec> = Vec::new();
        let count: u32 = metadata.row_count(27);
        let mut row: u32 = 0;
        while row < count
            invariant
                row <= count,
                rows@.len() == row,
                forall|r: int|
                    0 <= r < row ==> (#[trigger] TypeSpec::spec_row_error(metadata, r)).is_none(),
                forall|r: int| 0 <= r < row ==> (#[trigger] rows@[r]).spec_row(metadata, r),
            decreases count - row,
        {
            proof {
                lemma_cells(metadata, MDTableType::TypeSpec, row as int);
                assert(metadata.spec_table(27).spec_has_cell(0, row as int));
            }
            let signature: Option<TypeSig> = TypeSig::resolve_sig(metadata, metadata.cell(27, 0, row));
            rows.push(TypeSpec { token: 0x1B00_0001 + row, signature });
            row += 1;
        }
        Ok(rows)
    }
}

} // verus!
