use super::metadata::root::{lemma_cells, Metadata};
use super::metadata::table_kind::MDTableType;
use super::row_util::spec_cell_sig;
use super::sig_equal::spec_option_sig_view;
use super::signature::CallingConventionSig;
use crate::error::ImageError;
use vstd::prelude::*;

verus! {

/// A signature of its own: that of the local variables of a method.
pub struct StandaloneSig {
    /// The token of the row.
    pub token: u32,
    pub signature: Option<CallingConventionSig>,
}

impl StandaloneSig {
    /// Why row `row`, counted from zero, cannot be read, if it cannot.
    pub open spec fn spec_row_error(md: &Metadata, row: int) -> Option<ImageError> {
        None
    }

    /// True where `self` is row `row`, counted from zero, of the table.
    pub open spec fn spec_row(&self, md: &Metadata, row: int) -> bool {
        &&& self.token == 0x1100_0001 + row
        &&& spec_option_sig_view(self.signature) == spec_cell_sig(md, 17, 0, row)
    }


    /// Reads all rows of the table.
    #[verifier::loop_isolation(false)]
    pub fn read_standalone_sigs(metadata: &Metadata) -> (result: Result<Vec<StandaloneSig>, ImageError>)
        requires
            metadata.spec_wf(),
        ensures
            match result {
                Ok(rows) => {
                    &&& rows@.len() == metadata.spec_rows(17)
                    &&& forall|r: int|
                        0 <= r < rows@.len() ==> (#[trigger] StandaloneSig::spec_row_error(
                            metadata,
                            r,
                        )).is_none()
                    &&& forall|r: int| 0 <= r < rows@.len() ==> (#[trigger] rows@[r]).spec_row(metadata, r)
                },
                Err(e) => exists|r: int|
                    0 <= r < metadata.spec_rows(17) && #[trigger] StandaloneSig::spec_row_error(metadata, r)
                        == Some(e) && forall|q: int|
                        0 <= q < r ==> (#[trigger] StandaloneSig::spec_row_error(metadata, q)).is_none(),
            },
    {
        let mut rows: Vec<StandaloneSig> = Vec::new();
        let count: u32 = metadata.row_count(17);
        let mut row: u32 = 0;
        while row < count
            invariant
                row <= count,
                rows@.len() == row,
                forall|r: int|
                    0 <= r < row ==> (#[trigger] StandaloneSig::spec_row_error(metadata, r)).is_none(),
                forall|r: int| 0 <= r < row ==> (#[trigger] rows@[r]).spec_row(metadata, r),
            decreases count - row,
        {
            proof {
                lemma_cells(metadata, MDTableType::StandAloneSig, row as int);
                assert(metadata.spec_table(17).spec_has_cell(0, row as int));
            }
            let signature: Option<CallingConventionSig> = CallingConventionSig::read_metadata_sig(
                metadata,
                metadata.cell(17, 0, row),
            );
            rows.push(StandaloneSig { token: 0x1100_0001 + row, signature });
            row += 1;
        }
        Ok(rows)
    }
}

} // verus!
