use super::metadata::md_token::CodedToken;
use super::metadata::root::{lemma_cells, spec_decode_kind, Metadata};
use super::metadata::table_kind::{MDTableType, MDType};
use super::row_util::spec_cell_sig;
use super::sig_equal::spec_option_sig_view;
use super::signature::CallingConventionSig;
use crate::error::ImageError;
use vstd::prelude::*;

verus! {

/// An instance of a generic method.
pub struct MethodSpec {
    /// The token of the row.
    pub token: u32,
    /// The token of the method or member reference.
    pub method: u32,
    pub instantiation: Option<CallingConventionSig>,
}

impl MethodSpec {
    /// Why row `row`, counted from zero, cannot be read, if it cannot.
    pub open spec fn spec_row_error(md: &Metadata, row: int) -> Option<ImageError> {
        if spec_decode_kind(MDType::MethodDefOrRef, md.spec_cell(43, 0, row)).is_none() {
            Some(ImageError::InvalidData)
        } else {
            None
        }
    }

    /// True where `self` is row `row`, counted from zero, of the table.
    pub open spec fn spec_row(&self, md: &Metadata, row: int) -> bool {
        &&& self.token == 0x2B00_0001 + row
        &&& spec_decode_kind(MDType::MethodDefOrRef, md.spec_cell(43, 0, row)) == Some(self.method)
        &&& spec_option_sig_view(self.instantiation) == spec_cell_sig(md, 43, 1, row)
    }


    /// Reads all rows of the table.
    #[verifier::loop_isolation(false)]
    pub fn read_method_specs(metadata: &Metadata) -> (result: Result<Vec<MethodSpec>, ImageError>)
        requires
            metadata.spec_wf(),
        ensures
            match result {
                Ok(rows) => {
                    &&& rows@.len() == metadata.spec_rows(43)
                    &&& forall|r: int|
                        0 <= r < rows@.len() ==> (#[trigger] MethodSpec::spec_row_error(
                            metadata,
                            r,
                        )).is_none()
                    &&& forall|r: int| 0 <= r < rows@.len() ==> (#[trigger] rows@[r]).spec_row(metadata, r)
                },
                Err(e) => exists|r: int|
                    0 <= r < metadata.spec_rows(43) && #[trigger] MethodSpec::spec_row_error(metadata, r)
                        == Some(e) && forall|q: int|
                        0 <= q < r ==> (#[trigger] MethodSpec::spec_row_error(metadata, q)).is_none(),
            },
    {
        let mut rows: Vec<MethodSpec> = Vec::new();
        let count: u32 = metadata.row_count(43);
        let mut row: u32 = 0;
        while row < count
            invariant
                row <= count,
                rows@.len() == row,
                forall|r: int|
                    0 <= r < row ==> (#[trigger] MethodSpec::spec_row_error(metadata, r)).is_none(),
                forall|r: int| 0 <= r < row ==> (#[trigger] rows@[r]).spec_row(metadata, r),
            decreases count - row,
        {
            proof {
                lemma_cells(metadata, MDTableType::MethodSpec, row as int);
                assert(metadata.spec_table(43).spec_has_cell(0, row as int));
                assert(metadata.spec_table(43).spec_has_cell(1, row as int));
            }
            let method: u32 = match CodedToken::from_md_type(MDType::MethodDefOrRef).decode(
                metadata.cell(43, 0, row),
            ) {
                Some(token) => token,
                None => {
                    assert(MethodSpec::spec_row_error(metadata, row as int) == Some(
                        ImageError::InvalidData,
                    ));
                    return Err(ImageError::InvalidData);
                },
            };
            let instantiation: Option<CallingConventionSig> = CallingConventionSig::read_metadata_sig(
                metadata,
                metadata.cell(43, 1, row),
            );
            rows.push(MethodSpec { token: 0x2B00_0001 + row, method, instantiation });
            row += 1;
        }
        Ok(rows)
    }
}

} // verus!
