use super::metadata::md_token::CodedToken;
use super::metadata::root::{lemma_cells, spec_decode_kind, Metadata};
use super::metadata::table_kind::{MDTableType, MDType};
use super::row_util::spec_cell_sig;
use super::sig_equal::spec_option_sig_view;
use super::signature::CallingConventionSig;
use crate::error::ImageError;
use vstd::prelude::*;

verus! {

/// A reference to a member of a type.
pub struct MemberRef {
    /// The token of the row.
    pub token: u32,
    /// The token of the type that holds the member.
    pub class: u32,
    pub name: String,
    pub signature: Option<CallingConventionSig>,
}

impl MemberRef {
    /// Why row `row`, counted from zero, cannot be read, if it cannot.
    pub open spec fn spec_row_error(md: &Metadata, row: int) -> Option<ImageError> {
        if spec_decode_kind(MDType::MemberRefParent, md.spec_cell(10, 0, row)).is_none() {
            Some(ImageError::InvalidData)
        } else if md.spec_cell_string(10, 1, row).is_none() {
            Some(ImageError::UnexpectedEof)
        } else {
            None
        }
    }

    /// True where `self` is row `row`, counted from zero, of the table.
    pub open spec fn spec_row(&self, md: &Metadata, row: int) -> bool {
        &&& self.token == 0x0A00_0001 + row
        &&& spec_decode_kind(MDType::MemberRefParent, md.spec_cell(10, 0, row)) == Some(self.class)
        &&& md.spec_cell_string(10, 1, row) == Some(self.name@)
        &&& spec_option_sig_view(self.signature) == spec_cell_sig(md, 10, 2, row)
    }


    /// Reads all rows of the table.
    #[verifier::loop_isolation(false)]
    pub fn read_member_refs(metadata: &Metadata) -> (result: Result<Vec<MemberRef>, ImageError>)
        requires
            metadata.spec_wf(),
        ensures
            match result {
                Ok(rows) => {
                    &&& rows@.len() == metadata.spec_rows(10)
                    &&& forall|r: int|
                        0 <= r < rows@.len() ==> (#[trigger] MemberRef::spec_row_error(
                            metadata,
                            r,
                        )).is_none()
                    &&& forall|r: int| 0 <= r < rows@.len() ==> (#[trigger] rows@[r]).spec_row(metadata, r)
                },
                Err(e) => exists|r: int|
                    0 <= r < metadata.spec_rows(10) && #[trigger] MemberRef::spec_row_error(metadata, r)
                        == Some(e) && forall|q: int|
                        0 <= q < r ==> (#[trigger] MemberRef::spec_row_error(metadata, q)).is_none(),
            },
    {
        let mut rows: Vec<MemberRef> = Vec::new();
        let count: u32 = metadata.row_count(10);
        let mut row: u32 = 0;
        while row < count
            invariant
                row <= count,
                rows@.len() == row,
                forall|r: int|
                    0 <= r < row ==> (#[trigger] MemberRef::spec_row_error(metadata, r)).is_none(),
                forall|r: int| 0 <= r < row ==> (#[trigger] rows@[r]).spec_row(metadata, r),
            decreases count - row,
        {
            proof {
                lemma_cells(metadata, MDTableType::MemberRef, row as int);
                assert(metadata.spec_table(10).spec_has_cell(0, row as int));
                assert(metadata.spec_table(10).spec_has_cell(1, row as int));
                assert(metadata.spec_table(10).spec_has_cell(2, row as int));
            }
            let class: u32 = match CodedToken::from_md_type(MDType::MemberRefParent).decode(
                metadata.cell(10, 0, row),
            ) {
                Some(token) => token,
                None => {
                    assert(MemberRef::spec_row_error(metadata, row as int) == Some(
                        ImageError::InvalidData,
                    ));
                    return Err(ImageError::InvalidData);
                },
            };
            let name: String = match metadata.cell_string(10, 1, row) {
                Ok(text) => text,
                Err(e) => {
                    assert(MemberRef::spec_row_error(metadata, row as int) == Some(e));
                    return Err(e);
                },
            };
            let signature: Option<CallingConventionSig> = CallingConventionSig::read_metadata_sig(
                metadata,
                metadata.cell(10, 2, row),
            );
            rows.push(MemberRef { token: 0x0A00_0001 + row, class, name, signature });
            row += 1;
        }
        Ok(rows)
    }
}

} // verus!
