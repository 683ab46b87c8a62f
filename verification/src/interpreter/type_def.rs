use super::metadata::md_token::CodedToken;
use super::metadata::rid_list::RidList;
use super::metadata::root::{lemma_cells, spec_decode_kind, Metadata};
use super::metadata::table_kind::{MDTableType, MDType};
use super::row_util::{insert_unique, spec_unique_key};
use super::text::{full_name, spec_full_name};
use crate::error::ImageError;
use crate::hash_vec::HashVec;
use vstd::prelude::*;

verus! {

/// A type that the assembly defines.
#[derive(Debug)]
pub struct TypeDef {
    /// The token of the row.
    pub token: u32,
    pub flags: u32,
    pub name: String,
    pub namespace: String,
    /// The token of the type that this type extends; a null token where it extends none.
    pub extends: u32,
    /// The fields of the type.
    pub field_list: RidList,
    /// The methods of the type.
    pub method_list: RidList,
}

impl TypeDef {
    /// Why row `row`, counted from zero, cannot be read, if it cannot.
    pub open spec fn spec_row_error(md: &Metadata, row: int) -> Option<ImageError> {
        if md.spec_cell_string(2, 1, row).is_none() {
            Some(ImageError::UnexpectedEof)
        } else if md.spec_cell_string(2, 2, row).is_none() {
            Some(ImageError::UnexpectedEof)
        } else if spec_decode_kind(MDType::TypeDefOrRef, md.spec_cell(2, 3, row)).is_none() {
            Some(ImageError::InvalidData)
        } else {
            None
        }
    }

    /// True where `self` is row `row`, counted from zero, of the table.
    pub open spec fn spec_row(&self, md: &Metadata, row: int) -> bool {
        &&& self.token == 0x0200_0001 + row
        &&& self.flags == md.spec_cell(2, 0, row)
        &&& md.spec_cell_string(2, 1, row) == Some(self.name@)
        &&& md.spec_cell_string(2, 2, row) == Some(self.namespace@)
        &&& spec_decode_kind(MDType::TypeDefOrRef, md.spec_cell(2, 3, row)) == Some(self.extends)
        &&& self.field_list.rids.is_none()
        &&& (self.field_list.start_rid as int, self.field_list.count as int)
            == Metadata::spec_rid_list(&md.spec_table(2), (row + 1) as u32, 4, &md.spec_table(4))
        &&& self.method_list.rids.is_none()
        &&& (self.method_list.start_rid as int, self.method_list.count as int)
            == Metadata::spec_rid_list(&md.spec_table(2), (row + 1) as u32, 5, &md.spec_table(6))
    }

    /// The full name of row `row`: its namespace, a dot, and its name.
    pub open spec fn spec_row_full_name(md: &Metadata, row: int) -> Seq<char> {
        spec_full_name(
            md.spec_cell_string(2, 2, row).unwrap(),
            md.spec_cell_string(2, 1, row).unwrap(),
        )
    }

    /// The full name of the type: its namespace, a dot, and its name.
    pub fn full_name(&self) -> (full: String)
        ensures
            full@ == spec_full_name(self.namespace@, self.name@),
    {
        full_name(&self.namespace, &self.name)
    }

    /// Reads all rows of the table, and keeps each under its full name. A full name
    /// that is taken already gets a backquote and a number behind it. Fails with
    /// `Other` where no such key is free.
    #[verifier::loop_isolation(false)]
    pub fn read_type_defs(metadata: &Metadata) -> (result: Result<
        HashVec<String, TypeDef>,
        ImageError,
    >)
        requires
            metadata.spec_wf(),
        ensures
            match result {
                Ok(defs) => {
                    &&& defs.spec_well_formed()
                    &&& defs.spec_values().len() == metadata.spec_rows(2)
                    &&& forall|r: int|
                        0 <= r < metadata.spec_rows(2) ==> (#[trigger] TypeDef::spec_row_error(
                            metadata,
                            r,
                        )).is_none()
                    &&& forall|r: int|
                        0 <= r < metadata.spec_rows(2) ==> (#[trigger] defs.spec_values()[r]).spec_row(
                            metadata,
                            r,
                        )
                    &&& forall|r: int|
                        0 <= r < metadata.spec_rows(2) ==> spec_unique_key(
                            defs.spec_keys().subrange(0, r),
                            TypeDef::spec_row_full_name(metadata, r),
                            #[trigger] defs.spec_keys()[r],
                        )
                },
                Err(e) => exists|r: int|
                    0 <= r < metadata.spec_rows(2) && #[trigger] TypeDef::spec_row_error(
                        metadata,
                        r,
                    ) == Some(e) && forall|q: int|
                        0 <= q < r ==> (#[trigger] TypeDef::spec_row_error(metadata, q)).is_none(),
            },
    {
        let mut type_defs: HashVec<String, TypeDef> = HashVec::new();
        let count: u32 = metadata.row_count(2);
        let mut row: u32 = 0;
        while row < count
            invariant
                row <= count,
                type_defs.spec_well_formed(),
                type_defs.spec_values().len() == row,
                type_defs.spec_keys().len() == row,
                forall|r: int|
                    0 <= r < row ==> (#[trigger] TypeDef::spec_row_error(metadata, r)).is_none(),
                forall|r: int|
                    0 <= r < row ==> (#[trigger] type_defs.spec_values()[r]).spec_row(metadata, r),
                forall|r: int|
                    0 <= r < row ==> spec_unique_key(
                        type_defs.spec_keys().subrange(0, r),
                        TypeDef::spec_row_full_name(metadata, r),
                        #[trigger] type_defs.spec_keys()[r],
                    ),
            decreases count - row,
        {
            proof {
                lemma_cells(metadata, MDTableType::TypeDef, row as int);
                assert(metadata.spec_table(2).spec_has_cell(0, row as int));
                assert(metadata.spec_table(2).spec_has_cell(1, row as int));
                assert(metadata.spec_table(2).spec_has_cell(2, row as int));
                assert(metadata.spec_table(2).spec_has_cell(3, row as int));
            }
            let flags: u32 = metadata.cell(2, 0, row);
            let name: String = match metadata.cell_string(2, 1, row) {
                Ok(text) => text,
                Err(e) => {
                    assert(TypeDef::spec_row_error(metadata, row as int) == Some(e));
                    return Err(e);
                },
            };
            let namespace: String = match metadata.cell_string(2, 2, row) {
                Ok(text) => text,
                Err(e) => {
                    assert(TypeDef::spec_row_error(metadata, row as int) == Some(e));
                    return Err(e);
                },
            };
            let extends: u32 = match CodedToken::from_md_type(MDType::TypeDefOrRef).decode(
                metadata.cell(2, 3, row),
            ) {
                Some(token) => token,
                None => {
                    assert(TypeDef::spec_row_error(metadata, row as int) == Some(
                        ImageError::InvalidData,
                    ));
                    return Err(ImageError::InvalidData);
                },
            };
            let field_list: RidList = metadata.get_field_rid_list(row + 1);
            let method_list: RidList = metadata.get_method_rid_list(row + 1);
            let key: String = full_name(&namespace, &name);
            let type_def = TypeDef {
                token: 0x0200_0001 + row,
                flags,
                name,
                namespace,
                extends,
                field_list,
                method_list,
            };
            let ghost before = type_defs.spec_keys();
            let ghost values_before = type_defs.spec_values();
            let placed: bool = insert_unique(&mut type_defs, key, type_def);
            assert(placed);
            proof {
                assert forall|r: int| 0 <= r < row + 1 implies spec_unique_key(
                    type_defs.spec_keys().subrange(0, r),
                    TypeDef::spec_row_full_name(metadata, r),
                    #[trigger] type_defs.spec_keys()[r],
                ) by {
                    if r < row {
                        assert(type_defs.spec_keys().subrange(0, r) =~= before.subrange(0, r));
                        assert(type_defs.spec_keys()[r] == before[r]);
                    } else {
                        assert(type_defs.spec_keys().subrange(0, r) =~= before);
                    }
                }
                assert forall|r: int| 0 <= r < row + 1 implies (
                #[trigger] type_defs.spec_values()[r]).spec_row(metadata, r) by {
                    if r < row {
                        assert(type_defs.spec_values()[r] == values_before[r]);
                    }
                }
            }
            row += 1;
        }
        Ok(type_defs)
    }
}

} // verus!
