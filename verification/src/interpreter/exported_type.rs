use super::metadata::md_token::CodedToken;
use super::metadata::root::{lemma_cells, spec_decode_kind, Metadata};
use super::metadata::table_kind::{MDTableType, MDType};
use crate::error::ImageError;
use crate::hash_vec::HashVec;
use vstd::prelude::*;

verus! {

/// What kind of row holds an exported type.
#[derive(Clone, Copy, PartialEq, Eq, Debug, Structural)]
pub enum ExportedTypeImpl {
    File,
    AssemblyRef,
    ExportedType,
}

/// A type that the assembly exports without defining it: the row says where the type lives.
pub struct ExportedType {
    /// The token of the row.
    pub token: u32,
    pub flags: u32,
    pub type_def_id: u32,
    pub name: String,
    pub namespace: String,
    /// The token of the file, assembly reference or exported type that holds the type.
    pub implementation: u32,
}

impl ExportedType {
    /// Why row `row`, counted from zero, cannot be read, if it cannot.
    pub open spec fn spec_row_error(md: &Metadata, row: int) -> Option<ImageError> {
        if md.spec_cell_string(39, 2, row).is_none() {
            Some(ImageError::UnexpectedEof)
        } else if md.spec_cell_string(39, 3, row).is_none() {
            Some(ImageError::UnexpectedEof)
        } else if spec_decode_kind(MDType::Implementation, md.spec_cell(39, 4, row)).is_none() {
            Some(ImageError::InvalidData)
        } else {
            None
        }
    }

    /// True where `self` is row `row`, counted from zero, of the table.
    pub open spec fn spec_row(&self, md: &Metadata, row: int) -> bool {
        &&& self.token == 0x2700_0001 + row
        &&& self.flags == md.spec_cell(39, 0, row)
        &&& self.type_def_id == md.spec_cell(39, 1, row)
        &&& md.spec_cell_string(39, 2, row) == Some(self.name@)
        &&& md.spec_cell_string(39, 3, row) == Some(self.namespace@)
        &&& spec_decode_kind(MDType::Implementation, md.spec_cell(39, 4, row)) == Some(self.implementation)
    }

    /// The full name of the type: its namespace, a dot, and its name.
    pub fn full_name(&self) -> (full: String)
        ensures
            full@ == super::text::spec_full_name(self.namespace@, self.name@),
    {
        super::text::full_name(&self.namespace, &self.name)
    }

    /// The kind of the row that `token` names, and its row number; `None` for a
    /// token of another table.
    pub open spec fn spec_implementation(token: u32) -> Option<(ExportedTypeImpl, u32)> {
        let table = super::metadata::md_token::spec_table_type(token);
        let rid = super::metadata::md_token::spec_rid(token);
        if table == 0x26 {
            Some((ExportedTypeImpl::File, rid))
        } else if table == 0x23 {
            Some((ExportedTypeImpl::AssemblyRef, rid))
        } else if table == 0x27 {
            Some((ExportedTypeImpl::ExportedType, rid))
        } else {
            None
        }
    }

    /// The kind and the row number of the row that holds the type: the coded token
    /// `coded_token`, decoded and taken apart.
    pub fn resolve_implementation(coded_token: u32) -> (implementation: Option<
        (ExportedTypeImpl, u32),
    >)
        ensures
            implementation == (match spec_decode_kind(MDType::Implementation, coded_token) {
                Some(token) => ExportedType::spec_implementation(token),
                None => None,
            }),
    {
        let token: u32 = CodedToken::from_md_type(MDType::Implementation).decode(coded_token)?;
        ExportedType::implementation_of(token)
    }

    /// The kind and the row number of the row that the token `token` names.
    pub fn implementation_of(token: u32) -> (implementation: Option<(ExportedTypeImpl, u32)>)
        ensures
            implementation == ExportedType::spec_implementation(token),
    {
        let rid: u32 = super::metadata::md_token::MDToken::to_rid(token);
        let table: u32 = super::metadata::md_token::MDToken::to_table_type(token);
        if table == 0x26 {
            Some((ExportedTypeImpl::File, rid))
        } else if table == 0x23 {
            Some((ExportedTypeImpl::AssemblyRef, rid))
        } else if table == 0x27 {
            Some((ExportedTypeImpl::ExportedType, rid))
        } else {
            None
        }
    }

    /// Reads all rows of the table.
    #[verifier::loop_isolation(false)]
    pub fn read_exported_type_rows(metadata: &Metadata) -> (result: Result<Vec<ExportedType>, ImageError>)
        requires
            metadata.spec_wf(),
        ensures
            match result {
                Ok(rows) => {
                    &&& rows@.len() == metadata.spec_rows(39)
                    &&& forall|r: int|
                        0 <= r < rows@.len() ==> (#[trigger] ExportedType::spec_row_error(
                            metadata,
                            r,
                        )).is_none()
                    &&& forall|r: int| 0 <= r < rows@.len() ==> (#[trigger] rows@[r]).spec_row(metadata, r)
                },
                Err(e) => exists|r: int|
                    0 <= r < metadata.spec_rows(39) && #[trigger] ExportedType::spec_row_error(metadata, r)
                        == Some(e) && forall|q: int|
                        0 <= q < r ==> (#[trigger] ExportedType::spec_row_error(metadata, q)).is_none(),
            },
    {
        let mut rows: Vec<ExportedType> = Vec::new();
        let count: u32 = metadata.row_count(39);
        let mut row: u32 = 0;
        while row < count
            invariant
                row <= count,
                rows@.len() == row,
                forall|r: int|
                    0 <= r < row ==> (#[trigger] ExportedType::spec_row_error(metadata, r)).is_none(),
                forall|r: int| 0 <= r < row ==> (#[trigger] rows@[r]).spec_row(metadata, r),
            decreases count - row,
        {
            proof {
                lemma_cells(metadata, MDTableType::ExportedType, row as int);
                assert(metadata.spec_table(39).spec_has_cell(0, row as int));
                assert(metadata.spec_table(39).spec_has_cell(1, row as int));
                assert(metadata.spec_table(39).spec_has_cell(2, row as int));
                assert(metadata.spec_table(39).spec_has_cell(3, row as int));
                assert(metadata.spec_table(39).spec_has_cell(4, row as int));
            }
            let flags: u32 = metadata.cell(39, 0, row);
            let type_def_id: u32 = metadata.cell(39, 1, row);
            let name: String = match metadata.cell_string(39, 2, row) {
                Ok(text) => text,
                Err(e) => {
                    assert(ExportedType::spec_row_error(metadata, row as int) == Some(e));
                    return Err(e);
                },
            };
            let namespace: String = match metadata.cell_string(39, 3, row) {
                Ok(text) => text,
                Err(e) => {
                    assert(ExportedType::spec_row_error(metadata, row as int) == Some(e));
                    return Err(e);
                },
            };
            let implementation: u32 = match CodedToken::from_md_type(MDType::Implementation).decode(
                metadata.cell(39, 4, row),
            ) {
                Some(token) => token,
                None => {
                    assert(ExportedType::spec_row_error(metadata, row as int) == Some(
                        ImageError::InvalidData,
                    ));
                    return Err(ImageError::InvalidData);
                },
            };
            rows.push(ExportedType { token: 0x2700_0001 + row, flags, type_def_id, name, namespace, implementation });
            row += 1;
        }
        Ok(rows)
    }

    /// The full name of row `row`: its namespace, a dot, and its name.
    pub open spec fn spec_row_full_name(md: &Metadata, row: int) -> Seq<char> {
        super::text::spec_full_name(
            md.spec_cell_string(39, 3, row).unwrap(),
            md.spec_cell_string(39, 2, row).unwrap(),
        )
    }

    /// The last of the first `n` rows whose full name is `name`.
    pub open spec fn spec_last_row_named(md: &Metadata, name: Seq<char>, n: int) -> Option<int>
        decreases n,
    {
        if n <= 0 {
            None
        } else if ExportedType::spec_row_full_name(md, n - 1) == name {
            Some(n - 1)
        } else {
            ExportedType::spec_last_row_named(md, name, n - 1)
        }
    }

    /// True where `types` finds for each full name the last of the first `n` rows
    /// with that name, and no row for a name that none of them has.
    pub open spec fn spec_indexed(types: &HashVec<String, ExportedType>, md: &Metadata, n: int) -> bool {
        forall|name: Seq<char>|
            match ExportedType::spec_last_row_named(md, name, n) {
                Some(r) => (#[trigger] types.spec_index_of(name)).is_some() && types.spec_index_of(
                    name,
                ).unwrap() < types.spec_values().len() && types.spec_values()[types.spec_index_of(
                    name,
                ).unwrap() as int].spec_row(md, r),
                None => types.spec_index_of(name).is_none(),
            }
    }

    /// Reads all rows of the table, and keeps each under its full name. Where rows
    /// share a full name, the last of them is kept.
    #[verifier::loop_isolation(false)]
    pub fn read_exported_types(metadata: &Metadata) -> (result: Result<
        HashVec<String, ExportedType>,
        ImageError,
    >)
        requires
            metadata.spec_wf(),
        ensures
            match result {
                Ok(types) => {
                    &&& types.spec_well_formed()
                    &&& forall|r: int|
                        0 <= r < metadata.spec_rows(39) ==> (
                        #[trigger] ExportedType::spec_row_error(metadata, r)).is_none()
                    &&& ExportedType::spec_indexed(&types, metadata, metadata.spec_rows(39))
                },
                Err(e) => exists|r: int|
                    0 <= r < metadata.spec_rows(39) && #[trigger] ExportedType::spec_row_error(metadata, r)
                        == Some(e) && forall|q: int|
                        0 <= q < r ==> (#[trigger] ExportedType::spec_row_error(metadata, q)).is_none(),
            },
    {
        let mut types: HashVec<String, ExportedType> = HashVec::new();
        let count: u32 = metadata.row_count(39);
        let mut row: u32 = 0;
        while row < count
            invariant
                row <= count,
                types.spec_well_formed(),
                forall|r: int|
                    0 <= r < row ==> (#[trigger] ExportedType::spec_row_error(metadata, r)).is_none(),
                ExportedType::spec_indexed(&types, metadata, row as int),
            decreases count - row,
        {
            proof {
                lemma_cells(metadata, MDTableType::ExportedType, row as int);
                assert(metadata.spec_table(39).spec_has_cell(0, row as int));
                assert(metadata.spec_table(39).spec_has_cell(1, row as int));
                assert(metadata.spec_table(39).spec_has_cell(2, row as int));
                assert(metadata.spec_table(39).spec_has_cell(3, row as int));
                assert(metadata.spec_table(39).spec_has_cell(4, row as int));
            }
            let flags: u32 = metadata.cell(39, 0, row);
            let type_def_id: u32 = metadata.cell(39, 1, row);
            let name: String = match metadata.cell_string(39, 2, row) {
                Ok(text) => text,
                Err(e) => {
                    assert(ExportedType::spec_row_error(metadata, row as int) == Some(e));
                    return Err(e);
                },
            };
            let namespace: String = match metadata.cell_string(39, 3, row) {
                Ok(text) => text,
                Err(e) => {
                    assert(ExportedType::spec_row_error(metadata, row as int) == Some(e));
                    return Err(e);
                },
            };
            let implementation: u32 = match CodedToken::from_md_type(MDType::Implementation).decode(
                metadata.cell(39, 4, row),
            ) {
                Some(token) => token,
                None => {
                    assert(ExportedType::spec_row_error(metadata, row as int) == Some(
                        ImageError::InvalidData,
                    ));
                    return Err(ImageError::InvalidData);
                },
            };
            let key: String = super::text::full_name(&namespace, &name);
            let exported = ExportedType {
                token: 0x2700_0001 + row,
                flags,
                type_def_id,
                name,
                namespace,
                implementation,
            };
            let ghost before = types;
            types.insert(key, exported);
            proof {
                assert forall|other: Seq<char>|
                    match ExportedType::spec_last_row_named(metadata, other, row + 1) {
                        Some(r) => (#[trigger] types.spec_index_of(other)).is_some()
                            && types.spec_index_of(other).unwrap() < types.spec_values().len()
                            && types.spec_values()[types.spec_index_of(
                            other,
                        ).unwrap() as int].spec_row(metadata, r),
                        None => types.spec_index_of(other).is_none(),
                    } by {
                    lemma_insert_lookup(before, types, key@, exported, other);
                    if other != key@ {
                        assert(ExportedType::spec_last_row_named(metadata, other, row + 1)
                            == ExportedType::spec_last_row_named(metadata, other, row as int));
                    }
                }
            }
            row += 1;
        }
        Ok(types)
    }
}

/// What a lookup finds after `key` was given the value `value`: that value under
/// `key`, and under every other key what was there before.
pub proof fn lemma_insert_lookup<V>(
    before: HashVec<String, V>,
    after: HashVec<String, V>,
    key: Seq<char>,
    value: V,
    other: Seq<char>,
)
    requires
        before.spec_well_formed(),
        after.spec_well_formed(),
        match before.spec_index_of(key) {
            Some(i) => after.spec_keys() == before.spec_keys() && after.spec_values()
                == before.spec_values().update(i as int, value),
            None => after.spec_keys() == before.spec_keys().push(key) && after.spec_values()
                == before.spec_values().push(value),
        },
        forall|k: Seq<char>|
            before.spec_index_of(k).is_some() ==> after.spec_index_of(k) == before.spec_index_of(
                k,
            ),
    ensures
        after.spec_index_of(key).is_some(),
        after.spec_index_of(key).unwrap() < after.spec_values().len(),
        after.spec_values()[after.spec_index_of(key).unwrap() as int] == value,
        other != key ==> after.spec_index_of(other) == before.spec_index_of(other),
        other != key && before.spec_index_of(other).is_some() ==> before.spec_index_of(
            other,
        ).unwrap() < before.spec_values().len() && after.spec_values()[after.spec_index_of(
            other,
        ).unwrap() as int] == before.spec_values()[before.spec_index_of(other).unwrap() as int],
{
    let keys = before.spec_keys();
    let n = keys.len() as int;
    lemma_index_in_range(before, key);
    lemma_index_in_range(before, other);
    match before.spec_index_of(key) {
        Some(i) => {
            assert(keys[i as int] == key);
            if other != key && before.spec_index_of(other).is_some() {
                let j = before.spec_index_of(other).unwrap() as int;
                assert(keys[j] == other);
            }
            if other != key && before.spec_index_of(other).is_none() {
                assert(!after.spec_keys().contains(other)) by {
                    if after.spec_keys().contains(other) {
                        let j = choose|j: int| 0 <= j < keys.len() && keys[j] == other;
                        assert(before.spec_index_of(keys[j]) == Some(j as usize));
                    }
                }
            }
        },
        None => {
            assert(after.spec_keys()[n] == key);
            assert(after.spec_index_of(after.spec_keys()[n]) == Some(n as usize));
            if other != key && before.spec_index_of(other).is_none() {
                assert(!after.spec_keys().contains(other)) by {
                    if after.spec_keys().contains(other) {
                        let j = choose|j: int|
                            0 <= j < after.spec_keys().len() && after.spec_keys()[j] == other;
                        assert(j < n);
                        assert(keys[j] == other);
                        assert(before.spec_index_of(keys[j]) == Some(j as usize));
                    }
                }
            }
        },
    }
}

/// A key that is found is found at a place of the vector that holds it.
pub proof fn lemma_index_in_range<V>(index: HashVec<String, V>, key: Seq<char>)
    requires
        index.spec_well_formed(),
    ensures
        index.spec_index_of(key).is_some() ==> index.spec_index_of(key).unwrap()
            < index.spec_keys().len() && index.spec_keys()[index.spec_index_of(
            key,
        ).unwrap() as int] == key,
{
    if index.spec_index_of(key).is_some() {
        if !index.spec_keys().contains(key) {
            assert(index.spec_index_of(key).is_none());
        }
        let j = choose|j: int| 0 <= j < index.spec_keys().len() && index.spec_keys()[j] == key;
        assert(index.spec_index_of(index.spec_keys()[j]) == Some(j as usize));
    }
}

} // verus!
