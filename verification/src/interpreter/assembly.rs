use super::assembly_name::AssemblyName;
use super::assembly_ref::AssemblyRef;
use super::data_reader::DataReader;
use super::exported_type::ExportedType;
use super::field::Field;
use super::member_ref::MemberRef;
use super::metadata::blob_stream::{spec_blob, spec_blob_error};
use super::metadata::pe::{spec_pe_error, PE};
use super::metadata::root::{lemma_cells, Metadata};
use super::metadata::table_kind::MDTableType;
use super::method::Method;
use super::method_spec::MethodSpec;
use super::param::Param;
use super::row_util::{insert_unique, spec_owner, spec_unique_key};
use super::standalone_sig::StandaloneSig;
use super::text::spec_full_name;
use super::type_def::TypeDef;
use super::type_ref::TypeRef;
use super::type_sig::CorLibType;
use super::type_spec::TypeSpec;
use crate::error::ImageError;
use crate::hash_vec::HashVec;
use vstd::prelude::*;
use vstd::string::StringExecFns;

verus! {

/// One loaded image: its bytes, its headers, its metadata and the rows of the
/// tables that the interpreter works with.
pub struct Assembly {
    pub assembly_path: String,
    pub assembly_name: AssemblyName,
    /// True where this assembly is the core library itself.
    pub is_cor_lib: bool,
    pub reader: DataReader,
    pub pe: PE,
    pub metadata: Metadata,
    /// The type references, in the order of their rows, found by full name.
    pub type_refs: HashVec<String, TypeRef>,
    /// The type definitions, in the order of their rows, found by full name.
    pub type_defs: HashVec<String, TypeDef>,
    pub fields: Vec<Field>,
    pub methods: Vec<Method>,
    pub params: Vec<Param>,
    pub member_refs: Vec<MemberRef>,
    pub standalone_sigs: Vec<StandaloneSig>,
    pub type_specs: Vec<TypeSpec>,
    pub assembly_refs: Vec<AssemblyRef>,
    pub exported_types: HashVec<String, ExportedType>,
    pub method_specs: Vec<MethodSpec>,
}

/// The row numbers of the first field of each type, in the order of the types.
pub open spec fn spec_field_owners(defs: Seq<TypeDef>) -> Seq<u32> {
    Seq::new(defs.len(), |i: int| defs[i].field_list.start_rid)
}

/// The row numbers of the first method of each type, in the order of the types.
pub open spec fn spec_method_owners(defs: Seq<TypeDef>) -> Seq<u32> {
    Seq::new(defs.len(), |i: int| defs[i].method_list.start_rid)
}

/// Keeps the type references under their full names, in the order of their rows.
#[verifier::loop_isolation(false)]
fn index_type_refs(rows: Vec<TypeRef>) -> (refs: HashVec<String, TypeRef>)
    requires
        rows@.len() <= u32::MAX,
    ensures
        refs.spec_well_formed(),
        refs.spec_values() == rows@,
        forall|r: int|
            0 <= r < rows@.len() ==> spec_unique_key(
                refs.spec_keys().subrange(0, r),
                spec_full_name(rows@[r].namespace@, rows@[r].name@),
                #[trigger] refs.spec_keys()[r],
            ),
{
    let ghost in_order = rows@;
    let n: usize = rows.len();
    let mut rows = rows;
    let mut reversed: Vec<TypeRef> = Vec::new();
    while rows.len() > 0
        invariant
            rows@.len() + reversed@.len() == n,
            n == in_order.len(),
            rows@ == in_order.subrange(0, rows@.len() as int),
            forall|j: int| 0 <= j < reversed@.len() ==> reversed@[j] == in_order[n - 1 - j],
        decreases rows@.len(),
    {
        let row: TypeRef = rows.pop().unwrap();
        reversed.push(row);
        assert(rows@ =~= in_order.subrange(0, rows@.len() as int));
    }
    let mut refs: HashVec<String, TypeRef> = HashVec::new();
    while reversed.len() > 0
        invariant
            refs.spec_well_formed(),
            n <= u32::MAX,
            refs.spec_keys().len() == refs.spec_values().len(),
            refs.spec_values().len() + reversed@.len() == n,
            n == in_order.len(),
            refs.spec_values() == in_order.subrange(0, refs.spec_values().len() as int),
            forall|j: int| 0 <= j < reversed@.len() ==> reversed@[j] == in_order[n - 1 - j],
            forall|r: int|
                0 <= r < refs.spec_values().len() ==> spec_unique_key(
                    refs.spec_keys().subrange(0, r),
                    spec_full_name(in_order[r].namespace@, in_order[r].name@),
                    #[trigger] refs.spec_keys()[r],
                ),
        decreases reversed@.len(),
    {
        let row: TypeRef = reversed.pop().unwrap();
        let key: String = row.full_name();
        let ghost before = refs.spec_keys();
        let ghost done_rows = refs.spec_values().len() as int;
        let placed: bool = insert_unique(&mut refs, key, row);
        assert(placed);
        proof {
            assert(refs.spec_values() =~= in_order.subrange(0, done_rows + 1));
            assert forall|r: int| 0 <= r < done_rows + 1 implies spec_unique_key(
                refs.spec_keys().subrange(0, r),
                spec_full_name(in_order[r].namespace@, in_order[r].name@),
                #[trigger] refs.spec_keys()[r],
            ) by {
                if r < done_rows {
                    assert(refs.spec_keys().subrange(0, r) =~= before.subrange(0, r));
                    assert(refs.spec_keys()[r] == before[r]);
                } else {
                    assert(refs.spec_keys().subrange(0, r) =~= before);
                }
            }
        }
    }
    assert(refs.spec_values() =~= in_order);
    refs
}

/// The row number of the first row of table `child` that each type owns, in the
/// order of the types, as column `col` of the `TypeDef` table gives it.
pub open spec fn spec_owner_map(md: &Metadata, col: int, child: int) -> Seq<u32> {
    Seq::new(
        md.spec_rows(2) as nat,
        |i: int|
            Metadata::spec_rid_list(
                &md.spec_table(2),
                (i + 1) as u32,
                col,
                &md.spec_table(child),
            ).0 as u32,
    )
}

/// The types that were read from the metadata own the rows that the metadata says.
proof fn lemma_owner_maps(md: &Metadata, defs: Seq<TypeDef>)
    requires
        defs.len() == md.spec_rows(2),
        forall|r: int| 0 <= r < defs.len() ==> (#[trigger] defs[r]).spec_row(md, r),
    ensures
        spec_field_owners(defs) == spec_owner_map(md, 4, 4),
        spec_method_owners(defs) == spec_owner_map(md, 5, 6),
{
    assert forall|i: int| 0 <= i < defs.len() implies spec_field_owners(defs)[i]
        == spec_owner_map(md, 4, 4)[i] && spec_method_owners(defs)[i] == spec_owner_map(
        md,
        5,
        6,
    )[i] by {
        assert(defs[i].spec_row(md, i));
    }
    assert(spec_field_owners(defs) =~= spec_owner_map(md, 4, 4));
    assert(spec_method_owners(defs) =~= spec_owner_map(md, 5, 6));
}

fn field_owners(defs: &Vec<TypeDef>) -> (owners: Vec<u32>)
    ensures
        owners@ == spec_field_owners(defs@),
{
    let mut owners: Vec<u32> = Vec::new();
    let mut i: usize = 0;
    while i < defs.len()
        invariant
            i <= defs@.len(),
            owners@ == spec_field_owners(defs@).subrange(0, i as int),
        decreases defs@.len() - i,
    {
        owners.push(defs[i].field_list.start_rid);
        i += 1;
        assert(owners@ =~= spec_field_owners(defs@).subrange(0, i as int));
    }
    assert(owners@ =~= spec_field_owners(defs@));
    owners
}

fn method_owners(defs: &Vec<TypeDef>) -> (owners: Vec<u32>)
    ensures
        owners@ == spec_method_owners(defs@),
{
    let mut owners: Vec<u32> = Vec::new();
    let mut i: usize = 0;
    while i < defs.len()
        invariant
            i <= defs@.len(),
            owners@ == spec_method_owners(defs@).subrange(0, i as int),
        decreases defs@.len() - i,
    {
        owners.push(defs[i].method_list.start_rid);
        i += 1;
        assert(owners@ =~= spec_method_owners(defs@).subrange(0, i as int));
    }
    assert(owners@ =~= spec_method_owners(defs@));
    owners
}

/// True where `name` is what the first row of the `Assembly` table holds.
pub open spec fn spec_identity(name: &AssemblyName, md: &Metadata) -> bool {
    &&& md.spec_rows(32) > 0
    &&& name.major_version == md.spec_cell(32, 1, 0)
    &&& name.minor_version == md.spec_cell(32, 2, 0)
    &&& name.build_number == md.spec_cell(32, 3, 0)
    &&& name.revision_number == md.spec_cell(32, 4, 0)
    &&& name.flags == md.spec_cell(32, 5, 0)
    &&& spec_blob_error(md.blob_stream.bytes(), md.spec_cell(32, 6, 0) as int).is_none()
    &&& name.public_key_token@ == spec_blob(md.blob_stream.bytes(), md.spec_cell(32, 6, 0) as int)
    &&& md.spec_cell_string(32, 7, 0) == Some(name.name@)
}

/// Why the identity of the assembly cannot be read, if it cannot: the `Assembly`
/// table is empty, or the key or the name of its first row is not there.
pub open spec fn spec_identity_error(md: &Metadata) -> Option<ImageError> {
    if md.spec_rows(32) == 0 {
        Some(ImageError::InvalidData)
    } else if spec_blob_error(md.blob_stream.bytes(), md.spec_cell(32, 6, 0) as int).is_some() {
        spec_blob_error(md.blob_stream.bytes(), md.spec_cell(32, 6, 0) as int)
    } else if md.spec_cell_string(32, 7, 0).is_none() {
        Some(ImageError::UnexpectedEof)
    } else {
        None
    }
}

/// Reads the identity of the assembly from the first row of the `Assembly` table.
pub fn read_identity(metadata: &Metadata) -> (result: Result<AssemblyName, ImageError>)
    requires
        metadata.spec_wf(),
    ensures
        match result {
            Ok(name) => spec_identity_error(metadata).is_none() && spec_identity(&name, metadata),
            Err(e) => spec_identity_error(metadata) == Some(e),
        },
{
    if metadata.row_count(32) == 0 {
        return Err(ImageError::InvalidData);
    }
    proof {
        lemma_cells(metadata, MDTableType::Assembly, 0);
        assert(metadata.spec_table(32).spec_has_cell(1, 0));
        assert(metadata.spec_table(32).spec_has_cell(2, 0));
        assert(metadata.spec_table(32).spec_has_cell(3, 0));
        assert(metadata.spec_table(32).spec_has_cell(4, 0));
        assert(metadata.spec_table(32).spec_has_cell(5, 0));
        assert(metadata.spec_table(32).spec_has_cell(6, 0));
        assert(metadata.spec_table(32).spec_has_cell(7, 0));
    }
    let major_version: u16 = metadata.cell(32, 1, 0) as u16;
    let minor_version: u16 = metadata.cell(32, 2, 0) as u16;
    let build_number: u16 = metadata.cell(32, 3, 0) as u16;
    let revision_number: u16 = metadata.cell(32, 4, 0) as u16;
    let flags: u32 = metadata.cell(32, 5, 0);
    let public_key_token: Vec<u8> = metadata.blob_stream.read(metadata.cell(32, 6, 0))?;
    let name: String = metadata.cell_string(32, 7, 0)?;
    Ok(
        AssemblyName {
            major_version,
            minor_version,
            build_number,
            revision_number,
            flags,
            public_key_token,
            name,
        },
    )
}

impl Assembly {
    /// True where the rows are those of the tables of the metadata, which is that
    /// of the image `image`.
    pub open spec fn spec_loaded(&self, image: Seq<u8>) -> bool {
        &&& spec_pe_error(image).is_none()
        &&& self.pe.spec_parsed_from(image)
        &&& self.spec_rows_loaded(image)
    }

    /// True where the rows are those of the tables of the metadata, read from the
    /// image `image`.
    pub open spec fn spec_rows_loaded(&self, image: Seq<u8>) -> bool {
        let md = &self.metadata;
        &&& self.reader.bytes() == image
        &&& md.spec_wf()
        &&& self.type_refs.spec_well_formed()
        &&& self.type_refs.spec_values().len() == md.spec_rows(1)
        &&& forall|r: int|
            0 <= r < md.spec_rows(1) ==> (#[trigger] self.type_refs.spec_values()[r]).spec_row(
                md,
                r,
            )
        &&& self.type_defs.spec_well_formed()
        &&& self.type_defs.spec_values().len() == md.spec_rows(2)
        &&& forall|r: int|
            0 <= r < md.spec_rows(2) ==> (#[trigger] self.type_defs.spec_values()[r]).spec_row(
                md,
                r,
            )
        &&& self.fields@.len() == md.spec_rows(4)
        &&& forall|r: int|
            0 <= r < md.spec_rows(4) ==> (#[trigger] self.fields@[r]).spec_row(
                md,
                r,
                spec_field_owners(self.type_defs.spec_values()),
            )
        &&& self.methods@.len() == md.spec_rows(6)
        &&& forall|r: int|
            0 <= r < md.spec_rows(6) ==> (#[trigger] self.methods@[r]).spec_row(
                md,
                &self.pe,
                image,
                r,
                spec_method_owners(self.type_defs.spec_values()),
            )
        &&& self.params@.len() == md.spec_rows(8)
        &&& forall|r: int|
            0 <= r < md.spec_rows(8) ==> (#[trigger] self.params@[r]).spec_row(md, r)
        &&& self.member_refs@.len() == md.spec_rows(10)
        &&& forall|r: int|
            0 <= r < md.spec_rows(10) ==> (#[trigger] self.member_refs@[r]).spec_row(md, r)
        &&& self.standalone_sigs@.len() == md.spec_rows(17)
        &&& forall|r: int|
            0 <= r < md.spec_rows(17) ==> (#[trigger] self.standalone_sigs@[r]).spec_row(md, r)
        &&& self.type_specs@.len() == md.spec_rows(27)
        &&& forall|r: int|
            0 <= r < md.spec_rows(27) ==> (#[trigger] self.type_specs@[r]).spec_row(md, r)
        &&& self.assembly_refs@.len() == md.spec_rows(35)
        &&& forall|r: int|
            0 <= r < md.spec_rows(35) ==> (#[trigger] self.assembly_refs@[r]).spec_row(md, r)
        &&& self.exported_types.spec_well_formed()
        &&& ExportedType::spec_indexed(&self.exported_types, md, md.spec_rows(39))
        &&& self.method_specs@.len() == md.spec_rows(43)
        &&& forall|r: int|
            0 <= r < md.spec_rows(43) ==> (#[trigger] self.method_specs@[r]).spec_row(md, r)
        &&& self.spec_named()
    }

    /// True where the identity of the assembly is what the first row of the
    /// `Assembly` table holds.
    pub open spec fn spec_named(&self) -> bool {
        spec_identity(&self.assembly_name, &self.metadata)
    }

    /// True where loading the image `image`, whose headers are `pe`, fails with
    /// `e` behind the headers: `e` is the error of the metadata, or else an error
    /// of the rows of the metadata that was read.
    pub open spec fn spec_fails_behind(pe: &PE, image: Seq<u8>, e: ImageError) -> bool {
        Metadata::spec_read_fails(pe, image, e) || exists|md: Metadata| #[trigger]
            md.spec_read_from(pe, image) && Assembly::spec_rows_fail(&md, pe, image, e)
    }

    /// True where loading the image `image` fails with `e`: `e` is the error of
    /// the headers, or else that of the metadata, or else that of the rows.
    pub open spec fn spec_load_fails(image: Seq<u8>, e: ImageError) -> bool {
        if spec_pe_error(image).is_some() {
            spec_pe_error(image) == Some(e)
        } else {
            exists|pe: PE| #[trigger]
                pe.spec_parsed_from(image) && Assembly::spec_fails_behind(&pe, image, e)
        }
    }

    /// Loads the assembly whose image is `image`, which was read from
    /// `assembly_path`: the headers, the metadata, then the rows of the tables.
    /// Loading fails with the error of the first of these that cannot be read,
    /// and succeeds where all can be read.
    pub fn new(assembly_path: &String, image: Vec<u8>, is_cor_lib: bool) -> (result: Result<
        Assembly,
        ImageError,
    >)
        ensures
            match result {
                Ok(assembly) => {
                    &&& assembly.spec_loaded(image@)
                    &&& assembly.metadata.spec_read_from(&assembly.pe, image@)
                    &&& Assembly::spec_rows_ok(&assembly.metadata, &assembly.pe, image@)
                    &&& assembly.is_cor_lib == is_cor_lib
                    &&& assembly.assembly_path@ == assembly_path@
                },
                Err(e) => Assembly::spec_load_fails(image@, e),
            },
            (forall|e: ImageError| !Assembly::spec_load_fails(image@, e)) ==> result is Ok,
    {
        let mut reader: DataReader = DataReader::new(image);
        let pe: PE = match PE::new(&mut reader) {
            Ok(pe) => pe,
            Err(e) => {
                assert(Assembly::spec_load_fails(image@, e));
                return Err(e);
            },
        };
        let metadata: Metadata = match Metadata::new(&pe, &mut reader) {
            Ok(metadata) => metadata,
            Err(e) => {
                proof {
                    Assembly::lemma_fails_behind(&pe, None, image@, e);
                }
                return Err(e);
            },
        };
        let ghost headers = pe;
        let ghost tables = metadata;
        let result = Assembly::from_metadata(assembly_path, reader, pe, metadata, is_cor_lib);
        proof {
            if let Err(e) = result {
                Assembly::lemma_fails_behind(&headers, Some(tables), image@, e);
            }
        }
        result
    }

    /// Loading fails behind headers that were read where the metadata cannot be
    /// read, or its rows cannot.
    proof fn lemma_fails_behind(pe: &PE, md: Option<Metadata>, image: Seq<u8>, e: ImageError)
        requires
            spec_pe_error(image).is_none(),
            pe.spec_parsed_from(image),
            match md {
                Some(md) => md.spec_read_from(pe, image) && Assembly::spec_rows_fail(
                    &md,
                    pe,
                    image,
                    e,
                ),
                None => Metadata::spec_read_fails(pe, image, e),
            },
        ensures
            Assembly::spec_load_fails(image, e),
    {
        assert(Assembly::spec_fails_behind(pe, image, e));
    }

    /// True where every row that loading reads can be read: no row of a table has
    /// an error, every field and every method has a type that owns it, the types
    /// can be counted in a token, and the assembly has an identity.
    pub open spec fn spec_rows_ok(md: &Metadata, pe: &PE, image: Seq<u8>) -> bool {
        &&& forall|r: int|
            0 <= r < md.spec_rows(1) ==> (#[trigger] TypeRef::spec_row_error(md, r)).is_none()
        &&& forall|r: int|
            0 <= r < md.spec_rows(2) ==> (#[trigger] TypeDef::spec_row_error(md, r)).is_none()
        &&& md.spec_rows(2) <= 0x00FF_FFFF
        &&& forall|r: int|
            0 <= r < md.spec_rows(4) ==> (#[trigger] Field::spec_row_error(md, r)).is_none()
                && spec_owner(spec_owner_map(md, 4, 4), r + 1) > 0
        &&& forall|r: int|
            0 <= r < md.spec_rows(6) ==> (#[trigger] Method::spec_row_error(md, pe, image, r)).is_none()
                && spec_owner(spec_owner_map(md, 5, 6), r + 1) > 0
        &&& forall|r: int|
            0 <= r < md.spec_rows(8) ==> (#[trigger] Param::spec_row_error(md, r)).is_none()
        &&& forall|r: int|
            0 <= r < md.spec_rows(10) ==> (#[trigger] MemberRef::spec_row_error(md, r)).is_none()
        &&& forall|r: int|
            0 <= r < md.spec_rows(17) ==> (#[trigger] StandaloneSig::spec_row_error(
                md,
                r,
            )).is_none()
        &&& forall|r: int|
            0 <= r < md.spec_rows(27) ==> (#[trigger] TypeSpec::spec_row_error(md, r)).is_none()
        &&& forall|r: int|
            0 <= r < md.spec_rows(35) ==> (#[trigger] AssemblyRef::spec_row_error(md, r)).is_none()
        &&& forall|r: int|
            0 <= r < md.spec_rows(39) ==> (#[trigger] ExportedType::spec_row_error(md, r)).is_none()
        &&& forall|r: int|
            0 <= r < md.spec_rows(43) ==> (#[trigger] MethodSpec::spec_row_error(md, r)).is_none()
        &&& spec_identity_error(md).is_none()
    }

    /// True where `e` is an error that stops loading: the error of a row of one of
    /// the tables, of a field or a method that no type owns, of more types than a
    /// token can count, or of the identity.
    pub open spec fn spec_rows_fail(md: &Metadata, pe: &PE, image: Seq<u8>, e: ImageError) -> bool {
        ||| exists|r: int|
            0 <= r < md.spec_rows(1) && #[trigger] TypeRef::spec_row_error(md, r) == Some(e)
        ||| exists|r: int|
            0 <= r < md.spec_rows(2) && #[trigger] TypeDef::spec_row_error(md, r) == Some(e)
        ||| md.spec_rows(2) > 0x00FF_FFFF && e == ImageError::InvalidData
        ||| exists|r: int|
            0 <= r < md.spec_rows(4) && (if spec_owner(spec_owner_map(md, 4, 4), r + 1) == 0 {
                Some(ImageError::InvalidData)
            } else {
                #[trigger] Field::spec_row_error(md, r)
            }) == Some(e)
        ||| exists|r: int|
            0 <= r < md.spec_rows(6) && (if spec_owner(spec_owner_map(md, 5, 6), r + 1) == 0 {
                Some(ImageError::InvalidData)
            } else {
                #[trigger] Method::spec_row_error(md, pe, image, r)
            }) == Some(e)
        ||| exists|r: int|
            0 <= r < md.spec_rows(8) && #[trigger] Param::spec_row_error(md, r) == Some(e)
        ||| exists|r: int|
            0 <= r < md.spec_rows(10) && #[trigger] MemberRef::spec_row_error(md, r) == Some(e)
        ||| exists|r: int|
            0 <= r < md.spec_rows(17) && #[trigger] StandaloneSig::spec_row_error(md, r) == Some(e)
        ||| exists|r: int|
            0 <= r < md.spec_rows(27) && #[trigger] TypeSpec::spec_row_error(md, r) == Some(e)
        ||| exists|r: int|
            0 <= r < md.spec_rows(35) && #[trigger] AssemblyRef::spec_row_error(md, r) == Some(e)
        ||| exists|r: int|
            0 <= r < md.spec_rows(39) && #[trigger] ExportedType::spec_row_error(md, r) == Some(e)
        ||| exists|r: int|
            0 <= r < md.spec_rows(43) && #[trigger] MethodSpec::spec_row_error(md, r) == Some(e)
        ||| spec_identity_error(md) == Some(e)
    }

    /// Reads the rows of the tables that the interpreter works with from the
    /// metadata `metadata` of the image that `reader` holds, whose headers are `pe`.
    /// The tables are read in the order of their numbers, the identity last; the
    /// first row that cannot be read stops the loading.
    pub fn from_metadata(
        assembly_path: &String,
        reader: DataReader,
        pe: PE,
        metadata: Metadata,
        is_cor_lib: bool,
    ) -> (result: Result<Assembly, ImageError>)
        requires
            metadata.spec_wf(),
        ensures
            result is Ok <==> Assembly::spec_rows_ok(&metadata, &pe, reader.bytes()),
            match result {
                Ok(assembly) => {
                    &&& assembly.spec_rows_loaded(reader.bytes())
                    &&& assembly.pe == pe
                    &&& assembly.metadata == metadata
                    &&& assembly.is_cor_lib == is_cor_lib
                    &&& assembly.assembly_path@ == assembly_path@
                },
                Err(e) => Assembly::spec_rows_fail(&metadata, &pe, reader.bytes(), e),
            },
    {
        let mut reader = reader;
        let type_ref_rows: Vec<TypeRef> = match TypeRef::read_type_refs(&metadata) {
            Ok(rows) => rows,
            Err(e) => {
                return Err(e);
            },
        };
        let type_refs: HashVec<String, TypeRef> = index_type_refs(type_ref_rows);
        let type_defs: HashVec<String, TypeDef> = match TypeDef::read_type_defs(&metadata) {
            Ok(defs) => defs,
            Err(e) => {
                return Err(e);
            },
        };
        if type_defs.len() > 0x00FF_FFFF {
            return Err(ImageError::InvalidData);
        }
        proof {
            lemma_owner_maps(&metadata, type_defs.spec_values());
        }
        let field_to_type_map: Vec<u32> = field_owners(type_defs.vec());
        let fields: Vec<Field> = match Field::read_fields(&metadata, field_to_type_map) {
            Ok(rows) => rows,
            Err(e) => {
                return Err(e);
            },
        };
        let method_to_type_map: Vec<u32> = method_owners(type_defs.vec());
        let methods: Vec<Method> = match Method::read_methods(
            &pe,
            &metadata,
            method_to_type_map,
            &mut reader,
        ) {
            Ok(rows) => rows,
            Err(e) => {
                return Err(e);
            },
        };
        let params: Vec<Param> = match Param::read_params(&metadata) {
            Ok(rows) => rows,
            Err(e) => {
                return Err(e);
            },
        };
        let member_refs: Vec<MemberRef> = match MemberRef::read_member_refs(&metadata) {
            Ok(rows) => rows,
            Err(e) => {
                return Err(e);
            },
        };
        let standalone_sigs: Vec<StandaloneSig> = match StandaloneSig::read_standalone_sigs(
            &metadata,
        ) {
            Ok(rows) => rows,
            Err(e) => {
                return Err(e);
            },
        };
        let type_specs: Vec<TypeSpec> = match TypeSpec::read_type_specs(&metadata) {
            Ok(rows) => rows,
            Err(e) => {
                return Err(e);
            },
        };
        let assembly_refs: Vec<AssemblyRef> = match AssemblyRef::read_assembly_refs(&metadata) {
            Ok(rows) => rows,
            Err(e) => {
                return Err(e);
            },
        };
        let exported_types: HashVec<String, ExportedType> = match ExportedType::read_exported_types(
            &metadata,
        ) {
            Ok(types) => types,
            Err(e) => {
                return Err(e);
            },
        };
        let method_specs: Vec<MethodSpec> = match MethodSpec::read_method_specs(&metadata) {
            Ok(rows) => rows,
            Err(e) => {
                return Err(e);
            },
        };
        let assembly_name: AssemblyName = read_identity(&metadata)?;
        Ok(
            Assembly {
                assembly_path: assembly_path.clone(),
                assembly_name,
                is_cor_lib,
                reader,
                pe,
                metadata,
                type_refs,
                type_defs,
                fields,
                methods,
                params,
                member_refs,
                standalone_sigs,
                type_specs,
                assembly_refs,
                exported_types,
                method_specs,
            },
        )
    }

    /// True where the image `image` loads, and is the image of an assembly whose
    /// name is not `name`.
    pub open spec fn spec_other_name(image: Seq<u8>, name: Seq<char>) -> bool {
        exists|assembly: Assembly| #[trigger]
            assembly.spec_loaded(image) && assembly.assembly_name.name@ != name
    }

    /// Loads the assembly named `assembly_name` from the image `image`, which was
    /// read from `assembly_path`. Fails as loading the image fails, and with
    /// `Other` where the image is that of an assembly of another name.
    pub fn load(assembly_name: &AssemblyName, assembly_path: &String, image: Vec<u8>) -> (result:
        Result<Assembly, ImageError>)
        ensures
            match result {
                Ok(assembly) => {
                    &&& assembly.spec_loaded(image@)
                    &&& assembly.metadata.spec_read_from(&assembly.pe, image@)
                    &&& Assembly::spec_rows_ok(&assembly.metadata, &assembly.pe, image@)
                    &&& !assembly.is_cor_lib
                    &&& assembly.assembly_path@ == assembly_path@
                    &&& assembly.assembly_name.name@ == assembly_name.name@
                },
                Err(e) => Assembly::spec_load_fails(image@, e) || (e == ImageError::Other
                    && Assembly::spec_other_name(image@, assembly_name.name@)),
            },
            (forall|e: ImageError| !Assembly::spec_load_fails(image@, e))
                && !Assembly::spec_other_name(image@, assembly_name.name@) ==> result is Ok,
    {
        let assembly: Assembly = match Assembly::new(assembly_path, image, false) {
            Ok(assembly) => assembly,
            Err(e) => {
                assert(Assembly::spec_load_fails(image@, e));
                return Err(e);
            },
        };
        if !assembly.assembly_name.same(assembly_name) {
            assert(assembly.spec_loaded(image@));
            return Err(ImageError::Other);
        }
        Ok(assembly)
    }

    /// The path of the file that holds the assembly named `name` in the
    /// directory `runtime_root`, which ends with the separator of the host.
    pub fn path_of(runtime_root: &String, name: &String) -> (path: String)
        ensures
            path@ == runtime_root@ + name@ + ".dll"@,
    {
        let mut path: String = runtime_root.clone();
        path.append(name.as_str());
        path.append(".dll");
        path
    }

    /// The token of the row that stands for a type of the core library in this
    /// assembly: a type definition where this assembly is the core library, else a
    /// type reference. Fails with `Other` where the assembly has no such row.
    pub fn resolve_cor_lib_type(&self, cor_lib_type: &CorLibType) -> (result: Result<
        u32,
        ImageError,
    >)
        ensures
            match result {
                Ok(token) => if self.is_cor_lib {
                    self.type_defs.spec_index_of(cor_lib_type.spec_full_name()).is_some()
                        && token == self.type_defs.spec_values()[self.type_defs.spec_index_of(
                        cor_lib_type.spec_full_name(),
                    ).unwrap() as int].token
                } else {
                    self.type_refs.spec_index_of(cor_lib_type.spec_full_name()).is_some()
                        && token == self.type_refs.spec_values()[self.type_refs.spec_index_of(
                        cor_lib_type.spec_full_name(),
                    ).unwrap() as int].token
                },
                Err(e) => e == ImageError::Other && (if self.is_cor_lib {
                    self.type_defs.spec_index_of(cor_lib_type.spec_full_name()).is_none()
                } else {
                    self.type_refs.spec_index_of(cor_lib_type.spec_full_name()).is_none()
                }),
            },
    {
        let type_full_name: String = String::from_str(cor_lib_type.full_name());
        if self.is_cor_lib {
            match self.type_defs.key_get(&type_full_name) {
                Some(t) => Ok(t.token),
                None => Err(ImageError::Other),
            }
        } else {
            match self.type_refs.key_get(&type_full_name) {
                Some(t) => Ok(t.token),
                None => Err(ImageError::Other),
            }
        }
    }
}

} // verus!
