use super::blob_stream::BlobStream;
use super::guid_stream::GuidStream;
use super::image_cor20_header::ImageCor20Header;
use super::md_token::CodedToken;
use super::metadata_header::{MetadataHeader, StreamHeader};
use super::pe::{spec_rva_to_file_offset, PE};
use super::rid_list::RidList;
use super::strings_stream::StringsStream;
use super::table_kind::{MDTableType, MDType};
use super::table_stream::{MDTable, TableStream};
use super::us_stream::USStream;
use crate::error::ImageError;
use crate::interpreter::data_reader::{spec_u32_le, DataReader};
use vstd::prelude::*;
use vstd::string::StringExecFns;

verus! {

/// The place of the runtime header among the data directories.
pub const CLI_DIRECTORY: usize = 14;

/// The kind of the metadata, going by the names of its streams.
#[derive(Clone, Copy, PartialEq, Eq, Debug, Structural)]
pub enum MetadataType {
    /// Neither a compressed nor an uncompressed table stream is there.
    Unknown,
    /// The tables lie in the stream `#~`.
    Compressed,
    /// The tables lie in the stream `#-`, or a `#Schema` stream is there.
    ENC,
}

/// The metadata of an image: the heaps and the tables.
pub struct Metadata {
    pub strings_stream: StringsStream,
    pub us_stream: USStream,
    pub blob_stream: BlobStream,
    pub guid_stream: GuidStream,
    pub table_stream: TableStream,
}

/// The kind that the first `n` stream headers give.
pub open spec fn spec_metadata_type(headers: Seq<StreamHeader>, n: int) -> MetadataType
    decreases n,
{
    if n <= 0 {
        MetadataType::Unknown
    } else {
        let before = spec_metadata_type(headers, n - 1);
        let name = headers[n - 1].name@;
        if name == "#Schema"@ {
            MetadataType::ENC
        } else if before != MetadataType::Unknown {
            before
        } else if name == "#~"@ {
            MetadataType::Compressed
        } else if name == "#-"@ {
            MetadataType::ENC
        } else {
            MetadataType::Unknown
        }
    }
}

/// The place of the last of the first `n` stream headers that is named `name`.
pub open spec fn spec_last_stream(headers: Seq<StreamHeader>, name: Seq<char>, n: int) -> Option<
    int,
>
    decreases n,
{
    if n <= 0 {
        None
    } else if headers[n - 1].name@ == name {
        Some(n - 1)
    } else {
        spec_last_stream(headers, name, n - 1)
    }
}

/// True of the names that a stream of compressed metadata may have.
pub open spec fn spec_known_stream(name: Seq<char>) -> bool {
    name == "#Strings"@ || name == "#US"@ || name == "#Blob"@ || name == "#GUID"@ || name == "#~"@
        || name == "#Pdb"@
}

/// True where some stream of the first `n` has a name that is not known.
pub open spec fn spec_has_unknown_stream(headers: Seq<StreamHeader>, n: int) -> bool {
    exists|k: int| 0 <= k < n && !spec_known_stream(#[trigger] headers[k].name@)
}

/// The bytes of the last stream named `name`, counted from `base`; no bytes where
/// there is no such stream.
pub open spec fn spec_stream_bytes(
    s: Seq<u8>,
    base: int,
    headers: Seq<StreamHeader>,
    name: Seq<char>,
) -> Seq<u8> {
    match spec_last_stream(headers, name, headers.len() as int) {
        Some(k) => s.subrange(
            base + headers[k].offset,
            base + headers[k].offset + headers[k].size,
        ),
        None => Seq::<u8>::empty(),
    }
}

/// True where the last stream named `name` does not lie within the data.
pub open spec fn spec_stream_cut(
    s: Seq<u8>,
    base: int,
    headers: Seq<StreamHeader>,
    name: Seq<char>,
) -> bool {
    match spec_last_stream(headers, name, headers.len() as int) {
        Some(k) => base + headers[k].offset + headers[k].size > s.len(),
        None => false,
    }
}

fn name_is(name: &String, literal: &str) -> (b: bool)
    ensures
        b == (name@ == literal@),
{
    let other: String = String::from_str(literal);
    name.eq(&other)
}

fn find_last(headers: &Vec<StreamHeader>, literal: &str) -> (found: Option<usize>)
    ensures
        match found {
            Some(k) => spec_last_stream(headers@, literal@, headers@.len() as int) == Some(
                k as int,
            ) && k < headers@.len(),
            None => spec_last_stream(headers@, literal@, headers@.len() as int).is_none(),
        },
{
    let mut n: usize = headers.len();
    while n > 0
        invariant
            n <= headers@.len(),
            spec_last_stream(headers@, literal@, headers@.len() as int) == spec_last_stream(
                headers@,
                literal@,
                n as int,
            ),
        decreases n,
    {
        if name_is(&headers[n - 1].name, literal) {
            return Some(n - 1);
        }
        n -= 1;
    }
    None
}

/// Moves the cursor to the start of stream `k`, and returns the size of the stream.
fn seek_stream(reader: &mut DataReader, base: usize, headers: &Vec<StreamHeader>, k: usize) -> (result:
    Result<usize, ImageError>)
    requires
        k < headers@.len(),
    ensures
        final(reader).bytes() == old(reader).bytes(),
        match result {
            Ok(size) => size == headers@[k as int].size && final(reader).pos() == base
                + headers@[k as int].offset && base + headers@[k as int].offset + size <= old(reader).bytes().len(),
            Err(e) => e == ImageError::UnexpectedEof && base + headers@[k as int].offset
                + headers@[k as int].size > old(reader).bytes().len(),
        },
{
    let len: usize = reader.len();
    let offset: usize = headers[k].offset as usize;
    let size: usize = headers[k].size as usize;
    if base > len || offset > len - base || size > len - base - offset {
        return Err(ImageError::UnexpectedEof);
    }
    reader.set_position(base + offset)?;
    Ok(size)
}

impl Metadata {
    /// The tables are all there and filled.
    pub open spec fn spec_wf(&self) -> bool {
        self.table_stream.spec_wf()
    }

    /// The kind of the metadata with the given streams.
    pub fn get_metadata_type(stream_headers: &Vec<StreamHeader>) -> (result: Result<
        MetadataType,
        ImageError,
    >)
        ensures
            result == Ok::<MetadataType, ImageError>(
                spec_metadata_type(stream_headers@, stream_headers@.len() as int),
            ),
    {
        let mut md_type: MetadataType = MetadataType::Unknown;
        let mut i: usize = 0;
        while i < stream_headers.len()
            invariant
                i <= stream_headers@.len(),
                md_type == spec_metadata_type(stream_headers@, i as int),
            decreases stream_headers@.len() - i,
        {
            let name: &String = &stream_headers[i].name;
            if md_type == MetadataType::Unknown {
                if name_is(name, "#~") {
                    md_type = MetadataType::Compressed;
                } else if name_is(name, "#-") {
                    md_type = MetadataType::ENC;
                }
            }
            if name_is(name, "#Schema") {
                md_type = MetadataType::ENC;
            }
            i += 1;
        }
        Ok(md_type)
    }

    /// Why the streams of the directory `headers`, which lie from `base` on, cannot
    /// be loaded, if they cannot.
    pub open spec fn spec_streams_error(s: Seq<u8>, base: int, headers: Seq<StreamHeader>) -> Option<
        ImageError,
    > {
        let kind = spec_metadata_type(headers, headers.len() as int);
        if kind == MetadataType::ENC {
            Some(ImageError::Other)
        } else if kind == MetadataType::Unknown {
            Some(ImageError::InvalidData)
        } else if spec_has_unknown_stream(headers, headers.len() as int) {
            Some(ImageError::InvalidData)
        } else if spec_stream_cut(s, base, headers, "#Strings"@) || spec_stream_cut(
            s,
            base,
            headers,
            "#US"@,
        ) || spec_stream_cut(s, base, headers, "#Blob"@) || spec_stream_cut(
            s,
            base,
            headers,
            "#GUID"@,
        ) {
            Some(ImageError::UnexpectedEof)
        } else {
            match spec_last_stream(headers, "#~"@, headers.len() as int) {
                Some(k) => if super::table_stream::spec_table_start(
                    s,
                    base + headers[k].offset,
                    56,
                ) > s.len() {
                    Some(ImageError::UnexpectedEof)
                } else {
                    None
                },
                None => Some(ImageError::InvalidData),
            }
        }
    }

    /// True where the heaps and the tables are those of the streams of the
    /// directory `headers`, which lie from `base` on.
    pub open spec fn spec_streams_from(&self, s: Seq<u8>, base: int, headers: Seq<StreamHeader>) -> bool {
        &&& self.strings_stream.bytes() == spec_stream_bytes(s, base, headers, "#Strings"@)
        &&& self.us_stream.bytes() == spec_stream_bytes(s, base, headers, "#US"@)
        &&& self.blob_stream.bytes() == spec_stream_bytes(s, base, headers, "#Blob"@)
        &&& self.guid_stream.bytes() == spec_stream_bytes(s, base, headers, "#GUID"@)
        &&& match spec_last_stream(headers, "#~"@, headers.len() as int) {
            Some(k) => {
                &&& self.table_stream.spec_header_from(s, base + headers[k].offset)
                &&& self.table_stream.spec_tables_from(s, base + headers[k].offset)
            },
            None => false,
        }
    }

    /// Loads the heaps and the tables from the streams of the directory
    /// `stream_headers`, which lie from `base` on in the data of `reader`. Where a
    /// name occurs more than once, the last stream of that name counts.
    #[verifier::loop_isolation(false)]
    pub fn load_streams(reader: &mut DataReader, base: usize, stream_headers: &Vec<StreamHeader>) -> (result:
        Result<Metadata, ImageError>)
        ensures
            final(reader).bytes() == old(reader).bytes(),
            match result {
                Ok(md) => {
                    &&& Metadata::spec_streams_error(
                        old(reader).bytes(),
                        base as int,
                        stream_headers@,
                    ).is_none()
                    &&& md.spec_wf()
                    &&& md.spec_streams_from(old(reader).bytes(), base as int, stream_headers@)
                },
                Err(e) => Metadata::spec_streams_error(
                    old(reader).bytes(),
                    base as int,
                    stream_headers@,
                ) == Some(e),
            },
    {
        let ghost s = reader.bytes();
        let kind: MetadataType = match Metadata::get_metadata_type(stream_headers) {
            Ok(kind) => kind,
            Err(e) => {
                return Err(e);
            },
        };
        match kind {
            MetadataType::ENC => {
                return Err(ImageError::Other);
            },
            MetadataType::Unknown => {
                return Err(ImageError::InvalidData);
            },
            MetadataType::Compressed => {},
        }
        let mut i: usize = 0;
        while i < stream_headers.len()
            invariant
                i <= stream_headers@.len(),
                !spec_has_unknown_stream(stream_headers@, i as int),
            decreases stream_headers@.len() - i,
        {
            let name: &String = &stream_headers[i].name;
            let known: bool = name_is(name, "#Strings") || name_is(name, "#US") || name_is(
                name,
                "#Blob",
            ) || name_is(name, "#GUID") || name_is(name, "#~") || name_is(name, "#Pdb");
            if !known {
                assert(!spec_known_stream(stream_headers@[i as int].name@));
                assert(spec_has_unknown_stream(stream_headers@, stream_headers@.len() as int));
                return Err(ImageError::InvalidData);
            }
            assert(spec_known_stream(stream_headers@[i as int].name@));
            i += 1;
        }
        let strings_stream: StringsStream = match find_last(stream_headers, "#Strings") {
            Some(k) => {
                let size: usize = seek_stream(reader, base, stream_headers, k)?;
                StringsStream::new(reader, size as u32)?
            },
            None => StringsStream::empty(),
        };
        let us_stream: USStream = match find_last(stream_headers, "#US") {
            Some(k) => {
                let size: usize = seek_stream(reader, base, stream_headers, k)?;
                USStream::new(reader, size)?
            },
            None => USStream::empty(),
        };
        let blob_stream: BlobStream = match find_last(stream_headers, "#Blob") {
            Some(k) => {
                let size: usize = seek_stream(reader, base, stream_headers, k)?;
                BlobStream::new(reader, size)?
            },
            None => BlobStream::empty(),
        };
        let guid_stream: GuidStream = match find_last(stream_headers, "#GUID") {
            Some(k) => {
                let size: usize = seek_stream(reader, base, stream_headers, k)?;
                GuidStream::new(reader, size)?
            },
            None => GuidStream::empty(),
        };
        let table_stream: TableStream = match find_last(stream_headers, "#~") {
            Some(k) => {
                let len: usize = reader.len();
                let offset: usize = stream_headers[k].offset as usize;
                if base > len || offset > len - base {
                    proof {
                        super::table_stream::lemma_table_start_after(s, base + offset, 56);
                    }
                    return Err(ImageError::UnexpectedEof);
                }
                reader.set_position(base + offset)?;
                TableStream::new(reader)?
            },
            None => {
                return Err(ImageError::InvalidData);
            },
        };
        Ok(Metadata { strings_stream, us_stream, blob_stream, guid_stream, table_stream })
    }

    /// Where the runtime header of the image lies, going by the headers `pe`.
    pub open spec fn spec_cli_header_pos(pe: &PE) -> int {
        spec_rva_to_file_offset(
            pe.image_section_headers@,
            pe.image_option_header.data_directory@[14].virtual_address,
            0,
        )
    }

    /// Where the metadata root of the image `s` lies, going by the headers `pe`.
    pub open spec fn spec_metadata_pos(pe: &PE, s: Seq<u8>) -> int {
        spec_rva_to_file_offset(
            pe.image_section_headers@,
            spec_u32_le(s, Metadata::spec_cli_header_pos(pe) + 8) as u32,
            0,
        )
    }

    /// Why the metadata root of the image `s` cannot be reached or read, going by
    /// the headers `pe`, if it cannot: the image names no runtime header or no
    /// metadata, the runtime header is cut short or too small, or the metadata
    /// root cannot be read.
    pub open spec fn spec_root_error(pe: &PE, s: Seq<u8>) -> Option<ImageError> {
        let cli = Metadata::spec_cli_header_pos(pe);
        if pe.image_option_header.data_directory@[14].virtual_address == 0 {
            Some(ImageError::InvalidData)
        } else if cli + 0x48 > s.len() {
            Some(ImageError::UnexpectedEof)
        } else if spec_u32_le(s, cli) < 0x48 {
            Some(ImageError::InvalidData)
        } else if spec_u32_le(s, cli + 8) == 0 {
            Some(ImageError::InvalidData)
        } else if Metadata::spec_metadata_pos(pe, s) > s.len() {
            Some(ImageError::UnexpectedEof)
        } else {
            super::metadata_header::spec_metadata_header_error(
                s,
                Metadata::spec_metadata_pos(pe, s),
            )
        }
    }

    /// True where `self` is the metadata of the image `s`, going by the headers
    /// `pe`: the metadata root can be read, and the heaps and the tables are those
    /// of the streams of its directory.
    pub open spec fn spec_read_from(&self, pe: &PE, s: Seq<u8>) -> bool {
        &&& self.spec_wf()
        &&& Metadata::spec_root_error(pe, s).is_none()
        &&& exists|headers: Seq<StreamHeader>|
            Metadata::spec_directory_at(headers, s, Metadata::spec_metadata_pos(pe, s))
                && #[trigger] self.spec_streams_from(
                s,
                Metadata::spec_metadata_pos(pe, s),
                headers,
            )
    }

    /// True where reading the metadata of the image `s` fails with `e`, going by
    /// the headers `pe`: `e` is the error of the metadata root, or else that of
    /// the streams of its directory.
    pub open spec fn spec_read_fails(pe: &PE, s: Seq<u8>, e: ImageError) -> bool {
        Metadata::spec_root_error(pe, s) == Some(e) || (Metadata::spec_root_error(
            pe,
            s,
        ).is_none() && exists|headers: Seq<StreamHeader>|
            Metadata::spec_directory_at(headers, s, Metadata::spec_metadata_pos(pe, s))
                && #[trigger] Metadata::spec_streams_error(
                s,
                Metadata::spec_metadata_pos(pe, s),
                headers,
            ) == Some(e))
    }

    /// Reads the metadata of the image that `reader` holds: the runtime header, the
    /// metadata root, then the heaps and the tables. It fails with the error of the
    /// metadata root, or else with that of the streams of its directory.
    pub fn new(pe: &PE, reader: &mut DataReader) -> (result: Result<Metadata, ImageError>)
        ensures
            final(reader).bytes() == old(reader).bytes(),
            match result {
                Ok(md) => md.spec_read_from(pe, old(reader).bytes()),
                Err(e) => Metadata::spec_read_fails(pe, old(reader).bytes(), e),
            },
    {
        let ghost s = reader.bytes();
        let dot_net_dir = pe.image_option_header.data_directory[CLI_DIRECTORY];
        if dot_net_dir.virtual_address == 0 {
            return Err(ImageError::InvalidData);
        }
        reader.set_position(pe.rva_to_file_offset(dot_net_dir.virtual_address))?;
        let cor20_header: ImageCor20Header = ImageCor20Header::new(reader)?;
        let md_rva: u32 = cor20_header.metadata.virtual_address;
        if md_rva == 0 {
            return Err(ImageError::InvalidData);
        }
        let base: usize = pe.rva_to_file_offset(md_rva);
        reader.set_position(base)?;
        let md_header: MetadataHeader = MetadataHeader::new(reader)?;
        assert(Metadata::spec_directory_at(md_header.stream_headers@, s, base as int));
        let md: Metadata = match Metadata::load_streams(reader, base, &md_header.stream_headers) {
            Ok(md) => md,
            Err(e) => {
                assert(Metadata::spec_streams_error(s, base as int, md_header.stream_headers@)
                    == Some(e));
                return Err(e);
            },
        };
        proof {
            assert(base == Metadata::spec_metadata_pos(pe, s));
            assert(Metadata::spec_directory_at(md_header.stream_headers@, s, base as int));
            assert(md.spec_streams_from(
                s,
                Metadata::spec_metadata_pos(pe, s),
                md_header.stream_headers@,
            ));
        }
        Ok(md)
    }

    /// True where `headers` is the stream directory of the metadata root at `pos`.
    pub open spec fn spec_directory_at(headers: Seq<StreamHeader>, s: Seq<u8>, pos: int) -> bool {
        let first = super::metadata_header::spec_stream_directory_start(s, pos);
        &&& super::metadata_header::spec_metadata_header_error(s, pos).is_none()
        &&& headers.len() == crate::interpreter::data_reader::spec_u16_le(s, first - 2)
        &&& forall|k: int|
            0 <= k < headers.len() ==> (#[trigger] headers[k]).spec_parsed_from(
                s,
                super::metadata_header::spec_stream_header_pos(s, first, k as nat).unwrap(),
            )
    }

    /// The run of rows of `dst_table` that row `src_rid` of `src_table` owns: it
    /// starts at the row number that column `col_index` holds for the row, and ends
    /// before the one that the column holds for the next row, or behind the last
    /// row of `dst_table` where there is no next row. The run is cut to the rows
    /// that `dst_table` has; it is empty where the column does not hold the row.
    pub open spec fn spec_rid_list(
        src_table: &MDTable,
        src_rid: u32,
        col_index: int,
        dst_table: &MDTable,
    ) -> (int, int) {
        let col = src_table.columns@[col_index];
        let readable = col.size == 2 || col.size == 4;
        let start = col.spec_cell(src_rid - 1);
        let has_next = src_rid < u32::MAX && readable && col.spec_check_rid((src_rid + 1) as u32);
        let next = col.spec_cell(src_rid as int);
        let last = dst_table.row_count + 1;
        let wanted = if !has_next || (next == 0 && src_rid + 1 == src_table.row_count
            && dst_table.row_count == 0xFFFF) {
            last
        } else {
            next
        };
        let end = if wanted < start {
            start
        } else if wanted > last {
            last
        } else {
            wanted
        };
        if !(readable && col.spec_check_rid(src_rid)) || start >= last {
            (0, 0)
        } else {
            (start, end - start)
        }
    }

    pub fn get_rid_list(src_table: &MDTable, src_rid: u32, col_index: i32, dst_table: &MDTable) -> (list:
        RidList)
        requires
            src_table.row_count > 0,
            src_rid > 0,
            0 <= col_index < src_table.columns@.len(),
            dst_table.row_count < u32::MAX,
        ensures
            list.rids.is_none(),
            list.start_rid == Metadata::spec_rid_list(
                src_table,
                src_rid,
                col_index as int,
                dst_table,
            ).0,
            list.count == Metadata::spec_rid_list(
                src_table,
                src_rid,
                col_index as int,
                dst_table,
            ).1,
            list.start_rid + list.count <= dst_table.row_count + 1,
    {
        let col = &src_table.columns[col_index as usize];
        let mut start_rid: u32 = 0;
        if !col.try_read_rid(src_rid, &mut start_rid) {
            return RidList::empty();
        }
        let mut next_list_rid: u32 = 0;
        let has_next: bool = src_rid < u32::MAX && col.try_read_rid(
            src_rid + 1,
            &mut next_list_rid,
        );
        let last_rid: u32 = dst_table.row_count + 1;
        if start_rid >= last_rid {
            return RidList::empty();
        }
        let mut end_rid: u32;
        if !has_next || (next_list_rid == 0 && src_rid + 1 == src_table.row_count
            && dst_table.row_count == 0xFFFF) {
            end_rid = last_rid;
        } else {
            end_rid = next_list_rid;
        }
        if end_rid < start_rid {
            end_rid = start_rid;
        }
        if end_rid > last_rid {
            end_rid = last_rid;
        }
        RidList::create(start_rid, end_rid - start_rid)
    }

    /// The parameters of method `src_rid`.
    pub fn get_param_rid_list(&self, src_rid: u32) -> (list: RidList)
        requires
            self.spec_wf(),
            src_rid > 0,
            self.table_stream.md_tables@[6].row_count > 0,
        ensures
            list.rids.is_none(),
            (list.start_rid as int, list.count as int) == Metadata::spec_rid_list(
                &self.table_stream.md_tables@[6],
                src_rid,
                5,
                &self.table_stream.md_tables@[8],
            ),
    {
        proof {
            super::table_kind::lemma_table_type_of_index(6);
            super::table_kind::lemma_table_type_of_index(8);
        }
        Metadata::get_rid_list(
            &self.table_stream.md_tables[6],
            src_rid,
            5,
            &self.table_stream.md_tables[8],
        )
    }

    /// The fields of type `src_rid`.
    pub fn get_field_rid_list(&self, src_rid: u32) -> (list: RidList)
        requires
            self.spec_wf(),
            src_rid > 0,
            self.table_stream.md_tables@[2].row_count > 0,
        ensures
            list.rids.is_none(),
            (list.start_rid as int, list.count as int) == Metadata::spec_rid_list(
                &self.table_stream.md_tables@[2],
                src_rid,
                4,
                &self.table_stream.md_tables@[4],
            ),
    {
        proof {
            super::table_kind::lemma_table_type_of_index(2);
            super::table_kind::lemma_table_type_of_index(4);
        }
        Metadata::get_rid_list(
            &self.table_stream.md_tables[2],
            src_rid,
            4,
            &self.table_stream.md_tables[4],
        )
    }

    /// The methods of type `src_rid`.
    pub fn get_method_rid_list(&self, src_rid: u32) -> (list: RidList)
        requires
            self.spec_wf(),
            src_rid > 0,
            self.table_stream.md_tables@[2].row_count > 0,
        ensures
            list.rids.is_none(),
            (list.start_rid as int, list.count as int) == Metadata::spec_rid_list(
                &self.table_stream.md_tables@[2],
                src_rid,
                5,
                &self.table_stream.md_tables@[6],
            ),
    {
        proof {
            super::table_kind::lemma_table_type_of_index(2);
            super::table_kind::lemma_table_type_of_index(6);
        }
        Metadata::get_rid_list(
            &self.table_stream.md_tables[2],
            src_rid,
            5,
            &self.table_stream.md_tables[6],
        )
    }

    /// The token that a coded `ResolutionScope` names.
    pub fn resolve_resolution_scope(&self, coded_token: u32) -> (token: Option<u32>)
        ensures
            token == spec_decode_kind(MDType::ResolutionScope, coded_token),
    {
        CodedToken::from_md_type(MDType::ResolutionScope).decode(coded_token)
    }

    /// The token that a coded `MemberRefParent` names.
    pub fn resolve_member_ref(&self, coded_token: u32) -> (token: Option<u32>)
        ensures
            token == spec_decode_kind(MDType::MemberRefParent, coded_token),
    {
        CodedToken::from_md_type(MDType::MemberRefParent).decode(coded_token)
    }

    /// The string that a user-string token names: the entry of the `#US` heap at
    /// the offset that the low twenty-four bits of the token give.
    pub fn get_us_string(&self, token: u32) -> (result: Result<String, ImageError>)
        ensures
            match result {
                Ok(s) => {
                    &&& super::blob_stream::spec_blob_error(
                        self.us_stream.bytes(),
                        super::md_token::spec_rid(token) as int,
                    ).is_none()
                    &&& s@ == (if super::md_token::spec_rid(token) == 0 {
                        Seq::<char>::empty()
                    } else {
                        super::us_stream::spec_utf16_lossy(
                            super::us_stream::spec_utf16_units(
                                super::blob_stream::spec_blob(
                                    self.us_stream.bytes(),
                                    super::md_token::spec_rid(token) as int,
                                ),
                            ),
                        )
                    })
                },
                Err(e) => super::blob_stream::spec_blob_error(
                    self.us_stream.bytes(),
                    super::md_token::spec_rid(token) as int,
                ) == Some(e),
            },
    {
        self.us_stream.read(super::md_token::MDToken::to_rid(token) as usize)
    }

    /// The table numbered `t`.
    pub open spec fn spec_table(&self, t: int) -> MDTable {
        self.table_stream.md_tables@[t]
    }

    /// The number of rows of the table numbered `t`.
    pub open spec fn spec_rows(&self, t: int) -> int {
        self.table_stream.md_tables@[t].row_count as int
    }

    /// The cell of row `row`, counted from zero, and column `col` of table `t`.
    pub open spec fn spec_cell(&self, t: int, col: int, row: int) -> u32 {
        self.table_stream.md_tables@[t].columns@[col].spec_cell(row) as u32
    }

    /// The string that the cell names in the `#Strings` heap, if it names one.
    pub open spec fn spec_cell_string(&self, t: int, col: int, row: int) -> Option<Seq<char>> {
        let offset = self.spec_cell(t, col, row);
        if offset == 0 || self.strings_stream.spec_has_string(offset as int) {
            Some(self.strings_stream.spec_string(offset as int))
        } else {
            None
        }
    }

    /// The number of rows of the table numbered `t`.
    pub fn row_count(&self, t: usize) -> (rows: u32)
        requires
            self.spec_wf(),
            t < 56,
        ensures
            rows == self.spec_rows(t as int),
            rows <= 0x00FF_FFFF,
    {
        self.table_stream.md_tables[t].row_count
    }

    /// The cell of row `row`, counted from zero, and column `col` of table `t`.
    pub fn cell(&self, t: usize, col: usize, row: u32) -> (value: u32)
        requires
            self.spec_wf(),
            t < 56,
            self.spec_table(t as int).spec_has_cell(col as int, row as int),
        ensures
            value == self.spec_cell(t as int, col as int, row as int),
            self.spec_table(t as int).columns@[col as int].size == 2 ==> value <= 0xFFFF,
            self.spec_table(t as int).columns@[col as int].size == 1 ==> value <= 0xFF,
    {
        self.table_stream.md_tables[t].cell(col, row)
    }

    /// The string that the cell names in the `#Strings` heap.
    pub fn cell_string(&self, t: usize, col: usize, row: u32) -> (result: Result<
        String,
        ImageError,
    >)
        requires
            self.spec_wf(),
            t < 56,
            self.spec_table(t as int).spec_has_cell(col as int, row as int),
        ensures
            match result {
                Ok(s) => self.spec_cell_string(t as int, col as int, row as int) == Some(s@),
                Err(e) => self.spec_cell_string(t as int, col as int, row as int).is_none() && e
                    == ImageError::UnexpectedEof,
            },
    {
        let offset: u32 = self.cell(t, col, row);
        self.strings_stream.get_string_clone(offset)
    }
}

/// Every cell of a row that a table has can be read, and its column has the kind of
/// the schema and a width that goes with the kind.
pub proof fn lemma_cells(md: &Metadata, t: MDTableType, row: int)
    requires
        md.spec_wf(),
        0 <= row < md.spec_rows(t.spec_code() as int),
    ensures
        0 <= t.spec_code() < 56,
        forall|c: int|
            0 <= c < super::table_schema::spec_schema(
                t,
                super::table_schema::spec_is_v1_1(
                    md.table_stream.major_version,
                    md.table_stream.minor_version,
                ),
            ).len() ==> {
                &&& #[trigger] md.spec_table(t.spec_code() as int).spec_has_cell(c, row)
                &&& md.spec_table(t.spec_code() as int).columns@[c].column_type
                    == super::table_schema::spec_schema(
                    t,
                    super::table_schema::spec_is_v1_1(
                        md.table_stream.major_version,
                        md.table_stream.minor_version,
                    ),
                )[c]
                &&& super::table_stream::spec_width_ok(
                    md.spec_table(t.spec_code() as int).columns@[c].column_type,
                    md.spec_table(t.spec_code() as int).columns@[c].size,
                )
            },
{
    super::table_kind::lemma_table_type_of_code(t);
    let table = md.spec_table(t.spec_code() as int);
    assert(table.spec_laid_out());
    assert(table.spec_loaded());
}

/// What decoding `coded_token` as a coded token of kind `kind` gives.
pub open spec fn spec_decode_kind(kind: MDType, coded_token: u32) -> Option<u32> {
    let span = super::md_token::spec_tag_span(super::coded_kind::spec_coded_bits(kind));
    let tables = super::coded_kind::spec_coded_tables(kind);
    let rid = coded_token as int / span;
    let index = coded_token as int % span;
    if rid > super::md_token::RID_MAX || index >= tables.len() {
        None
    } else {
        Some(super::md_token::spec_token(tables[index].spec_code(), rid as u32))
    }
}

} // verus!
