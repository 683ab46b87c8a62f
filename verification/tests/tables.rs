use il_runtime::error::ImageError;
use il_runtime::interpreter::data_reader::DataReader;
use il_runtime::interpreter::metadata::md_token::{CodedToken, MDToken};
use il_runtime::interpreter::metadata::rid_list::RidList;
use il_runtime::interpreter::metadata::root::Metadata;
use il_runtime::interpreter::metadata::table_kind::{MDTableType, MDType};
use il_runtime::interpreter::metadata::table_stream::{MDColumn, MDTable, TableStream};

fn column(kind: MDType, size: u8, data: Vec<u8>) -> MDColumn {
    let mut c = MDColumn::new(0, "Test", kind);
    c.size = size;
    c.data = data;
    c
}

#[test]
fn cells_are_little_endian() {
    let bytes = vec![0x01, 0x02, 0x03, 0x04, 0x05, 0x06, 0x07, 0x08];
    assert_eq!(column(MDType::Byte, 1, bytes.clone()).get_cell_u8(2), 0x03);
    assert_eq!(column(MDType::UInt16, 2, bytes.clone()).get_cell_u16(1), 0x0403);
    assert_eq!(column(MDType::UInt32, 4, bytes.clone()).get_cell_u32(1), 0x0807_0605);
    assert_eq!(column(MDType::UInt32, 8, bytes.clone()).get_cell_u64(0), 0x0807_0605_0403_0201);
    assert_eq!(column(MDType::Strings, 2, bytes.clone()).get_cell_u16_or_u32(3), 0x0807);
    assert_eq!(column(MDType::Strings, 4, bytes.clone()).get_cell_u16_or_u32(0), 0x0403_0201);
}

#[test]
fn a_row_number_is_read_where_the_column_holds_the_row() {
    let c = column(MDType::Param, 2, vec![5, 0, 9, 0]);
    let mut out = 77;
    assert!(c.check_rid(1));
    assert!(c.check_rid(2));
    assert!(!c.check_rid(3));
    assert!(!c.check_rid(0));
    assert!(c.try_read_rid(2, &mut out));
    assert_eq!(out, 9);
    assert!(!c.try_read_rid(3, &mut out));
    assert!(!c.try_read_rid(0, &mut out));
    assert_eq!(out, 9);
    let wide = column(MDType::Param, 4, vec![1, 0, 1, 0]);
    assert!(wide.try_read_rid(1, &mut out));
    assert_eq!(out, 0x0001_0001);
    let byte = column(MDType::Byte, 1, vec![1, 2]);
    assert!(!byte.try_read_rid(1, &mut out));
    assert_eq!(out, 0x0001_0001);
}

#[test]
fn column_widths() {
    let mut rows = [0u32; 64];
    let size = |kind: MDType, rows: &[u32]| TableStream::get_col_size(false, false, false, kind, rows);
    assert_eq!(size(MDType::Byte, &rows), 1);
    assert_eq!(size(MDType::Int16, &rows), 2);
    assert_eq!(size(MDType::UInt16, &rows), 2);
    assert_eq!(size(MDType::Int32, &rows), 4);
    assert_eq!(size(MDType::UInt32, &rows), 4);
    assert_eq!(size(MDType::Strings, &rows), 2);
    assert_eq!(size(MDType::GUID, &rows), 2);
    assert_eq!(size(MDType::Blob, &rows), 2);
    assert_eq!(TableStream::get_col_size(true, false, false, MDType::Strings, &rows), 4);
    assert_eq!(TableStream::get_col_size(true, false, false, MDType::GUID, &rows), 2);
    assert_eq!(TableStream::get_col_size(false, true, false, MDType::GUID, &rows), 4);
    assert_eq!(TableStream::get_col_size(false, false, true, MDType::Blob, &rows), 4);
    assert_eq!(TableStream::get_col_size(false, false, true, MDType::Strings, &rows), 2);
    // A row number is wide once its table has more than 0xFFFF rows.
    rows[MDTableType::Method.code() as usize] = 0xFFFF;
    assert_eq!(size(MDType::Method, &rows), 2);
    rows[MDTableType::Method.code() as usize] = 0x1_0000;
    assert_eq!(size(MDType::Method, &rows), 4);
    assert_eq!(size(MDType::Field, &rows), 2);
    // A coded token is wide once the largest candidate, shifted by the tag, passes 0xFFFF.
    assert_eq!(size(MDType::MethodDefOrRef, &rows), 4);
    rows[MDTableType::Method.code() as usize] = 0x7FFF;
    assert_eq!(size(MDType::MethodDefOrRef, &rows), 2);
    rows[MDTableType::MemberRef.code() as usize] = 0x8000;
    assert_eq!(size(MDType::MethodDefOrRef, &rows), 4);
    rows[MDTableType::TypeRef.code() as usize] = 0x3FFF;
    assert_eq!(size(MDType::TypeDefOrRef, &rows), 2);
    rows[MDTableType::TypeSpec.code() as usize] = 0x4000;
    assert_eq!(size(MDType::TypeDefOrRef, &rows), 4);
    assert_eq!(size(MDType::HasFieldMarshal, &rows), 2);
    // Tables that the counts do not reach count as empty.
    assert_eq!(size(MDType::Method, &rows[..3]), 2);
    assert_eq!(size(MDType::MethodDefOrRef, &rows[..3]), 2);
    rows[MDTableType::TypeDef.code() as usize] = 0x800;
    assert_eq!(size(MDType::HasCustomAttribute, &rows), 4);
}

#[test]
fn the_schema_has_all_tables() {
    let mut tables = Vec::new();
    assert_eq!(TableStream::create_tables(&mut tables, 2, 0), 56);
    assert_eq!(tables.len(), 56);
    for (i, t) in tables.iter().enumerate() {
        assert_eq!(t.table_type.code() as usize, i);
        assert_eq!(t.row_count, 0);
    }
    assert_eq!(tables[0].name, "Module");
    assert_eq!(tables[6].name, "Method");
    let method: Vec<(&str, MDType)> =
        tables[6].columns.iter().map(|c| (c.name, c.column_type)).collect();
    assert_eq!(
        method,
        vec![
            ("RVA", MDType::UInt32),
            ("ImplFlags", MDType::UInt16),
            ("Flags", MDType::UInt16),
            ("Name", MDType::Strings),
            ("Signature", MDType::Blob),
            ("ParamList", MDType::Param),
        ]
    );
    let type_def: Vec<MDType> = tables[2].columns.iter().map(|c| c.column_type).collect();
    assert_eq!(
        type_def,
        vec![
            MDType::UInt32,
            MDType::Strings,
            MDType::Strings,
            MDType::TypeDefOrRef,
            MDType::Field,
            MDType::Method,
        ]
    );
    assert_eq!(tables[0x20].columns.len(), 9);
    assert_eq!(tables[0x23].columns.len(), 9);
    assert_eq!(tables[0x27].columns[4].column_type, MDType::Implementation);
    assert_eq!(tables[0x2A].columns.len(), 4);
    assert_eq!(tables[0x2D].columns.len(), 0);
    assert_eq!(tables[0x37].columns[0].column_type, MDType::HasCustomDebugInformation);
    for (i, c) in tables[0x20].columns.iter().enumerate() {
        assert_eq!(c.index as usize, i);
    }
}

#[test]
fn the_schema_depends_on_the_version() {
    let mut first = Vec::new();
    assert_eq!(TableStream::create_tables(&mut first, 1, 0), 42);
    assert_eq!(first.len(), 56);
    assert_eq!(first[0x2A].columns.len(), 4);
    let mut second = Vec::new();
    assert_eq!(TableStream::create_tables(&mut second, 1, 1), 56);
    assert_eq!(second[0x2A].columns.len(), 5);
    assert_eq!(second[0x2A].columns[4].name, "Kind");
}

#[test]
fn rid_lists() {
    let run = RidList::create(5, 3);
    assert_eq!(run.len(), 3);
    assert_eq!(run.get(0), 5);
    assert_eq!(run.get(2), 7);
    assert_eq!(run.get(3), 0);
    let list = RidList::create_from_rids(vec![9, 4, 2]);
    assert_eq!(list.count, 3);
    assert_eq!(list.get(1), 4);
    assert_eq!(list.get(3), 0);
    assert_eq!(RidList::empty().get(0), 0);
    assert_eq!(RidList::empty().len(), 0);
    assert_eq!(RidList::create(u32::MAX, 2).get(1), 0);
}

fn table(kind: MDTableType, rows: u32, cells: Vec<u16>) -> MDTable {
    let mut data = Vec::new();
    for c in cells {
        data.extend_from_slice(&c.to_le_bytes());
    }
    let mut c = MDColumn::new(0, "List", MDType::Param);
    c.size = 2;
    c.data = data;
    let mut t = MDTable::new(kind, "Test", vec![c]);
    t.row_count = rows;
    t.row_size = 2;
    t
}

#[test]
fn a_rid_list_runs_to_the_start_of_the_next() {
    let parent = table(MDTableType::Method, 3, vec![1, 3, 3]);
    let child = table(MDTableType::Param, 6, vec![0; 6]);
    let first = Metadata::get_rid_list(&parent, 1, 0, &child);
    assert_eq!((first.start_rid, first.count), (1, 2));
    let second = Metadata::get_rid_list(&parent, 2, 0, &child);
    assert_eq!((second.start_rid, second.count), (3, 0));
    // The last parent row runs to the end of the child table.
    let third = Metadata::get_rid_list(&parent, 3, 0, &child);
    assert_eq!((third.start_rid, third.count), (3, 4));
    // A parent row that is not there, and a start beyond the child table, give nothing.
    let beyond = Metadata::get_rid_list(&parent, 4, 0, &child);
    assert_eq!((beyond.start_rid, beyond.count), (0, 0));
    let none = Metadata::get_rid_list(&table(MDTableType::Method, 1, vec![7]), 1, 0, &child);
    assert_eq!((none.start_rid, none.count), (0, 0));
    // A next start that lies before the start, or beyond the table, is cut.
    let cut = Metadata::get_rid_list(&table(MDTableType::Method, 2, vec![4, 2]), 1, 0, &child);
    assert_eq!((cut.start_rid, cut.count), (4, 0));
    let long = Metadata::get_rid_list(&table(MDTableType::Method, 2, vec![2, 90]), 1, 0, &child);
    assert_eq!((long.start_rid, long.count), (2, 5));
}

#[test]
fn a_table_reads_its_rows_column_by_column() {
    let mut reader = DataReader::new(vec![0xFF, 1, 2, 3, 4, 5, 6, 7, 8, 9, 0xEE]);
    let mut a = MDColumn::new(0, "A", MDType::Byte);
    a.size = 1;
    let mut b = MDColumn::new(1, "B", MDType::UInt16);
    b.size = 2;
    b.offset = 1;
    let mut t = MDTable::new(MDTableType::Constant, "T", vec![a, b]);
    t.row_count = 3;
    t.row_size = 3;
    t.position = 1;
    assert_eq!(t.read_all(&mut reader), Ok(()));
    assert_eq!(reader.get_position(), 10);
    assert_eq!(t.columns[0].data, vec![1, 4, 7]);
    assert_eq!(t.columns[1].data, vec![2, 3, 5, 6, 8, 9]);
    assert_eq!(t.cell(1, 2), 0x0908);
    assert_eq!(t.cell(0, 1), 4);
    t.row_count = 4;
    assert_eq!(t.read_all(&mut reader), Err(ImageError::UnexpectedEof));
    t.position = 0;
    assert_eq!(t.read_all(&mut reader), Ok(()));
    assert_eq!(t.columns[0].data, vec![1, 4, 7]);
}

fn module_stream(flags: u8, rows: u32, extra: bool) -> Vec<u8> {
    let mut s = Vec::new();
    s.extend_from_slice(&0u32.to_le_bytes());
    s.push(2);
    s.push(0);
    s.push(flags | if extra { 0x40 } else { 0 });
    s.push(1);
    s.extend_from_slice(&1u64.to_le_bytes());
    s.extend_from_slice(&0x16_0033_2502_1FA00u64.to_le_bytes());
    s.extend_from_slice(&rows.to_le_bytes());
    if extra {
        s.extend_from_slice(&0xDEAD_BEEFu32.to_le_bytes());
    }
    s
}

#[test]
fn a_table_stream_with_one_table() {
    let mut bytes = vec![0xCC; 3];
    bytes.extend_from_slice(&module_stream(0, 1, false));
    bytes.extend_from_slice(&[0x34, 0x12, 0x05, 0x00, 0x01, 0x00, 0x00, 0x00, 0x00, 0x00]);
    bytes.push(0xAB);
    let mut reader = DataReader::new(bytes);
    reader.set_position(3).unwrap();
    let stream = TableStream::new(&mut reader).unwrap();
    assert_eq!(stream.major_version, 2);
    assert_eq!(stream.minor_version, 0);
    assert_eq!(stream.flags, 0);
    assert_eq!(stream.log2_rid, 1);
    assert_eq!(stream.valid_mask, 1);
    assert_eq!(stream.extra_data, 0);
    assert_eq!(stream.md_tables.len(), 56);
    let module = &stream.md_tables[0];
    assert_eq!(module.row_count, 1);
    assert_eq!(module.row_size, 10);
    assert_eq!(module.position, 3 + 28);
    assert_eq!(module.columns[0].get_cell_u16(0), 0x1234);
    assert_eq!(module.columns[1].get_cell_u16_or_u32(0), 5);
    assert_eq!(module.columns[2].offset, 4);
    assert_eq!(stream.md_tables[1].row_count, 0);
    assert_eq!(stream.md_tables[1].position, 3 + 38);
    assert_eq!(stream.md_tables_pos, 3 + 38);
    assert_eq!(reader.get_position(), 3 + 38);
}

#[test]
fn big_heaps_and_extra_data() {
    let mut bytes = module_stream(0x01 | 0x02, 1, true);
    // Generation, a name of four bytes, three GUID indices of four bytes.
    bytes.extend_from_slice(&[0; 18]);
    let mut reader = DataReader::new(bytes);
    let stream = TableStream::new(&mut reader).unwrap();
    assert_eq!(stream.flags, 0x43);
    assert_eq!(stream.extra_data, 0xDEAD_BEEF);
    assert_eq!(stream.md_tables[0].row_size, 18);
    let sizes: Vec<u8> = stream.md_tables[0].columns.iter().map(|c| c.size).collect();
    assert_eq!(sizes, vec![2, 4, 4, 4, 4]);
    assert_eq!(stream.md_tables[0].position, 32);
}

#[test]
fn a_table_stream_that_is_cut_off_is_an_error() {
    let full = {
        let mut b = module_stream(0, 2, false);
        b.extend_from_slice(&[0; 20]);
        b
    };
    for len in [0, 10, 24, 27, 28, 47] {
        let mut reader = DataReader::new(full[..len].to_vec());
        assert!(
            matches!(TableStream::new(&mut reader), Err(ImageError::UnexpectedEof)),
            "length {}",
            len
        );
    }
    let mut reader = DataReader::new(full);
    assert!(TableStream::new(&mut reader).is_ok());
}

#[test]
fn row_counts_are_cut_to_twenty_four_bits() {
    let mut bytes = module_stream(0, 0xFF00_0000, false);
    bytes.extend_from_slice(&[0; 4]);
    let mut reader = DataReader::new(bytes);
    let stream = TableStream::new(&mut reader).unwrap();
    assert_eq!(stream.md_tables[0].row_count, 0);
}

#[test]
fn tokens_round_trip() {
    for (table, rid) in [
        (MDTableType::TypeRef, 1u32),
        (MDTableType::Method, 0x00FF_FFFF),
        (MDTableType::Module, 0),
        (MDTableType::CustomDebugInformation, 42),
    ] {
        let token = MDToken::new(table, rid).token;
        assert_eq!(MDToken::to_rid(token), rid);
        assert_eq!(MDToken::to_table_type(token), table.code() as u32);
        assert_eq!(MDToken::to_table(token).map(|t| t.code()), Some(table.code()));
    }
    assert_eq!(MDToken::to_table(0x2E00_0001), None);
    assert_eq!(MDToken::to_table(0x7000_0001), None);
}

#[test]
fn coded_tokens_round_trip_for_every_kind() {
    let kinds = [
        MDType::TypeDefOrRef,
        MDType::HasConstant,
        MDType::HasCustomAttribute,
        MDType::HasFieldMarshal,
        MDType::HasDeclSecurity,
        MDType::MemberRefParent,
        MDType::HasSemantic,
        MDType::MethodDefOrRef,
        MDType::MemberForwarded,
        MDType::Implementation,
        MDType::CustomAttributeType,
        MDType::ResolutionScope,
        MDType::TypeOrMethodDef,
        MDType::HasCustomDebugInformation,
    ];
    for kind in kinds {
        assert!(kind.is_coded_token());
        let coded = CodedToken::from_md_type(kind);
        assert_eq!(coded.mask, (1 << coded.bits) - 1);
        assert!(coded.table_types.len() <= 1 << coded.bits);
        for table in coded.table_types.iter() {
            for rid in [0u32, 1, 77, 0x00FF_FFFF] {
                let token = MDToken::new(*table, rid).token;
                let encoded = coded.encode(token).unwrap();
                assert_eq!(coded.decode(encoded), Some(token));
                assert_eq!(coded.decode_as_md_table_type(encoded), Some(*table));
            }
        }
    }
    let scope = CodedToken::from_md_type(MDType::ResolutionScope);
    assert_eq!(scope.decode((3 << 2) | 2), Some(0x2300_0003));
    let implementation = CodedToken::from_md_type(MDType::Implementation);
    assert_eq!(implementation.decode((9 << 2) | 3), None);
    assert_eq!(implementation.decode_as_md_table_type((9 << 2) | 3), None);
    assert_eq!(implementation.decode((9 << 2) | 1), Some(0x2300_0009));
    let parent = CodedToken::from_md_type(MDType::MemberRefParent);
    assert_eq!(parent.decode(u32::MAX), None);
    assert_eq!(parent.decode(0x0FFF_FFFF), None);
}

#[test]
fn kinds_have_the_numbers_of_the_format() {
    assert_eq!(MDTableType::from_u8(0x2B), Some(MDTableType::MethodSpec));
    assert_eq!(MDTableType::from_u8(0x37), Some(MDTableType::CustomDebugInformation));
    assert_eq!(MDTableType::from_u8(0x38), None);
    assert_eq!(MDType::from_u32(0x40), Some(MDType::Byte));
    assert_eq!(MDType::from_u32(0x47), Some(MDType::Blob));
    assert_eq!(MDType::from_u32(0x55), Some(MDType::HasCustomDebugInformation));
    assert_eq!(MDType::from_u32(0x2D), None);
    assert_eq!(MDType::from_u32(0x56), None);
    assert_eq!(MDType::from_u32(0x30), Some(MDType::Document));
    assert!(MDType::Method.is_rid());
    assert!(!MDType::Byte.is_rid());
    assert!(!MDType::Blob.is_coded_token());
}
