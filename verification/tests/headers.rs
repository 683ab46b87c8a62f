use il_runtime::error::ImageError;
use il_runtime::interpreter::data_reader::DataReader;
use il_runtime::interpreter::metadata::image_cor20_header::ImageCor20Header;
use il_runtime::interpreter::metadata::image_data_directory::ImageDataDirectory;
use il_runtime::interpreter::metadata::image_option_header::ImageOptionHeader;
use il_runtime::interpreter::metadata::image_section_header::ImageSectionHeader;
use il_runtime::interpreter::metadata::metadata_header::{MetadataHeader, StreamHeader};
use il_runtime::interpreter::metadata::pe::PE;

fn put16(out: &mut Vec<u8>, v: u16) {
    out.extend_from_slice(&v.to_le_bytes());
}

fn put32(out: &mut Vec<u8>, v: u32) {
    out.extend_from_slice(&v.to_le_bytes());
}

fn put64(out: &mut Vec<u8>, v: u64) {
    out.extend_from_slice(&v.to_le_bytes());
}

fn option_header(wide: bool, directories: u32) -> Vec<u8> {
    let mut h = Vec::new();
    put16(&mut h, if wide { 0x020B } else { 0x010B });
    h.push(11);
    h.push(2);
    put32(&mut h, 0x1000);
    put32(&mut h, 0x2000);
    put32(&mut h, 0x3000);
    put32(&mut h, 0x4000);
    put32(&mut h, 0x5000);
    if wide {
        put64(&mut h, 0x1_4000_0000);
    } else {
        put32(&mut h, 0x6000);
        put32(&mut h, 0x0040_0000);
    }
    put32(&mut h, 0x2000);
    put32(&mut h, 0x200);
    put16(&mut h, 4);
    put16(&mut h, 1);
    put16(&mut h, 2);
    put16(&mut h, 3);
    put16(&mut h, 6);
    put16(&mut h, 5);
    put32(&mut h, 7);
    put32(&mut h, 0x8000);
    put32(&mut h, 0x400);
    put32(&mut h, 0xABCD);
    put16(&mut h, 3);
    put16(&mut h, 0x8540);
    if wide {
        put64(&mut h, 0x10_0000_0001);
        put64(&mut h, 0x1000);
        put64(&mut h, 0x20_0000_0002);
        put64(&mut h, 0x2000);
    } else {
        put32(&mut h, 0x10_0000);
        put32(&mut h, 0x1000);
        put32(&mut h, 0x20_0000);
        put32(&mut h, 0x2000);
    }
    put32(&mut h, 9);
    put32(&mut h, directories);
    for i in 0..directories {
        put32(&mut h, 0x100 * (i + 1));
        put32(&mut h, i + 1);
    }
    h
}

fn section(name: &[u8; 8], virtual_address: u32, virtual_size: u32, raw: u32) -> Vec<u8> {
    let mut s = Vec::new();
    s.extend_from_slice(name);
    put32(&mut s, virtual_size);
    put32(&mut s, virtual_address);
    put32(&mut s, 0x200);
    put32(&mut s, raw);
    put32(&mut s, 0x11);
    put32(&mut s, 0x22);
    put16(&mut s, 0x33);
    put16(&mut s, 0x44);
    put32(&mut s, 0x6000_0020);
    s
}

fn image(wide: bool, declared: u16, sections: &[Vec<u8>]) -> Vec<u8> {
    let mut out = vec![0u8; 0x80];
    out[0] = 0x4D;
    out[1] = 0x5A;
    out[0x3C] = 0x80;
    put32(&mut out, 0x0000_4550);
    put16(&mut out, 0x014C);
    put16(&mut out, declared);
    put32(&mut out, 0x5555_AAAA);
    put32(&mut out, 0x10);
    put32(&mut out, 0x20);
    let optional = option_header(wide, 16);
    put16(&mut out, optional.len() as u16);
    put16(&mut out, 0x0102);
    out.extend_from_slice(&optional);
    for s in sections {
        out.extend_from_slice(s);
    }
    out.resize(0x400, 0);
    out
}

#[test]
fn a_data_directory() {
    let mut reader = DataReader::new(vec![0x00, 0x20, 0x00, 0x00, 0x48, 0x00, 0x00, 0x00, 0xFF]);
    let d = ImageDataDirectory::new(&mut reader).unwrap();
    assert_eq!(d, ImageDataDirectory { virtual_address: 0x2000, size: 0x48 });
    assert_eq!(reader.get_position(), 8);
    assert_eq!(ImageDataDirectory::new(&mut reader).unwrap_err(), ImageError::UnexpectedEof);
    assert_eq!(ImageDataDirectory::zero(), ImageDataDirectory { virtual_address: 0, size: 0 });
}

#[test]
fn a_section_header() {
    let bytes = section(b".text\0\0\0", 0x2000, 0x1234, 0x400);
    let mut reader = DataReader::new(bytes.clone());
    let s = ImageSectionHeader::new(&mut reader).unwrap();
    assert_eq!(reader.get_position(), 40);
    assert_eq!(&s.name, b".text\0\0\0");
    assert_eq!(s.virtual_size, 0x1234);
    assert_eq!(s.virtual_address, 0x2000);
    assert_eq!(s.size_of_raw_data, 0x200);
    assert_eq!(s.pointer_to_raw_data, 0x400);
    assert_eq!(s.pointer_to_relocations, 0x11);
    assert_eq!(s.pointer_to_line_numbers, 0x22);
    assert_eq!(s.number_of_relocations, 0x33);
    assert_eq!(s.number_of_line_numbers, 0x44);
    assert_eq!(s.characteristics, 0x6000_0020);
    let mut short = DataReader::new(bytes[..39].to_vec());
    assert_eq!(ImageSectionHeader::new(&mut short).unwrap_err(), ImageError::UnexpectedEof);
}

#[test]
fn the_runtime_header() {
    let mut bytes = Vec::new();
    put32(&mut bytes, 0x48);
    put16(&mut bytes, 2);
    put16(&mut bytes, 5);
    put32(&mut bytes, 0x2100);
    put32(&mut bytes, 0x800);
    put32(&mut bytes, 1);
    put32(&mut bytes, 0x0600_0001);
    for i in 0..6u32 {
        put32(&mut bytes, 0x10 + i);
        put32(&mut bytes, 0x20 + i);
    }
    assert_eq!(bytes.len(), 0x48);
    let mut reader = DataReader::new(bytes.clone());
    let h = ImageCor20Header::new(&mut reader).unwrap();
    assert_eq!(reader.get_position(), 0x48);
    assert_eq!(h.cb, 0x48);
    assert_eq!(h.major_runtime_version, 2);
    assert_eq!(h.minor_runtime_version, 5);
    assert_eq!(h.metadata, ImageDataDirectory { virtual_address: 0x2100, size: 0x800 });
    assert_eq!(h.flags, 1);
    assert_eq!(h.entry_point_token, 0x0600_0001);
    assert_eq!(h.resources, ImageDataDirectory { virtual_address: 0x10, size: 0x20 });
    assert_eq!(h.strong_name_signature, ImageDataDirectory { virtual_address: 0x11, size: 0x21 });
    assert_eq!(h.code_manager_table, ImageDataDirectory { virtual_address: 0x12, size: 0x22 });
    assert_eq!(h.vtable_fixups, ImageDataDirectory { virtual_address: 0x13, size: 0x23 });
    assert_eq!(
        h.export_address_table_jumps,
        ImageDataDirectory { virtual_address: 0x14, size: 0x24 }
    );
    assert_eq!(h.managed_native_header, ImageDataDirectory { virtual_address: 0x15, size: 0x25 });

    let mut small = bytes.clone();
    small[0] = 0x47;
    let mut reader = DataReader::new(small);
    assert_eq!(ImageCor20Header::new(&mut reader).unwrap_err(), ImageError::InvalidData);
    assert_eq!(reader.get_position(), 0);
    let mut reader = DataReader::new(bytes[..0x47].to_vec());
    assert_eq!(ImageCor20Header::new(&mut reader).unwrap_err(), ImageError::UnexpectedEof);
    assert_eq!(reader.get_position(), 0);
}

#[test]
fn the_optional_header_in_its_narrow_form() {
    let bytes = option_header(false, 16);
    assert_eq!(bytes.len(), 0x60 + 16 * 8);
    let mut reader = DataReader::new(bytes.clone());
    let h = ImageOptionHeader::new(&mut reader, bytes.len() as u32).unwrap();
    assert_eq!(reader.get_position(), bytes.len());
    assert_eq!(h.start_offset, 0);
    assert_eq!(h.magic, 0x010B);
    assert_eq!(h.major_linker_version, 11);
    assert_eq!(h.minor_linker_version, 2);
    assert_eq!(h.size_of_code, 0x1000);
    assert_eq!(h.size_of_initialized_data, 0x2000);
    assert_eq!(h.size_of_uninitialized_data, 0x3000);
    assert_eq!(h.address_of_entry_point, 0x4000);
    assert_eq!(h.base_of_code, 0x5000);
    assert_eq!(h.base_of_data, 0x6000);
    assert_eq!(h.image_base, 0x0040_0000);
    assert_eq!(h.section_alignment, 0x2000);
    assert_eq!(h.file_alignment, 0x200);
    assert_eq!(h.major_operating_system_version, 4);
    assert_eq!(h.minor_operating_system_version, 1);
    assert_eq!(h.major_image_version, 2);
    assert_eq!(h.minor_image_version, 3);
    assert_eq!(h.major_subsystem_version, 6);
    assert_eq!(h.minor_subsystem_version, 5);
    assert_eq!(h.win32_version_value, 7);
    assert_eq!(h.size_of_image, 0x8000);
    assert_eq!(h.size_of_headers, 0x400);
    assert_eq!(h.check_sum, 0xABCD);
    assert_eq!(h.subsystem, 3);
    assert_eq!(h.dll_characteristics, 0x8540);
    assert_eq!(h.size_of_stack_reserve, 0x10_0000);
    assert_eq!(h.size_of_stack_commit, 0x1000);
    assert_eq!(h.size_of_heap_reserve, 0x20_0000);
    assert_eq!(h.size_of_heap_commit, 0x2000);
    assert_eq!(h.loader_flags, 9);
    assert_eq!(h.number_of_rva_and_sizes, 16);
    for i in 0..16u32 {
        assert_eq!(
            h.data_directory[i as usize],
            ImageDataDirectory { virtual_address: 0x100 * (i + 1), size: i + 1 }
        );
    }
}

#[test]
fn the_optional_header_in_its_wide_form() {
    let bytes = option_header(true, 16);
    assert_eq!(bytes.len(), 0x70 + 16 * 8);
    let mut data = vec![0xEEu8; 3];
    data.extend_from_slice(&bytes);
    let mut reader = DataReader::new(data);
    reader.set_position(3).unwrap();
    let h = ImageOptionHeader::new(&mut reader, bytes.len() as u32).unwrap();
    assert_eq!(reader.get_position(), 3 + bytes.len());
    assert_eq!(h.start_offset, 3);
    assert_eq!(h.magic, 0x020B);
    assert_eq!(h.base_of_code, 0x5000);
    assert_eq!(h.base_of_data, 0);
    assert_eq!(h.image_base, 0x1_4000_0000);
    assert_eq!(h.section_alignment, 0x2000);
    assert_eq!(h.dll_characteristics, 0x8540);
    assert_eq!(h.size_of_stack_reserve, 0x10_0000_0001);
    assert_eq!(h.size_of_stack_commit, 0x1000);
    assert_eq!(h.size_of_heap_reserve, 0x20_0000_0002);
    assert_eq!(h.size_of_heap_commit, 0x2000);
    assert_eq!(h.loader_flags, 9);
    assert_eq!(h.number_of_rva_and_sizes, 16);
    assert_eq!(h.data_directory[14], ImageDataDirectory { virtual_address: 0xF00, size: 15 });
}

#[test]
fn an_optional_header_with_fewer_directories() {
    let bytes = option_header(false, 16);
    let mut reader = DataReader::new(bytes.clone());
    let h = ImageOptionHeader::new(&mut reader, 0x60 + 2 * 8 + 7).unwrap();
    assert_eq!(reader.get_position(), 0x60 + 16);
    assert_eq!(h.data_directory[0], ImageDataDirectory { virtual_address: 0x100, size: 1 });
    assert_eq!(h.data_directory[1], ImageDataDirectory { virtual_address: 0x200, size: 2 });
    for i in 2..16 {
        assert_eq!(h.data_directory[i], ImageDataDirectory::zero());
    }
    let mut reader = DataReader::new(bytes.clone());
    let h = ImageOptionHeader::new(&mut reader, 0x60).unwrap();
    assert_eq!(reader.get_position(), 0x60);
    assert_eq!(h.data_directory[0], ImageDataDirectory::zero());
    let mut long = bytes.clone();
    long.resize(0x400, 0x77);
    let mut reader = DataReader::new(long);
    let h = ImageOptionHeader::new(&mut reader, 0x300).unwrap();
    assert_eq!(reader.get_position(), 0x60 + 16 * 8);
    assert_eq!(h.data_directory[15], ImageDataDirectory { virtual_address: 0x1000, size: 16 });
}

#[test]
fn optional_headers_that_cannot_be_read() {
    let bytes = option_header(false, 16);
    let total = bytes.len() as u32;
    let read = |data: Vec<u8>, total: u32| {
        let mut reader = DataReader::new(data);
        ImageOptionHeader::new(&mut reader, total).map(|_| ()).unwrap_err()
    };
    assert_eq!(read(vec![], total), ImageError::UnexpectedEof);
    assert_eq!(read(vec![0x0B], total), ImageError::UnexpectedEof);
    let mut other = bytes.clone();
    other[0] = 0x07;
    assert_eq!(read(other, total), ImageError::InvalidData);
    assert_eq!(read(bytes.clone(), 0x5F), ImageError::InvalidData);
    assert_eq!(read(bytes.clone(), 0), ImageError::InvalidData);
    assert_eq!(read(option_header(true, 16), 0x6F), ImageError::InvalidData);
    assert_eq!(read(bytes[..bytes.len() - 1].to_vec(), total), ImageError::UnexpectedEof);
    assert_eq!(read(bytes[..0x50].to_vec(), 0x60), ImageError::UnexpectedEof);
}

#[test]
fn a_stream_header() {
    let mut bytes = Vec::new();
    put32(&mut bytes, 0x6C);
    put32(&mut bytes, 0x1234);
    bytes.extend_from_slice(b"#~\0\0");
    put32(&mut bytes, 0x12A0);
    put32(&mut bytes, 0x800);
    bytes.extend_from_slice(b"#Strings\0\0\0\0");
    put32(&mut bytes, 1);
    put32(&mut bytes, 2);
    bytes.extend_from_slice(b"#US\0");
    let mut reader = DataReader::new(bytes);
    let a = StreamHeader::new(&mut reader).unwrap();
    assert_eq!((a.offset, a.size, a.name.as_str()), (0x6C, 0x1234, "#~"));
    assert_eq!(reader.get_position(), 12);
    let b = StreamHeader::new(&mut reader).unwrap();
    assert_eq!((b.offset, b.size, b.name.as_str()), (0x12A0, 0x800, "#Strings"));
    assert_eq!(reader.get_position(), 32);
    let c = StreamHeader::new(&mut reader).unwrap();
    assert_eq!((c.offset, c.size, c.name.as_str()), (1, 2, "#US"));
    assert_eq!(reader.get_position(), 44);
    assert_eq!(StreamHeader::new(&mut reader).unwrap_err(), ImageError::UnexpectedEof);
}

#[test]
fn the_name_of_a_stream_is_bounded() {
    let mut bytes = Vec::new();
    put32(&mut bytes, 1);
    put32(&mut bytes, 2);
    bytes.extend_from_slice(&[b'x'; 40]);
    let mut reader = DataReader::new(bytes);
    let h = StreamHeader::new(&mut reader).unwrap();
    assert_eq!(h.name, "x".repeat(32));
    assert_eq!(reader.get_position(), 40);

    let mut open = Vec::new();
    put32(&mut open, 1);
    put32(&mut open, 2);
    open.extend_from_slice(b"#Blob");
    let mut reader = DataReader::new(open);
    assert_eq!(StreamHeader::new(&mut reader).unwrap_err(), ImageError::UnexpectedEof);

    let mut unpadded = Vec::new();
    put32(&mut unpadded, 1);
    put32(&mut unpadded, 2);
    unpadded.extend_from_slice(b"#Blob\0");
    let mut reader = DataReader::new(unpadded);
    assert_eq!(StreamHeader::new(&mut reader).unwrap_err(), ImageError::UnexpectedEof);
}

fn metadata_root(streams: u16) -> Vec<u8> {
    let mut bytes = Vec::new();
    put32(&mut bytes, 0x424A_5342);
    put16(&mut bytes, 1);
    put16(&mut bytes, 1);
    put32(&mut bytes, 0);
    put32(&mut bytes, 12);
    bytes.extend_from_slice(b"v4.0.30319\0\0");
    bytes.push(0);
    bytes.push(0);
    put16(&mut bytes, streams);
    put32(&mut bytes, 0x6C);
    put32(&mut bytes, 0x100);
    bytes.extend_from_slice(b"#~\0\0");
    put32(&mut bytes, 0x16C);
    put32(&mut bytes, 0x80);
    bytes.extend_from_slice(b"#Strings\0\0\0\0");
    bytes
}

#[test]
fn the_metadata_root() {
    let mut reader = DataReader::new(metadata_root(2));
    let h = MetadataHeader::new(&mut reader).unwrap();
    assert_eq!(h.major_version, 1);
    assert_eq!(h.minor_version, 1);
    assert_eq!(h.reserved1, 0);
    assert_eq!(h.string_length, 12);
    assert_eq!(h.version_string, "v4.0.30319");
    assert_eq!(h.offset_2nd_part, 28);
    assert_eq!(h.flags, 0);
    assert_eq!(h.reserved2, 0);
    assert_eq!(h.streams, 2);
    assert_eq!(h.stream_headers.len(), 2);
    assert_eq!(h.stream_headers[0].name, "#~");
    assert_eq!(h.stream_headers[0].offset, 0x6C);
    assert_eq!(h.stream_headers[0].size, 0x100);
    assert_eq!(h.stream_headers[1].name, "#Strings");
    assert_eq!(h.stream_headers[1].offset, 0x16C);
    assert_eq!(h.stream_headers[1].size, 0x80);

    let mut reader = DataReader::new(metadata_root(0));
    let h = MetadataHeader::new(&mut reader).unwrap();
    assert!(h.stream_headers.is_empty());
}

#[test]
fn metadata_roots_that_cannot_be_read() {
    let read = |data: Vec<u8>| {
        let mut reader = DataReader::new(data);
        MetadataHeader::new(&mut reader).map(|_| ()).unwrap_err()
    };
    let good = metadata_root(2);
    assert_eq!(read(vec![0x42, 0x53, 0x4A]), ImageError::UnexpectedEof);
    let mut other = good.clone();
    other[3] = 0x43;
    assert_eq!(read(other), ImageError::InvalidData);
    assert_eq!(read(good[..15].to_vec()), ImageError::UnexpectedEof);
    assert_eq!(read(good[..30].to_vec()), ImageError::UnexpectedEof);
    assert_eq!(read(good[..good.len() - 1].to_vec()), ImageError::UnexpectedEof);
    assert_eq!(read(metadata_root(3)), ImageError::UnexpectedEof);
}

#[test]
fn the_headers_of_an_image() {
    let table = 0x80 + 24 + 0xE0;
    let sections = [
        section(b".text\0\0\0", 0x2000, 0x1000, 0x200),
        section(b".rsrc\0\0\0", 0x4000, 0x800, 0x1200),
    ];
    let bytes = image(false, 2, &sections);
    let mut reader = DataReader::new(bytes);
    let pe = PE::new(&mut reader).unwrap();
    assert_eq!(pe.nt_headers_offset, 0x80);
    assert_eq!(pe.machine, 0x014C);
    assert_eq!(pe.num_of_sections, 2);
    assert_eq!(pe.timestamp, 0x5555_AAAA);
    assert_eq!(pe.pointer_to_symbol_table, 0x10);
    assert_eq!(pe.num_of_symbols, 0x20);
    assert_eq!(pe.size_of_optional_header, 0xE0);
    assert_eq!(pe.characteristics, 0x0102);
    assert_eq!(pe.image_option_header.start_offset, 0x80 + 24);
    assert_eq!(pe.image_option_header.magic, 0x010B);
    assert_eq!(
        pe.image_option_header.data_directory[14],
        ImageDataDirectory { virtual_address: 0xF00, size: 15 }
    );
    assert_eq!(pe.image_section_headers.len(), 2);
    assert_eq!(&pe.image_section_headers[0].name, b".text\0\0\0");
    assert_eq!(pe.image_section_headers[1].virtual_address, 0x4000);
    assert_eq!(pe.image_section_headers[1].pointer_to_raw_data, 0x1200);
    assert!(table + 80 <= 0x200);

    assert_eq!(pe.rva_to_file_offset(0x2000), 0x200);
    assert_eq!(pe.rva_to_file_offset(0x2ABC), 0xCBC);
    assert_eq!(pe.rva_to_file_offset(0x2FFF), 0x11FF);
    assert_eq!(pe.rva_to_file_offset(0x3000), 0x3000);
    assert_eq!(pe.rva_to_file_offset(0x4010), 0x1210);
    assert_eq!(pe.rva_to_file_offset(0x47FF), 0x19FF);
    assert_eq!(pe.rva_to_file_offset(0x4800), 0x4800);
    assert_eq!(pe.rva_to_file_offset(0x1FFF), 0x1FFF);
    assert_eq!(pe.rva_to_file_offset(0), 0);
}

#[test]
fn the_headers_of_a_wide_image() {
    let sections = [section(b".text\0\0\0", 0x2000, 0x1000, 0x400)];
    let mut reader = DataReader::new(image(true, 1, &sections));
    let pe = PE::new(&mut reader).unwrap();
    assert_eq!(pe.size_of_optional_header, 0xF0);
    assert_eq!(pe.image_option_header.magic, 0x020B);
    assert_eq!(pe.image_option_header.image_base, 0x1_4000_0000);
    assert_eq!(pe.num_of_sections, 1);
    assert_eq!(pe.rva_to_file_offset(0x2008), 0x408);
}

#[test]
fn no_more_sections_than_fit_before_the_first_section_s_data() {
    let table = 0x80 + 24 + 0xE0;
    let first_raw = (table + 0x18 + 0x28) as u32;
    let sections = [
        section(b".text\0\0\0", 0x2000, 0x1000, first_raw),
        section(b".rsrc\0\0\0", 0x4000, 0x800, 0x300),
        section(b".reloc\0\0", 0x6000, 0x800, 0x380),
    ];
    let mut reader = DataReader::new(image(false, 3, &sections));
    let pe = PE::new(&mut reader).unwrap();
    assert_eq!(pe.num_of_sections, 1);
    assert_eq!(pe.image_section_headers.len(), 1);

    let sections = [section(b".text\0\0\0", 0x2000, 0x1000, 0)];
    let mut reader = DataReader::new(image(false, 1, &sections));
    let pe = PE::new(&mut reader).unwrap();
    assert_eq!(pe.num_of_sections, 0);
    assert!(pe.image_section_headers.is_empty());
    assert_eq!(pe.rva_to_file_offset(0x2000), 0x2000);

    let mut reader = DataReader::new(image(false, 0, &[]));
    let pe = PE::new(&mut reader).unwrap();
    assert_eq!(pe.num_of_sections, 0);
}

#[test]
fn images_whose_headers_cannot_be_read() {
    let read = |data: Vec<u8>| {
        let mut reader = DataReader::new(data);
        PE::new(&mut reader).map(|_| ()).unwrap_err()
    };
    let sections = [section(b".text\0\0\0", 0x2000, 0x1000, 0x200)];
    let good = image(false, 1, &sections);
    assert_eq!(read(vec![]), ImageError::UnexpectedEof);
    assert_eq!(read(vec![0x4D]), ImageError::UnexpectedEof);
    assert_eq!(read(vec![0x5A, 0x4D, 0, 0]), ImageError::InvalidData);
    assert_eq!(read(good[..0x3F].to_vec()), ImageError::UnexpectedEof);
    assert_eq!(read(good[..0x82].to_vec()), ImageError::UnexpectedEof);
    let mut other = good.clone();
    other[0x80] = 0x4E;
    assert_eq!(read(other), ImageError::InvalidData);
    assert_eq!(read(good[..0x80 + 23].to_vec()), ImageError::UnexpectedEof);
    let mut none = good.clone();
    none[0x80 + 20] = 0;
    none[0x80 + 21] = 0;
    assert_eq!(read(none), ImageError::InvalidData);
    let mut magic = good.clone();
    magic[0x80 + 24] = 0;
    assert_eq!(read(magic), ImageError::InvalidData);
    assert_eq!(read(good[..0x80 + 24 + 0xDF].to_vec()), ImageError::UnexpectedEof);
    assert_eq!(read(good[..0x80 + 24 + 0xE0 + 0x17].to_vec()), ImageError::UnexpectedEof);
    assert_eq!(read(good[..0x80 + 24 + 0xE0 + 0x27].to_vec()), ImageError::UnexpectedEof);
    let mut far = good.clone();
    far[0x3C..0x40].copy_from_slice(&0xFFFF_FFF0u32.to_le_bytes());
    assert_eq!(read(far), ImageError::UnexpectedEof);
}

#[test]
fn each_error_has_its_description() {
    assert_eq!(ImageError::UnexpectedEof.message(), "unexpected end of image");
    assert_eq!(ImageError::InvalidData.message(), "invalid data in image");
    assert_eq!(ImageError::Other.message(), "unsupported or missing item");
}
