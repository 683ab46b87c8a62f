use il_runtime::error::ImageError;
use il_runtime::interpreter::data_reader::DataReader;
use il_runtime::interpreter::metadata::blob_stream::BlobStream;
use il_runtime::interpreter::metadata::compressed_stream::CompressedStream;
use il_runtime::interpreter::metadata::guid_stream::GuidStream;
use il_runtime::interpreter::metadata::strings_stream::StringsStream;
use il_runtime::interpreter::metadata::us_stream::USStream;

#[test]
fn strings_are_found_by_offset() {
    let mut reader = DataReader::new(b"xx\0Main\0System\0tail".to_vec());
    reader.set_position(2).unwrap();
    let stream = StringsStream::new(&mut reader, 13).unwrap();
    assert_eq!(reader.get_position(), 15);
    assert_eq!(stream.get_string_clone(0), Ok(String::new()));
    assert_eq!(stream.get_string_clone(1), Ok(String::from("Main")));
    assert_eq!(stream.get_string_clone(3), Ok(String::from("in")));
    assert_eq!(stream.get_string_clone(5), Ok(String::new()));
    assert_eq!(stream.get_string_clone(6), Ok(String::from("System")));
    assert_eq!(stream.get_string_clone(13), Err(ImageError::UnexpectedEof));
    assert_eq!(stream.get_string_clone(400), Err(ImageError::UnexpectedEof));
    assert_eq!(stream.read_string_to_0(0), Ok(String::new()));
}

#[test]
fn a_string_without_its_zero_is_an_error() {
    let mut reader = DataReader::new(b"\0abc".to_vec());
    let stream = StringsStream::new(&mut reader, 4).unwrap();
    assert_eq!(stream.get_string_clone(1), Err(ImageError::UnexpectedEof));
    assert_eq!(stream.get_string_clone(0), Ok(String::new()));
    assert!(matches!(StringsStream::new(&mut reader, 1), Err(ImageError::UnexpectedEof)));
    assert_eq!(StringsStream::empty().get_string_clone(0), Ok(String::new()));
    assert_eq!(StringsStream::empty().get_string_clone(1), Err(ImageError::UnexpectedEof));
}

#[test]
fn blobs_are_length_prefixed() {
    let mut bytes = vec![0x00, 0x03, 0xAA, 0xBB, 0xCC, 0x00];
    bytes.extend_from_slice(&[0x80, 0x82]);
    bytes.extend(std::iter::repeat(7).take(0x82));
    let reader = DataReader::new(bytes);
    let stream = BlobStream::new(&reader, 6 + 2 + 0x82).unwrap();
    assert_eq!(stream.read(0), Ok(vec![]));
    assert_eq!(stream.read(1), Ok(vec![0xAA, 0xBB, 0xCC]));
    assert_eq!(stream.read(5), Ok(vec![]));
    assert_eq!(stream.read(6), Ok(vec![7; 0x82]));
    assert_eq!(stream.read(3), Err(ImageError::UnexpectedEof));
    assert_eq!(stream.read(500), Err(ImageError::InvalidData));
    let mut sub = stream.create_reader(1).unwrap();
    assert_eq!(sub.len(), 3);
    assert_eq!(sub.read_u8(), Ok(0xAA));
    assert_eq!(stream.create_reader(0).unwrap().len(), 0);
    assert!(matches!(stream.create_reader(500), Err(ImageError::InvalidData)));
}

#[test]
fn a_blob_that_is_cut_off_is_an_error() {
    let reader = DataReader::new(vec![0x00, 0x05, 1, 2]);
    let stream = BlobStream::new(&reader, 4).unwrap();
    assert_eq!(stream.read(1), Err(ImageError::UnexpectedEof));
    assert!(matches!(stream.create_reader(1), Err(ImageError::UnexpectedEof)));
    assert!(matches!(BlobStream::new(&reader, 5), Err(ImageError::UnexpectedEof)));
    assert_eq!(BlobStream::empty().read(0), Ok(vec![]));
}

#[test]
fn user_strings_are_utf16() {
    let mut bytes = vec![0x00];
    bytes.extend_from_slice(&[5, b'h', 0, b'i', 0, 0]);
    // U+00E9, then a pair of surrogates for U+1F600.
    bytes.extend_from_slice(&[7, 0xE9, 0x00, 0x3D, 0xD8, 0x00, 0xDE, 1]);
    // A single surrogate is replaced.
    bytes.extend_from_slice(&[3, 0x00, 0xD8, 0]);
    bytes.extend_from_slice(&[1, 0]);
    let size = bytes.len();
    let mut reader = DataReader::new(bytes);
    let stream = USStream::new(&mut reader, size).unwrap();
    assert_eq!(reader.get_position(), 0);
    assert_eq!(stream.read(0), Ok(String::new()));
    assert_eq!(stream.read(1), Ok(String::from("hi")));
    assert_eq!(stream.read(7), Ok(String::from("\u{e9}\u{1F600}")));
    assert_eq!(stream.read(15), Ok(String::from("\u{FFFD}")));
    assert_eq!(stream.read(19), Ok(String::new()));
    assert_eq!(stream.read(size), Err(ImageError::InvalidData));
    assert_eq!(stream.read_utf16_string(2, 4), Ok(String::from("hi")));
    assert_eq!(stream.read_utf16_string(2, 1000), Err(ImageError::UnexpectedEof));
}

#[test]
fn a_user_string_that_is_cut_off_is_an_error() {
    let mut reader = DataReader::new(vec![0, 9, b'a', 0]);
    let stream = USStream::new(&mut reader, 4).unwrap();
    assert_eq!(stream.read(1), Err(ImageError::UnexpectedEof));
    assert!(matches!(USStream::new(&mut reader, 5), Err(ImageError::UnexpectedEof)));
    assert_eq!(USStream::empty().read(0), Ok(String::new()));
    assert_eq!(USStream::empty().read(1), Err(ImageError::InvalidData));
}

#[test]
fn guids_are_counted_from_one() {
    let bytes: Vec<u8> = (0..40).collect();
    let reader = DataReader::new(bytes);
    let stream = GuidStream::new(&reader, 40).unwrap();
    assert_eq!(stream.get(0), None);
    assert_eq!(stream.get(1), Some((0..16).collect()));
    assert_eq!(stream.get(2), Some((16..32).collect()));
    assert_eq!(stream.get(3), None);
    assert_eq!(stream.get(u32::MAX), None);
    assert!(GuidStream::new(&reader, 41).is_err());
    assert_eq!(GuidStream::empty().get(1), None);
}

#[test]
fn compressed_stream_reads_at_offsets() {
    let mut reader = DataReader::new(vec![9, 0x7F, 0x80, 0x80, 0xC0, 0, 0x40, 0, 0xBF]);
    reader.set_position(1).unwrap();
    let stream = CompressedStream::new(&mut reader, 8).unwrap();
    assert_eq!(reader.get_position(), 9);
    assert_eq!(stream.data, vec![0x7F, 0x80, 0x80, 0xC0, 0, 0x40, 0, 0xBF]);
    let mut p = 0;
    assert_eq!(stream.try_read_compressed_u32(&mut p), Ok(0x7F));
    assert_eq!(stream.try_read_compressed_u32(&mut p), Ok(0x80));
    assert_eq!(stream.try_read_compressed_u32(&mut p), Ok(0x4000));
    assert_eq!(p, 7);
    assert_eq!(stream.try_read_compressed_u32(&mut p), Err(ImageError::UnexpectedEof));
    assert_eq!(p, 7);
    assert_eq!(stream.read_u8(&mut p), Ok(0xBF));
    assert_eq!(stream.read_u8(&mut p), Err(ImageError::UnexpectedEof));
    assert_eq!(p, 8);
    assert!(matches!(CompressedStream::new(&mut reader, 1), Err(ImageError::UnexpectedEof)));
}
