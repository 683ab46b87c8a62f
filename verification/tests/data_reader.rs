use il_runtime::error::ImageError;
use il_runtime::interpreter::data_reader::DataReader;
use il_runtime::interpreter::image_reader::ImageReader;

fn reader(bytes: &[u8]) -> DataReader {
    DataReader::new(bytes.to_vec())
}

#[test]
fn reads_are_little_endian() {
    let mut r = reader(&[0x01, 0x02, 0x03, 0x04, 0x05, 0x06, 0x07, 0x08, 0x09]);
    assert_eq!(r.read_u8(), Ok(0x01));
    assert_eq!(r.get_position(), 1);
    r.set_position(0).unwrap();
    assert_eq!(r.read_u16(), Ok(0x0201));
    assert_eq!(r.get_position(), 2);
    r.set_position(0).unwrap();
    assert_eq!(r.read_u32(), Ok(0x0403_0201));
    assert_eq!(r.get_position(), 4);
    r.set_position(1).unwrap();
    assert_eq!(r.read_u64(), Ok(0x0908_0706_0504_0302));
    assert_eq!(r.get_position(), 9);
}

#[test]
fn a_read_past_the_end_fails_and_moves_nothing() {
    let mut r = reader(&[1, 2, 3]);
    assert_eq!(r.read_u32(), Err(ImageError::UnexpectedEof));
    assert_eq!(r.get_position(), 0);
    assert_eq!(r.read_u16(), Ok(0x0201));
    assert_eq!(r.read_u16(), Err(ImageError::UnexpectedEof));
    assert_eq!(r.get_position(), 2);
    assert_eq!(r.read_u8(), Ok(3));
    assert_eq!(r.read_u8(), Err(ImageError::UnexpectedEof));
    assert_eq!(r.read_u64(), Err(ImageError::UnexpectedEof));
    assert_eq!(r.get_position(), 3);
}

#[test]
fn readers_with_a_cursor_of_the_caller_leave_the_reader_alone() {
    let r = reader(&[0xAA, 0xBB, 0xCC, 0xDD, 0xEE]);
    let mut p = 1;
    assert_eq!(r.read_u8_immut(&mut p), Ok(0xBB));
    assert_eq!(p, 2);
    assert_eq!(r.read_u16_immut(&mut p), Ok(0xDDCC));
    assert_eq!(p, 4);
    assert_eq!(r.read_u16_immut(&mut p), Err(ImageError::UnexpectedEof));
    assert_eq!(p, 4);
    let mut q = 1;
    assert_eq!(r.read_u32_immut(&mut q), Ok(0xEEDD_CCBB));
    assert_eq!(q, 5);
    let mut far = 100;
    assert_eq!(r.read_u8_immut(&mut far), Err(ImageError::UnexpectedEof));
    assert_eq!(far, 100);
    let mut huge = usize::MAX;
    assert_eq!(r.read_u64_immut(&mut huge), Err(ImageError::UnexpectedEof));
    assert_eq!(r.get_position(), 0);
}

#[test]
fn cursor_moves_are_checked() {
    let mut r = reader(&[0; 10]);
    assert_eq!(r.set_position(10), Ok(()));
    assert_eq!(r.set_position(11), Err(ImageError::UnexpectedEof));
    assert_eq!(r.get_position(), 10);
    assert_eq!(r.back(4), Ok(()));
    assert_eq!(r.get_position(), 6);
    assert_eq!(r.back(7), Err(ImageError::UnexpectedEof));
    assert_eq!(r.get_position(), 6);
    assert_eq!(r.advance(4), Ok(()));
    assert_eq!(r.advance(1), Err(ImageError::UnexpectedEof));
    assert_eq!(r.get_position(), 10);
    assert_eq!(r.check_position(3, 7), Ok(()));
    assert_eq!(r.check_position(3, 8), Err(ImageError::UnexpectedEof));
    assert_eq!(r.check_position(usize::MAX, usize::MAX), Err(ImageError::UnexpectedEof));
    assert_eq!(r.len(), 10);
}

#[test]
fn slices_are_independent_readers() {
    let mut r = reader(&[10, 11, 12, 13, 14, 15]);
    r.set_position(2).unwrap();
    let mut s = r.slice(3).unwrap();
    assert_eq!(s.get_position(), 0);
    assert_eq!(s.len(), 3);
    assert_eq!(s.read_u8(), Ok(12));
    assert_eq!(r.get_position(), 2);
    let mut t = r.slice_from(4, 2).unwrap();
    assert_eq!(t.read_u16(), Ok(0x0F0E));
    assert!(matches!(r.slice(5), Err(ImageError::UnexpectedEof)));
    assert!(matches!(r.slice_from(6, 1), Err(ImageError::UnexpectedEof)));
    assert_eq!(r.slice_from(6, 0).unwrap().len(), 0);
}

fn compressed(bytes: &[u8]) -> (Option<u32>, usize) {
    let r = reader(bytes);
    let mut p = 0;
    let v = r.try_read_compressed_u32_immut(&mut p);
    (v, p)
}

#[test]
fn compressed_unsigned_integers() {
    assert_eq!(compressed(&[0x03]), (Some(0x03), 1));
    assert_eq!(compressed(&[0x7F]), (Some(0x7F), 1));
    assert_eq!(compressed(&[0x80, 0x80]), (Some(0x80), 2));
    assert_eq!(compressed(&[0xAE, 0x57]), (Some(0x2E57), 2));
    assert_eq!(compressed(&[0xBF, 0xFF]), (Some(0x3FFF), 2));
    assert_eq!(compressed(&[0xC0, 0x00, 0x40, 0x00]), (Some(0x4000), 4));
    assert_eq!(compressed(&[0xDF, 0xFF, 0xFF, 0xFF]), (Some(0x1FFF_FFFF), 4));
    assert_eq!(compressed(&[0x05, 0xFF]), (Some(5), 1));
}

#[test]
fn a_compressed_integer_that_is_cut_off_is_none() {
    assert_eq!(compressed(&[]), (None, 0));
    assert_eq!(compressed(&[0x80]), (None, 0));
    assert_eq!(compressed(&[0xC0, 0x00, 0x40]), (None, 0));
    let r = reader(&[0x00, 0xBF]);
    let mut p = 1;
    assert_eq!(r.try_read_compressed_u32_immut(&mut p), None);
    assert_eq!(p, 1);
    let mut q = 7;
    assert_eq!(r.try_read_compressed_u32_immut(&mut q), None);
    assert_eq!(q, 7);
}

fn compressed_signed(bytes: &[u8]) -> (Option<i32>, usize) {
    let r = reader(bytes);
    let mut p = 0;
    let v = r.try_read_compressed_i32_immut(&mut p);
    (v, p)
}

#[test]
fn compressed_signed_integers() {
    assert_eq!(compressed_signed(&[0x06]), (Some(3), 1));
    assert_eq!(compressed_signed(&[0x7B]), (Some(-3), 1));
    assert_eq!(compressed_signed(&[0x80, 0x80]), (Some(64), 2));
    assert_eq!(compressed_signed(&[0x01]), (Some(-64), 1));
    assert_eq!(compressed_signed(&[0xC0, 0x00, 0x40, 0x00]), (Some(8192), 4));
    assert_eq!(compressed_signed(&[0x80, 0x01]), (Some(-8192), 2));
    assert_eq!(compressed_signed(&[0xDF, 0xFF, 0xFF, 0xFE]), (Some(268_435_455), 4));
    assert_eq!(compressed_signed(&[0xC0, 0x00, 0x00, 0x01]), (Some(-268_435_456), 4));
    assert_eq!(compressed_signed(&[0x00]), (Some(0), 1));
    assert_eq!(compressed_signed(&[0x7E]), (Some(63), 1));
    assert_eq!(compressed_signed(&[0xBF, 0xFE]), (Some(8191), 2));
    assert_eq!(compressed_signed(&[0x80]), (None, 0));
}

#[test]
fn bytes_are_copied_into_the_buffer() {
    let mut r = reader(&[1, 2, 3, 4, 5, 6]);
    let mut four = vec![0; 4];
    assert_eq!(r.read_bytes(&mut four), Ok(()));
    assert_eq!(four, vec![1, 2, 3, 4]);
    assert_eq!(r.get_position(), 4);
    let mut three = vec![9; 3];
    assert_eq!(r.read_bytes(&mut three), Err(ImageError::UnexpectedEof));
    assert_eq!(three, vec![9; 3]);
    assert_eq!(r.get_position(), 4);
    let mut buffer = vec![7; 5];
    r.set_position(1).unwrap();
    assert_eq!(r.read_bytes_exact(&mut buffer, 2), Ok(()));
    assert_eq!(buffer, vec![2, 3, 7, 7, 7]);
    assert_eq!(r.get_position(), 3);
    let mut p = 0;
    assert_eq!(r.read_bytes_exact_immut(&mut p, &mut buffer, 5), Ok(()));
    assert_eq!(buffer, vec![1, 2, 3, 4, 5]);
    assert_eq!(p, 5);
    let mut two = vec![0; 2];
    assert_eq!(r.read_bytes_vec(&mut two), Ok(()));
    assert_eq!(two, vec![4, 5]);
    let mut q = 5;
    assert_eq!(r.read_bytes_vec_immut(&mut q, &mut two), Err(ImageError::UnexpectedEof));
    assert_eq!(q, 5);
    let mut s = 2;
    assert_eq!(r.read_bytes_vec_exact_immut(&mut s, 3), Ok(vec![3, 4, 5]));
    assert_eq!(s, 5);
    assert_eq!(r.read_bytes_vec_exact_immut(&mut s, 2), Err(ImageError::UnexpectedEof));
    let mut none: Vec<u8> = vec![];
    assert_eq!(r.read_bytes_immut(&mut s, &mut none), Ok(()));
}

#[test]
fn a_string_in_a_window_ends_at_the_first_zero() {
    let mut r = reader(b"ab\0cd\0\0\0xyz");
    assert_eq!(r.read_string(8), Ok(String::from("ab")));
    assert_eq!(r.get_position(), 8);
    assert_eq!(r.read_string(3), Ok(String::from("xyz")));
    assert_eq!(r.get_position(), 11);
    assert_eq!(r.read_string(1), Err(ImageError::UnexpectedEof));
    assert_eq!(r.read_string(0), Ok(String::new()));
    let mut p = 3;
    assert_eq!(r.read_string_immut(&mut p, 2), Ok(String::from("cd")));
    assert_eq!(p, 5);
    assert_eq!(r.read_string_immut(&mut p, 100), Err(ImageError::UnexpectedEof));
    assert_eq!(p, 5);
}

#[test]
fn a_string_to_zero_needs_its_zero() {
    let mut r = reader(b"one\0two\0end");
    assert_eq!(r.read_string_to_0(), Ok(String::from("one")));
    assert_eq!(r.get_position(), 4);
    assert_eq!(r.read_string_to_0(), Ok(String::from("two")));
    assert_eq!(r.get_position(), 8);
    assert_eq!(r.read_string_to_0(), Err(ImageError::UnexpectedEof));
    assert_eq!(r.get_position(), 8);
    r.set_position(11).unwrap();
    assert_eq!(r.read_string_to_0(), Err(ImageError::UnexpectedEof));
    let mut e = reader(b"\0");
    assert_eq!(e.read_string_to_0(), Ok(String::new()));
    assert_eq!(e.get_position(), 1);
}

#[test]
fn bytes_above_ascii_become_the_characters_of_their_code() {
    let mut r = reader(&[0xE9, 0x41, 0]);
    assert_eq!(r.read_string_to_0(), Ok(String::from("\u{e9}A")));
}

#[test]
fn an_empty_reader_holds_nothing() {
    let mut r = DataReader::empty();
    assert_eq!(r.len(), 0);
    assert_eq!(r.read_u8(), Err(ImageError::UnexpectedEof));
    assert_eq!(r.set_position(0), Ok(()));
}

#[test]
fn image_reader_reads_like_a_data_reader() {
    let image = vec![0x4D, 0x5A, 0x90, 0x00, 0x03, 0x00, 0x00, 0x00, b'h', b'i', 0];
    let mut r = ImageReader::new(&image);
    assert_eq!(r.read_u16(), Ok(0x5A4D));
    assert_eq!(r.read_u8(), Ok(0x90));
    assert_eq!(r.get_position(), 3);
    assert_eq!(r.back(3), Ok(()));
    assert_eq!(r.read_u32(), Ok(0x0090_5A4D));
    assert_eq!(r.read_u64(), Err(ImageError::UnexpectedEof));
    assert_eq!(r.get_position(), 4);
    assert_eq!(r.advance(4), Ok(()));
    assert_eq!(r.read_string_to_0(), Ok(String::from("hi")));
    assert_eq!(r.get_position(), 11);
    assert_eq!(r.advance(1), Err(ImageError::UnexpectedEof));
    assert_eq!(r.back(12), Err(ImageError::UnexpectedEof));
    r.set_position(0).unwrap();
    assert_eq!(r.read_u64(), Ok(0x0000_0003_0090_5A4D));
    let mut buffer = vec![0; 3];
    assert_eq!(r.read_bytes(&mut buffer), Ok(()));
    assert_eq!(buffer, vec![b'h', b'i', 0]);
    r.set_position(8).unwrap();
    let mut wide = vec![1, 1, 1, 1];
    assert_eq!(r.read_bytes_exact(&mut wide, 2), Ok(()));
    assert_eq!(wide, vec![b'h', b'i', 1, 1]);
    r.set_position(8).unwrap();
    assert_eq!(r.read_string(3), Ok(String::from("hi")));
    assert_eq!(r.check_position(0), Ok(()));
    assert_eq!(r.check_position(1), Err(ImageError::UnexpectedEof));
}

#[test]
fn image_reader_moves_its_cursor_even_beyond_the_end() {
    let image = vec![1, 2, 3];
    let mut r = ImageReader::new(&image);
    assert_eq!(r.set_position(3), Ok(()));
    assert_eq!(r.set_position(9), Err(ImageError::UnexpectedEof));
    assert_eq!(r.get_position(), 9);
    assert_eq!(r.read_u8(), Err(ImageError::UnexpectedEof));
    assert_eq!(r.read_string_to_0(), Err(ImageError::UnexpectedEof));
    assert_eq!(r.back(8), Ok(()));
    assert_eq!(r.read_u8(), Ok(2));
}
