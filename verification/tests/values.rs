use il_runtime::hash_vec::HashVec;
use il_runtime::interpreter::data_reader::DataReader;
use il_runtime::interpreter::fault::Fault;
use il_runtime::interpreter::il_type::{
    BinaryOutcome, CompareOutcome, ILNPtr, ILPtr, ILRefType, ILType, ILValType,
};
use il_runtime::interpreter::object::Object;
use il_runtime::interpreter::signature::CallingConventionSig;
use il_runtime::interpreter::text::{full_name, i64_to_string, push_decimal, suffixed, u64_to_string};
use il_runtime::interpreter::type_sig::{CorLibType, TypeSig};

fn i32v(i: i32) -> ILType {
    ILType::Val(ILValType::Int32(i))
}

fn i64v(i: i64) -> ILType {
    ILType::Val(ILValType::Int64(i))
}

fn f32v(f: f32) -> ILType {
    ILType::Val(ILValType::Single(f.to_bits()))
}

fn f64v(f: f64) -> ILType {
    ILType::Val(ILValType::Double(f.to_bits()))
}

fn value(outcome: BinaryOutcome) -> ILType {
    match outcome {
        BinaryOutcome::Value(v) => v,
        _ => panic!("no value"),
    }
}

fn is(v: &ILType, expected: &ILType) -> bool {
    v.equals(expected)
}

#[test]
fn addition_of_whole_numbers_wraps() {
    assert!(is(&value(i32v(2).add(i32v(3))), &i32v(5)));
    assert!(is(&value(i32v(i32::MAX).add(i32v(1))), &i32v(i32::MIN)));
    assert!(is(&value(i32v(i32::MIN).add(i32v(-1))), &i32v(i32::MAX)));
    assert!(is(&value(i64v(i64::MAX).add(i64v(1))), &i64v(i64::MIN)));
    assert!(is(&value(i64v(i64::MIN).add(i64v(i64::MIN))), &i64v(0)));
    assert!(is(&value(i32v(-1).add(i64v(i64::MIN))), &i64v(i64::MAX)));
    assert!(is(&value(i64v(10).add(i32v(-20))), &i64v(-10)));
}

#[test]
fn subtraction_of_whole_numbers_wraps() {
    assert!(is(&value(i32v(2).sub(i32v(3))), &i32v(-1)));
    assert!(is(&value(i32v(i32::MIN).sub(i32v(1))), &i32v(i32::MAX)));
    assert!(is(&value(i32v(0).sub(i32v(i32::MIN))), &i32v(i32::MIN)));
    assert!(is(&value(i64v(i64::MIN).sub(i64v(1))), &i64v(i64::MAX)));
    assert!(is(&value(i32v(1).sub(i64v(i64::MIN))), &i64v(i64::MIN + 1)));
    assert!(is(&value(i64v(5).sub(i32v(7))), &i64v(-2)));
}

#[test]
fn floating_point_operands_are_handed_over() {
    match f32v(1.5).add(f32v(2.25)) {
        BinaryOutcome::Float { wide, lhs, rhs } => {
            assert!(!wide);
            assert_eq!(lhs, 1.5f32.to_bits() as u64);
            assert_eq!(rhs, 2.25f32.to_bits() as u64);
        },
        _ => panic!("no float"),
    }
    match f64v(1.5).sub(f64v(-2.25)) {
        BinaryOutcome::Float { wide, lhs, rhs } => {
            assert!(wide);
            assert_eq!(lhs, 1.5f64.to_bits());
            assert_eq!(rhs, (-2.25f64).to_bits());
        },
        _ => panic!("no float"),
    }
    assert!(matches!(f32v(1.0).add(f64v(1.0)), BinaryOutcome::Invalid));
}

#[test]
fn operands_that_cannot_be_added() {
    assert!(matches!(i32v(1).add(f64v(1.0)), BinaryOutcome::Invalid));
    assert!(matches!(i32v(1).add(ILType::Ref(ILRefType::Null)), BinaryOutcome::Invalid));
    assert!(matches!(
        ILType::Val(ILValType::Byte(1)).add(ILType::Val(ILValType::Byte(1))),
        BinaryOutcome::Invalid
    ));
    assert!(matches!(
        ILType::Val(ILValType::UInt32(1)).sub(ILType::Val(ILValType::UInt32(1))),
        BinaryOutcome::Invalid
    ));
    assert!(matches!(i32v(1).add(ILType::NPtr(ILNPtr::new(4))), BinaryOutcome::Invalid));
    assert!(matches!(ILType::NPtr(ILNPtr::new(4)).sub(i32v(1)), BinaryOutcome::Invalid));
    assert!(matches!(
        ILType::Ptr(ILPtr::Local(0, 0)).add(i32v(1)),
        BinaryOutcome::Invalid
    ));
}

#[test]
fn a_whole_number_moves_a_native_pointer() {
    match value(ILType::NPtr(ILNPtr::new(8)).add(i32v(3))) {
        ILType::NPtr(p) => {
            assert_eq!(p.offset_value(), 3);
            assert!(!p.is_null());
        },
        _ => panic!("no pointer"),
    }
    match value(ILType::NPtr(ILNPtr::new(8)).add(i64v(5))) {
        ILType::NPtr(p) => assert_eq!(p.offset_value(), 5),
        _ => panic!("no pointer"),
    }
    match value(ILType::NPtr(ILNPtr::new(8)).add(i32v(-1))) {
        ILType::NPtr(p) => assert_eq!(p.offset_value(), 0),
        _ => panic!("no pointer"),
    }
}

#[test]
fn native_pointers() {
    let mut p = ILNPtr::new(4);
    assert!(!p.is_null());
    assert_eq!(p.offset_value(), 0);
    p.offset(3);
    assert_eq!(p.offset_value(), 3);
    p.offset(-2);
    assert_eq!(p.offset_value(), 1);
    p.offset(-2);
    assert_eq!(p.offset_value(), 1);
    p.offset(isize::MIN);
    assert_eq!(p.offset_value(), 1);
    p.offset(isize::MAX);
    assert_eq!(p.offset_value(), 1 + isize::MAX as usize);
    p.offset(isize::MAX);
    assert_eq!(p.offset_value(), usize::MAX);
    p.offset(1);
    assert_eq!(p.offset_value(), usize::MAX);
    let mut q = ILNPtr::new(4);
    let r = q.duplicate();
    assert!(q.same(&r));
    q.offset(1);
    assert!(!q.same(&r));
    assert!(!ILNPtr::new(4).same(&ILNPtr::new(5)));
    assert!(ILNPtr::new(0).same(&ILNPtr::new(0)));
}

#[test]
fn bitwise_operators_on_values() {
    assert!(is(&i32v(0b1100).bitand(i32v(0b1010)).unwrap(), &i32v(0b1000)));
    assert!(is(&i32v(0b1100).bitor(i32v(0b1010)).unwrap(), &i32v(0b1110)));
    assert!(is(&i32v(0b1100).bitxor(i32v(0b1010)).unwrap(), &i32v(0b0110)));
    assert!(is(&i32v(-1).bitand(i32v(i32::MIN)).unwrap(), &i32v(i32::MIN)));
    assert!(is(&i64v(-1).bitxor(i64v(1)).unwrap(), &i64v(-2)));
    assert!(is(&i64v(1 << 40).bitor(i64v(1)).unwrap(), &i64v((1 << 40) + 1)));
    assert!(is(&i64v(0xFF).bitand(i64v(0x0F)).unwrap(), &i64v(0x0F)));
    assert!(i32v(1).bitand(i64v(1)).is_none());
    assert!(i64v(1).bitor(i32v(1)).is_none());
    assert!(f64v(1.0).bitxor(f64v(1.0)).is_none());
    assert!(ILType::Ref(ILRefType::Null).bitand(ILType::Ref(ILRefType::Null)).is_none());
}

#[test]
fn comparison_of_whole_numbers() {
    assert_eq!(i32v(1).compare(&i32v(2)), CompareOutcome::Less);
    assert_eq!(i32v(2).compare(&i32v(2)), CompareOutcome::Equal);
    assert_eq!(i32v(3).compare(&i32v(-2)), CompareOutcome::Greater);
    assert_eq!(i32v(i32::MIN).compare(&i32v(i32::MAX)), CompareOutcome::Less);
    assert_eq!(i64v(i64::MAX).compare(&i64v(i64::MIN)), CompareOutcome::Greater);
    assert_eq!(i64v(-7).compare(&i64v(-7)), CompareOutcome::Equal);
    assert_eq!(i32v(1).compare(&i64v(1)), CompareOutcome::Invalid);
    assert_eq!(i32v(1).compare(&ILType::Ref(ILRefType::Null)), CompareOutcome::Invalid);
    assert_eq!(
        ILType::Val(ILValType::Byte(1)).compare(&ILType::Val(ILValType::Byte(2))),
        CompareOutcome::Invalid
    );
}

fn expected(a: f64, b: f64) -> CompareOutcome {
    if a.is_nan() || b.is_nan() {
        CompareOutcome::Unordered
    } else if a < b {
        CompareOutcome::Less
    } else if a > b {
        CompareOutcome::Greater
    } else {
        CompareOutcome::Equal
    }
}

#[test]
fn comparison_of_floating_point_numbers() {
    let doubles = [
        0.0f64,
        -0.0,
        1.0,
        -1.0,
        1.5,
        -1.5,
        f64::MIN_POSITIVE,
        5e-324,
        -5e-324,
        f64::MAX,
        f64::MIN,
        f64::INFINITY,
        f64::NEG_INFINITY,
        f64::NAN,
        -f64::NAN,
        1e300,
        123456.789,
    ];
    for a in doubles {
        for b in doubles {
            assert_eq!(f64v(a).compare(&f64v(b)), expected(a, b), "{} and {}", a, b);
            assert_eq!(f64v(a).equals(&f64v(b)), a == b, "{} and {}", a, b);
        }
    }
    let singles = [
        0.0f32,
        -0.0,
        1.0,
        -1.0,
        0.1,
        -0.1,
        f32::MIN_POSITIVE,
        1e-45,
        f32::MAX,
        f32::MIN,
        f32::INFINITY,
        f32::NEG_INFINITY,
        f32::NAN,
        16777216.0,
    ];
    for a in singles {
        for b in singles {
            assert_eq!(f32v(a).compare(&f32v(b)), expected(a as f64, b as f64), "{} and {}", a, b);
            assert_eq!(f32v(a).equals(&f32v(b)), a == b, "{} and {}", a, b);
        }
    }
    assert_eq!(f32v(1.0).compare(&f64v(1.0)), CompareOutcome::Invalid);
}

#[test]
fn equality() {
    assert!(i32v(4).equals(&i32v(4)));
    assert!(!i32v(4).equals(&i32v(5)));
    assert!(!i32v(4).equals(&i64v(4)));
    assert!(!i32v(0).equals(&ILType::Val(ILValType::UInt32(0))));
    assert!(ILType::Val(ILValType::Char('a')).equals(&ILType::Val(ILValType::Char('a'))));
    assert!(ILType::Ref(ILRefType::Null).equals(&ILType::Ref(ILRefType::Null)));
    assert!(ILType::Ref(ILRefType::Object(3)).equals(&ILType::Ref(ILRefType::Object(3))));
    assert!(!ILType::Ref(ILRefType::Object(3)).equals(&ILType::Ref(ILRefType::String(3))));
    assert!(!ILType::Ref(ILRefType::Object(3)).equals(&ILType::Ref(ILRefType::Object(4))));
    assert!(ILType::Ptr(ILPtr::Local(1, 2)).equals(&ILType::Ptr(ILPtr::Local(1, 2))));
    assert!(!ILType::Ptr(ILPtr::Local(1, 2)).equals(&ILType::Ptr(ILPtr::Param(1, 2))));
    assert!(!ILType::Ptr(ILPtr::Static(1, 2)).equals(&ILType::Ptr(ILPtr::Static(1, 3))));
    assert!(ILType::NPtr(ILNPtr::new(2)).equals(&ILType::NPtr(ILNPtr::new(2))));
    assert!(!ILType::NPtr(ILNPtr::new(2)).equals(&ILType::NPtr(ILNPtr::new(3))));
    assert!(!ILType::NPtr(ILNPtr::new(2)).equals(&i32v(0)));
}

#[test]
fn what_counts_as_false() {
    let falses = [
        ILValType::Boolean(false),
        ILValType::Byte(0),
        ILValType::SByte(0),
        ILValType::Char('\0'),
        ILValType::Double(0.0f64.to_bits()),
        ILValType::Double((-0.0f64).to_bits()),
        ILValType::Single(0.0f32.to_bits()),
        ILValType::Single((-0.0f32).to_bits()),
        ILValType::Int32(0),
        ILValType::UInt32(0),
        ILValType::Int64(0),
        ILValType::UInt64(0),
        ILValType::Short(0),
        ILValType::UShort(0),
        ILValType::Isize(0),
        ILValType::Usize(0),
    ];
    for v in falses {
        assert!(v.is_false_type(), "{:?}", v);
        assert!(ILType::Val(v).is_false_type());
    }
    let trues = [
        ILValType::Boolean(true),
        ILValType::Byte(1),
        ILValType::SByte(-1),
        ILValType::Char('0'),
        ILValType::Double(5e-324f64.to_bits()),
        ILValType::Double(f64::NAN.to_bits()),
        ILValType::Single(1.0f32.to_bits()),
        ILValType::Single((-1e-45f32).to_bits()),
        ILValType::Int32(i32::MIN),
        ILValType::UInt32(1),
        ILValType::Int64(-1),
        ILValType::UInt64(u64::MAX),
        ILValType::Short(256),
        ILValType::UShort(1),
        ILValType::Isize(-1),
        ILValType::Usize(1),
    ];
    for v in trues {
        assert!(!v.is_false_type(), "{:?}", v);
        assert!(!ILType::Val(v).is_false_type());
    }
    assert!(ILType::Ref(ILRefType::Null).is_false_type());
    assert!(!ILType::Ref(ILRefType::Object(0)).is_false_type());
    assert!(!ILType::Ref(ILRefType::String(0)).is_false_type());
    assert!(!ILType::Ptr(ILPtr::Local(0, 0)).is_false_type());
    assert!(!ILType::NPtr(ILNPtr::new(0)).is_false_type());
}

#[test]
fn whole_numbers_as_unsigned() {
    assert_eq!(ILValType::Boolean(true).to_u32(), 1);
    assert_eq!(ILValType::Boolean(false).to_u32(), 0);
    assert_eq!(ILValType::Byte(200).to_u32(), 200);
    assert_eq!(ILValType::SByte(-1).to_u32(), u32::MAX);
    assert_eq!(ILValType::Char('A').to_u32(), 65);
    assert_eq!(ILValType::Int32(-2).to_u32(), -2i32 as u32);
    assert_eq!(ILValType::Int32(i32::MIN).to_u32(), 0x8000_0000);
    assert_eq!(ILValType::UInt32(u32::MAX).to_u32(), u32::MAX);
    assert_eq!(ILValType::Int64(-1).to_u32(), u32::MAX);
    assert_eq!(ILValType::Int64(i64::MIN).to_u32(), 0);
    assert_eq!(ILValType::Int64(0x1_2345_6789).to_u32(), 0x2345_6789);
    assert_eq!(ILValType::UInt64(u64::MAX).to_u32(), u32::MAX);
    assert_eq!(ILValType::UInt64(0x1_0000_0000).to_u32(), 0);
    assert_eq!(ILValType::Short(-3).to_u32(), -3i16 as u32);
    assert_eq!(ILValType::UShort(65535).to_u32(), 65535);
    assert_eq!(ILValType::Isize(-5).to_u32(), -5isize as u32);
    assert_eq!(ILValType::Usize(77).to_u32(), 77);

    assert_eq!(ILValType::Boolean(true).to_usize(), 1);
    assert_eq!(ILValType::SByte(-1).to_usize(), usize::MAX);
    assert_eq!(ILValType::Int32(-2).to_usize(), -2i32 as usize);
    assert_eq!(ILValType::Int64(i64::MIN).to_usize(), i64::MIN as usize);
    assert_eq!(ILValType::Int64(42).to_usize(), 42);
    assert_eq!(ILValType::UInt64(u64::MAX).to_usize(), u64::MAX as usize);
    assert_eq!(ILValType::Short(-3).to_usize(), -3i16 as usize);
    assert_eq!(ILValType::Isize(-5).to_usize(), -5isize as usize);
    assert_eq!(ILValType::Usize(usize::MAX).to_usize(), usize::MAX);
    assert_eq!(ILValType::Char('\u{10FFFF}').to_usize(), 0x10FFFF);
}

#[test]
fn floating_point_numbers_as_unsigned() {
    let doubles = [
        0.0f64,
        -0.0,
        0.5,
        0.999999,
        1.0,
        1.5,
        2.0,
        -1.0,
        -1e30,
        255.9,
        65536.0,
        4294967295.0,
        4294967295.5,
        4294967296.0,
        4294967297.0,
        9007199254740992.0,
        9007199254740993.0,
        1.8446744073709552e19,
        1.844674407370955e19,
        9.223372036854776e18,
        1e19,
        1e20,
        1e300,
        f64::MAX,
        f64::MIN_POSITIVE,
        5e-324,
        f64::INFINITY,
        f64::NEG_INFINITY,
        f64::NAN,
        123456789.987654321,
    ];
    for d in doubles {
        assert_eq!(ILValType::Double(d.to_bits()).to_u32(), d as u32, "{}", d);
        assert_eq!(ILValType::Double(d.to_bits()).to_usize(), d as usize, "{}", d);
    }
    let singles = [
        0.0f32,
        -0.0,
        0.5,
        1.0,
        1.9999999,
        -3.0,
        255.5,
        16777216.0,
        16777217.0,
        4294967040.0,
        4294967296.0,
        1.8446743e19,
        1.8446744e19,
        3e38,
        f32::MAX,
        f32::MIN_POSITIVE,
        1e-45,
        f32::INFINITY,
        f32::NEG_INFINITY,
        f32::NAN,
    ];
    for f in singles {
        assert_eq!(ILValType::Single(f.to_bits()).to_u32(), f as u32, "{}", f);
        assert_eq!(ILValType::Single(f.to_bits()).to_usize(), f as usize, "{}", f);
    }
}

#[test]
fn text_of_values() {
    assert_eq!(ILValType::Boolean(true).to_text().unwrap(), "true");
    assert_eq!(ILValType::Boolean(false).to_text().unwrap(), "false");
    assert_eq!(ILValType::Byte(255).to_text().unwrap(), "255");
    assert_eq!(ILValType::SByte(-128).to_text().unwrap(), "-128");
    assert_eq!(ILValType::Char('é').to_text().unwrap(), "é");
    assert_eq!(ILValType::Int32(i32::MIN).to_text().unwrap(), "-2147483648");
    assert_eq!(ILValType::UInt32(u32::MAX).to_text().unwrap(), "4294967295");
    assert_eq!(ILValType::Int64(i64::MIN).to_text().unwrap(), "-9223372036854775808");
    assert_eq!(ILValType::Int64(i64::MAX).to_text().unwrap(), "9223372036854775807");
    assert_eq!(ILValType::UInt64(u64::MAX).to_text().unwrap(), "18446744073709551615");
    assert_eq!(ILValType::Short(-1).to_text().unwrap(), "-1");
    assert_eq!(ILValType::UShort(0).to_text().unwrap(), "0");
    assert_eq!(ILValType::Isize(-42).to_text().unwrap(), "-42");
    assert_eq!(ILValType::Usize(usize::MAX).to_text().unwrap(), usize::MAX.to_string());
    assert!(ILValType::Double(1.0f64.to_bits()).to_text().is_none());
    assert!(ILValType::Single(1.0f32.to_bits()).to_text().is_none());
}

#[test]
fn decimal_numerals() {
    for n in [0u64, 1, 9, 10, 11, 99, 100, 101, 12345, 1_000_000, u32::MAX as u64, u64::MAX] {
        assert_eq!(u64_to_string(n), n.to_string());
    }
    for n in [0i64, 1, -1, 9, -9, 10, -10, 1234, -1234, i64::MAX, i64::MIN, i64::MIN + 1] {
        assert_eq!(i64_to_string(n), n.to_string());
    }
    let mut text = String::from("n=");
    push_decimal(&mut text, 407);
    push_decimal(&mut text, 0);
    assert_eq!(text, "n=4070");
}

#[test]
fn names() {
    assert_eq!(full_name(&String::from("System"), &String::from("Object")), "System.Object");
    assert_eq!(full_name(&String::new(), &String::from("<Module>")), ".<Module>");
    assert_eq!(suffixed(&String::from("Program"), 2), "Program`2");
    assert_eq!(suffixed(&String::new(), 10), "`10");
}

#[test]
fn element_codes_of_values() {
    assert_eq!(ILValType::Boolean(true).element_code(), 0x02);
    assert_eq!(ILValType::Char('x').element_code(), 0x03);
    assert_eq!(ILValType::SByte(0).element_code(), 0x04);
    assert_eq!(ILValType::Byte(0).element_code(), 0x05);
    assert_eq!(ILValType::Short(0).element_code(), 0x06);
    assert_eq!(ILValType::UShort(0).element_code(), 0x07);
    assert_eq!(ILValType::Int32(0).element_code(), 0x08);
    assert_eq!(ILValType::UInt32(0).element_code(), 0x09);
    assert_eq!(ILValType::Int64(0).element_code(), 0x0A);
    assert_eq!(ILValType::UInt64(0).element_code(), 0x0B);
    assert_eq!(ILValType::Single(0).element_code(), 0x0C);
    assert_eq!(ILValType::Double(0).element_code(), 0x0D);
    assert_eq!(ILValType::Isize(0).element_code(), 0x18);
    assert_eq!(ILValType::Usize(0).element_code(), 0x19);
}

#[test]
fn the_zero_of_a_primitive_type_has_the_code_of_the_type() {
    for code in 0x02u8..=0x0D {
        let reader = DataReader::new(vec![code]);
        let mut offset = 0;
        let sig = TypeSig::read_type(&reader, &mut offset).unwrap();
        match ILType::from_type_sig(&sig) {
            ILType::Val(v) => {
                assert_eq!(v.element_code(), code);
                assert!(v.is_false_type());
            },
            _ => panic!("no value for {:#x}", code),
        }
    }
}

#[test]
fn the_zero_of_any_other_type_is_null() {
    for bytes in [
        vec![0x0Eu8],
        vec![0x1C],
        vec![0x18],
        vec![0x19],
        vec![0x16],
        vec![0x01],
        vec![0x12, 0x05],
        vec![0x11, 0x05],
        vec![0x1D, 0x08],
        vec![0x0F, 0x08],
        vec![0x13, 0x00],
        vec![0x15, 0x12, 0x05, 0x01, 0x08],
    ] {
        let reader = DataReader::new(bytes);
        let mut offset = 0;
        let sig = TypeSig::read_type(&reader, &mut offset).unwrap();
        assert!(matches!(ILType::from_type_sig(&sig), ILType::Ref(ILRefType::Null)));
    }
}

#[test]
fn zeros_of_lists() {
    let sigs = vec![
        TypeSig::CorLibTypeSig(CorLibType::Int32),
        TypeSig::CorLibTypeSig(CorLibType::String),
        TypeSig::CorLibTypeSig(CorLibType::Double),
        TypeSig::CorLibTypeSig(CorLibType::Char),
    ];
    let zeros = ILType::from_type_sigs(&sigs);
    assert_eq!(zeros.len(), 4);
    assert!(is(&zeros[0], &i32v(0)));
    assert!(is(&zeros[1], &ILType::Ref(ILRefType::Null)));
    assert!(matches!(zeros[2], ILType::Val(ILValType::Double(0))));
    assert!(is(&zeros[3], &ILType::Val(ILValType::Char('\0'))));
    assert!(ILType::from_type_sigs(&Vec::new()).is_empty());

    let field = |bytes: &[u8]| {
        let reader = DataReader::new(bytes.to_vec());
        let mut offset = 0;
        CallingConventionSig::read_sig(&reader, &mut offset).unwrap()
    };
    assert!(is(&ILType::from_signature(&field(&[0x06, 0x0A])), &i64v(0)));
    assert!(is(&ILType::from_signature(&field(&[0x06, 0x0E])), &ILType::Ref(ILRefType::Null)));
    let fields = vec![field(&[0x06, 0x02]), field(&[0x06, 0x12, 0x05]), field(&[0x06, 0x07])];
    let zeros = ILType::from_signatures(&fields);
    assert_eq!(zeros.len(), 3);
    assert!(is(&zeros[0], &ILType::Val(ILValType::Boolean(false))));
    assert!(is(&zeros[1], &ILType::Ref(ILRefType::Null)));
    assert!(is(&zeros[2], &ILType::Val(ILValType::UShort(0))));
}

#[test]
fn copies_and_references() {
    assert!(is(&i32v(9).duplicate(), &i32v(9)));
    assert!(is(&ILType::Ref(ILRefType::String(2)).duplicate(), &ILType::Ref(ILRefType::String(2))));
    assert!(is(&ILType::Ptr(ILPtr::Static(1, 4)).duplicate(), &ILType::Ptr(ILPtr::Static(1, 4))));
    let mut p = ILNPtr::new(3);
    p.offset(2);
    match ILType::NPtr(p).duplicate() {
        ILType::NPtr(q) => assert_eq!(q.offset_value(), 2),
        _ => panic!("no pointer"),
    }
    assert!(ILType::Ref(ILRefType::Null).is_ref());
    assert!(ILType::Ref(ILRefType::Object(1)).is_ref());
    assert!(!i32v(0).is_ref());
    assert!(!ILType::Ptr(ILPtr::Param(0, 0)).is_ref());
    assert_eq!(ILType::Ref(ILRefType::Object(7)).get_ref(), 7);
    assert_eq!(ILType::Ref(ILRefType::String(8)).get_ref(), 8);
}

fn object_with_fields() -> Object {
    let mut fields: HashVec<u32, ILType> = HashVec::new();
    fields.insert(1, i32v(10));
    fields.insert(4, ILType::Ref(ILRefType::Null));
    Object::new(0x0200_0003, fields)
}

#[test]
fn fields_of_an_object() {
    let mut object = object_with_fields();
    assert_eq!(object.get_type(), 0x0200_0003);
    assert_eq!(object.get_current_type(), 0x0200_0003);
    assert!(object.get_box_value().is_none());
    assert!(is(object.get_field(1).unwrap(), &i32v(10)));
    assert!(is(object.get_field(0x0400_0001).unwrap(), &i32v(10)));
    assert!(is(object.get_field(0x0400_0004).unwrap(), &ILType::Ref(ILRefType::Null)));
    assert!(object.get_field(2).is_none());
    assert!(object.get_field(0x0400_0000).is_none());
    assert!(object.set_field(0x0400_0001, i32v(11)));
    assert!(is(object.get_field(1).unwrap(), &i32v(11)));
    assert!(object.set_field(4, ILType::Ref(ILRefType::String(0))));
    assert!(is(object.get_field(4).unwrap(), &ILType::Ref(ILRefType::String(0))));
    assert!(!object.set_field(5, i32v(1)));
    assert!(object.get_field(5).is_none());
    assert!(is(object.get_field(1).unwrap(), &i32v(11)));
}

#[test]
fn a_box_holds_its_value() {
    let object = Object::new_box(0x0100_0009, i64v(-5));
    assert_eq!(object.get_type(), 0x0100_0009);
    assert_eq!(object.get_current_type(), 0x0100_0009);
    assert!(is(object.get_box_value().unwrap(), &i64v(-5)));
    assert!(object.get_field(1).is_none());
}

#[test]
fn a_cast_changes_what_the_object_counts_as() {
    let chain = vec![(0usize, 2usize), (0, 1), (1, 0)];
    let mut object = object_with_fields();
    assert_eq!(object.cast_to(&chain, (0, 1), 0x0200_0002), Ok(()));
    assert_eq!(object.get_current_type(), 0x0200_0002);
    assert_eq!(object.get_type(), 0x0200_0003);
    assert_eq!(object.cast_to(&chain, (1, 0), 0x0100_0001), Ok(()));
    assert_eq!(object.get_current_type(), 0x0100_0001);
    assert_eq!(object.cast_to(&chain, (0, 2), 0x0200_0003), Ok(()));
    assert_eq!(object.get_current_type(), 0x0200_0003);
    assert_eq!(object.cast_to(&chain, (1, 1), 0x0100_0002), Err(Fault::InvalidCast));
    assert_eq!(object.cast_to(&chain, (2, 0), 0x0100_0002), Err(Fault::InvalidCast));
    assert_eq!(object.get_current_type(), 0x0200_0003);
    assert_eq!(object.cast_to(&Vec::new(), (0, 2), 0x0200_0003), Err(Fault::InvalidCast));
    assert!(is(object.get_field(1).unwrap(), &i32v(10)));
}

#[test]
fn the_reserved_flags_of_an_object() {
    let mut object = object_with_fields();
    assert!(!object.is_locked());
    assert!(!object.is_pinned());
    assert_eq!(object.get_generation(), 0);
    assert!(!object.get_gc_mark());
    object.set_gc_mark(true);
    assert!(object.get_gc_mark());
    assert!(!object.is_locked());
    assert!(!object.is_pinned());
    assert_eq!(object.get_generation(), 0);
    object.set_gc_mark(true);
    assert!(object.get_gc_mark());
    object.set_gc_mark(false);
    assert!(!object.get_gc_mark());
    assert_eq!(object.get_type(), 0x0200_0003);
}

#[test]
fn the_bytes_of_a_type_token() {
    assert_eq!(Object::parse_type_token(0x0212_3456), [0x56, 0x34, 0x12]);
    assert_eq!(Object::parse_type_token(0xFF00_0001), [0x01, 0x00, 0x00]);
    assert_eq!(Object::parse_type_token(0), [0, 0, 0]);
}
