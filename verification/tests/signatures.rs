use il_runtime::interpreter::data_reader::DataReader;
use il_runtime::interpreter::signature::{
    CallingConventionSig, CallingConventionSigBase, FieldSig, MethodBaseSig, MethodSig,
};
use il_runtime::interpreter::type_sig::{
    ArraySig, ArraySigBase, CorLibType, ElementType, FnPtrSig, GenericInstSig, GenericSig,
    ModuleSig, NoLeafSig, TypeDefOrRefSig, TypeSig, ValueArraySig,
};

fn sig(bytes: &[u8]) -> (Option<CallingConventionSig>, usize) {
    let reader = DataReader::new(bytes.to_vec());
    let mut offset = 0;
    let s = CallingConventionSig::read_sig(&reader, &mut offset);
    (s, offset)
}

fn ty(bytes: &[u8]) -> (Option<TypeSig>, usize) {
    let reader = DataReader::new(bytes.to_vec());
    let mut offset = 0;
    let t = TypeSig::read_type(&reader, &mut offset);
    (t, offset)
}

fn is_cor_lib(t: &TypeSig, c: CorLibType) -> bool {
    matches!(t, TypeSig::CorLibTypeSig(x) if *x == c)
}

fn inner(n: &NoLeafSig) -> &TypeSig {
    n.next_sig.as_ref().unwrap()
}

#[test]
fn a_method_signature() {
    let (s, end) = sig(&[0x00, 0x02, 0x08, 0x0E, 0x1C, 0xFF]);
    assert_eq!(end, 5);
    let s = s.unwrap();
    let m = s.to_method_sig();
    assert!(m.base.base.get_is_default());
    assert!(!m.base.base.get_has_this());
    assert!(!m.base.base.get_generic());
    assert_eq!(m.base.gen_param_count, 0);
    assert!(!m.base.is_sentinel);
    assert!(is_cor_lib(m.base.ret_type.as_ref().unwrap(), CorLibType::Int32));
    assert_eq!(m.base.parameters.len(), 2);
    assert!(is_cor_lib(&m.base.parameters[0], CorLibType::String));
    assert!(is_cor_lib(&m.base.parameters[1], CorLibType::Object));
}

#[test]
fn an_instance_method_of_a_generic_method() {
    let (s, end) = sig(&[0x30, 0x02, 0x01, 0x01, 0x1E, 0x00]);
    assert_eq!(end, 6);
    match s.unwrap() {
        CallingConventionSig::MethodSig(m) => {
            assert!(m.base.base.get_has_this());
            assert!(m.base.base.get_generic());
            assert!(!m.base.base.get_explicit_this());
            assert_eq!(m.base.gen_param_count, 2);
            assert!(is_cor_lib(m.base.ret_type.as_ref().unwrap(), CorLibType::Void));
            assert_eq!(m.base.parameters.len(), 1);
            match &m.base.parameters[0] {
                TypeSig::GenericMVar(g) => {
                    assert_eq!(g.number, 0);
                    assert!(!g.is_type_var);
                },
                _ => panic!("no method variable"),
            }
        },
        _ => panic!("no method signature"),
    }
}

#[test]
fn a_sentinel_is_a_mark_not_a_parameter() {
    let (s, end) = sig(&[0x05, 0x03, 0x01, 0x08, 0x41, 0x0A]);
    assert_eq!(end, 6);
    match s.unwrap() {
        CallingConventionSig::MethodSig(m) => {
            assert!(m.base.is_sentinel);
            assert_eq!(m.base.parameters.len(), 2);
            assert!(is_cor_lib(&m.base.parameters[0], CorLibType::Int32));
            assert!(is_cor_lib(&m.base.parameters[1], CorLibType::Int64));
        },
        _ => panic!("no method signature"),
    }
}

#[test]
fn a_field_signature_with_a_class() {
    let (s, end) = sig(&[0x06, 0x12, 0x09]);
    assert_eq!(end, 3);
    match s.unwrap() {
        CallingConventionSig::FieldSig(f) => match f.type_sig.unwrap() {
            TypeSig::ClassSig(Some(c)) => assert_eq!(c.base.token, 0x0100_0002),
            _ => panic!("no class"),
        },
        _ => panic!("no field signature"),
    }
    let (s, _) = sig(&[0x06, 0x11, 0x0C]);
    match s.unwrap() {
        CallingConventionSig::FieldSig(f) => match f.type_sig.unwrap() {
            TypeSig::ValueTypeSig(Some(c)) => assert_eq!(c.base.token, 0x0200_0003),
            _ => panic!("no value type"),
        },
        _ => panic!("no field signature"),
    }
    let (s, _) = sig(&[0x06, 0x12, 0x0E]);
    match s.unwrap() {
        CallingConventionSig::FieldSig(f) => match f.type_sig.unwrap() {
            TypeSig::ClassSig(Some(c)) => assert_eq!(c.base.token, 0x1B00_0003),
            _ => panic!("no class"),
        },
        _ => panic!("no field signature"),
    }
    assert!(sig(&[0x06, 0x12, 0x0B]).0.is_none());
}

#[test]
fn a_local_signature() {
    let (s, end) = sig(&[0x07, 0x03, 0x08, 0x1D, 0x05, 0x45, 0x1C]);
    assert_eq!(end, 7);
    match s.unwrap() {
        CallingConventionSig::LocalSig(l) => {
            assert_eq!(l.base.calling_convention, 0x07);
            assert_eq!(l.locals.len(), 3);
            assert!(is_cor_lib(&l.locals[0], CorLibType::Int32));
            match &l.locals[1] {
                TypeSig::SZArraySig(a) => {
                    assert_eq!(a.rank, 0);
                    assert!(is_cor_lib(inner(&a.base), CorLibType::Byte));
                },
                _ => panic!("no array"),
            }
            match &l.locals[2] {
                TypeSig::PinnedSig(p) => assert!(is_cor_lib(inner(p), CorLibType::Object)),
                _ => panic!("not pinned"),
            }
        },
        _ => panic!("no local signature"),
    }
    assert!(matches!(sig(&[0x07, 0x00]).0, Some(CallingConventionSig::LocalSig(_))));
    assert!(sig(&[0x07, 0x02, 0x08]).0.is_none());
}

#[test]
fn a_property_signature() {
    let (s, end) = sig(&[0x28, 0x01, 0x0E, 0x08]);
    assert_eq!(end, 4);
    match s.unwrap() {
        CallingConventionSig::PropertySig(m) => {
            assert!(m.base.base.get_has_this());
            assert!(is_cor_lib(m.base.ret_type.as_ref().unwrap(), CorLibType::String));
            assert_eq!(m.base.parameters.len(), 1);
        },
        _ => panic!("no property signature"),
    }
}

#[test]
fn signatures_that_are_none() {
    assert!(sig(&[]).0.is_none());
    assert!(sig(&[0x0A, 0x01, 0x08]).0.is_none());
    assert!(sig(&[0x0C]).0.is_none());
    assert!(sig(&[0x00]).0.is_none());
    assert!(sig(&[0x00, 0x01]).0.is_none());
    assert!(sig(&[0x00, 0x01, 0x01]).0.is_none());
    assert!(sig(&[0x00, 0x01, 0x00, 0x08]).0.is_none());
    assert!(sig(&[0x10, 0x80]).0.is_none());
    assert!(sig(&[0x06]).0.is_none());
    assert!(sig(&[0x06, 0x1A]).0.is_none());
    for unmanaged in [0x01u8, 0x02, 0x03, 0x04, 0x09, 0x0B] {
        assert!(matches!(
            sig(&[unmanaged, 0x00, 0x01]).0,
            Some(CallingConventionSig::MethodSig(_))
        ));
    }
}

#[test]
fn primitive_types() {
    let table = [
        (0x01u8, CorLibType::Void),
        (0x02, CorLibType::Boolean),
        (0x03, CorLibType::Char),
        (0x04, CorLibType::SByte),
        (0x05, CorLibType::Byte),
        (0x06, CorLibType::Int16),
        (0x07, CorLibType::UInt16),
        (0x08, CorLibType::Int32),
        (0x09, CorLibType::UInt32),
        (0x0A, CorLibType::Int64),
        (0x0B, CorLibType::UInt64),
        (0x0C, CorLibType::Single),
        (0x0D, CorLibType::Double),
        (0x0E, CorLibType::String),
        (0x16, CorLibType::TypedReference),
        (0x18, CorLibType::IntPtr),
        (0x19, CorLibType::UIntPtr),
        (0x1C, CorLibType::Object),
    ];
    for (code, c) in table {
        let (t, end) = ty(&[code]);
        assert_eq!(end, 1);
        assert!(is_cor_lib(&t.unwrap(), c));
        assert_eq!(CorLibType::from_code(code), Some(c));
        assert_eq!(c.code(), code);
    }
    assert_eq!(CorLibType::from_code(0x0F), None);
    assert_eq!(CorLibType::Int32.full_name(), "System.Int32");
    assert_eq!(CorLibType::TypedReference.full_name(), "System.TypedReference");
}

#[test]
fn types_that_wrap_one_type() {
    match ty(&[0x0F, 0x10, 0x08]).0.unwrap() {
        TypeSig::PtrSig(p) => match inner(&p) {
            TypeSig::ByRefSig(r) => assert!(is_cor_lib(inner(r), CorLibType::Int32)),
            _ => panic!("no reference"),
        },
        _ => panic!("no pointer"),
    }
    assert!(matches!(ty(&[0x1F, 0x08]).0, Some(TypeSig::CModReqdSig(_))));
    assert!(matches!(ty(&[0x20, 0x08]).0, Some(TypeSig::CModOptSig(_))));
    assert!(matches!(ty(&[0x45, 0x08]).0, Some(TypeSig::PinnedSig(_))));
    assert!(matches!(ty(&[0x1D, 0x08]).0, Some(TypeSig::SZArraySig(_))));
    assert!(matches!(ty(&[0x41]).0, Some(TypeSig::SentinelSig)));
    assert!(ty(&[0x0F]).0.is_none());
    assert!(ty(&[0x0F, 0x00]).0.is_none());
    assert!(ty(&[0x1D, 0x1D]).0.is_none());
}

#[test]
fn generic_parameters_and_instances() {
    match ty(&[0x13, 0x03]).0.unwrap() {
        TypeSig::GenericVar(g) => {
            assert!(g.is_type_var);
            assert_eq!(g.number, 3);
            assert_eq!(g.param_provider, 0);
        },
        _ => panic!("no type variable"),
    }
    let (t, end) = ty(&[0x15, 0x12, 0x05, 0x02, 0x08, 0x0E, 0x99]);
    assert_eq!(end, 6);
    match t.unwrap() {
        TypeSig::GenericInstSig(g) => {
            assert_eq!(g.unwarp_token(), 0x0100_0001);
            assert_eq!(g.generic_args.len(), 2);
            assert!(is_cor_lib(&g.generic_args[0], CorLibType::Int32));
            assert!(is_cor_lib(&g.generic_args[1], CorLibType::String));
        },
        _ => panic!("no instance"),
    }
    match ty(&[0x15, 0x08, 0x00]).0.unwrap() {
        TypeSig::GenericInstSig(g) => {
            assert!(g.generic_type.is_none());
            assert_eq!(g.unwarp_token(), 0);
        },
        _ => panic!("no instance"),
    }
    assert!(ty(&[0x15, 0x12, 0x05, 0x02, 0x08]).0.is_none());
}

#[test]
fn arrays() {
    let (t, end) = ty(&[0x14, 0x08, 0x02, 0x01, 0x05, 0x02, 0x00, 0x7B]);
    assert_eq!(end, 8);
    match t.unwrap() {
        TypeSig::ArraySig(a) => {
            assert_eq!(a.base.rank, 2);
            assert_eq!(a.sizes, vec![5]);
            assert_eq!(a.lower_bounds, vec![0, -3]);
            assert!(is_cor_lib(inner(&a.base.base), CorLibType::Int32));
        },
        _ => panic!("no array"),
    }
    let (t, end) = ty(&[0x14, 0x1C, 0x00, 0x55]);
    assert_eq!(end, 3);
    match t.unwrap() {
        TypeSig::ArraySig(a) => {
            assert_eq!(a.base.rank, 0);
            assert!(a.sizes.is_empty());
            assert!(a.lower_bounds.is_empty());
        },
        _ => panic!("no array"),
    }
    assert!(matches!(ty(&[0x14, 0x08, 64, 0x00, 0x00]).0, Some(TypeSig::ArraySig(_))));
    assert!(ty(&[0x14, 0x08, 65, 0x00, 0x00]).0.is_none());
    assert!(ty(&[0x14, 0x08, 0x01, 65]).0.is_none());
    assert!(ty(&[0x14, 0x08, 0x01, 0x00, 65]).0.is_none());
    assert!(ty(&[0x14, 0x08, 0x01, 0x02, 0x05]).0.is_none());
    assert!(ty(&[0x14, 0x08]).0.is_none());
}

#[test]
fn function_pointers_value_arrays_and_modules() {
    match ty(&[0x1B, 0x00, 0x01, 0x01, 0x08]).0.unwrap() {
        TypeSig::FnPtrSig(f) => match *f.calling_convention_sig.unwrap() {
            CallingConventionSig::MethodSig(m) => assert_eq!(m.base.parameters.len(), 1),
            _ => panic!("no method"),
        },
        _ => panic!("no function pointer"),
    }
    match ty(&[0x17, 0x08, 0x09]).0.unwrap() {
        TypeSig::ValueArraySig(v) => {
            assert_eq!(v.size, 9);
            assert!(is_cor_lib(inner(&v.base), CorLibType::Int32));
        },
        _ => panic!("no value array"),
    }
    match ty(&[0x3F, 0x04, 0x0E]).0.unwrap() {
        TypeSig::ModuleSig(m) => {
            assert_eq!(m.index, 4);
            assert!(is_cor_lib(inner(&m.base), CorLibType::String));
        },
        _ => panic!("no module type"),
    }
    assert!(ty(&[0x1B, 0x0A]).0.is_none());
}

#[test]
fn codes_that_are_no_type() {
    for code in [0x00u8, 0x1A, 0x21, 0x22, 0x40, 0x46, 0xFF] {
        assert!(ty(&[code, 0x08, 0x08, 0x08, 0, 0, 0, 0, 0]).0.is_none(), "code {:#x}", code);
    }
    assert!(ty(&[]).0.is_none());
}

#[test]
fn nesting_is_bounded() {
    let mut deep = vec![0x0F; 31];
    deep.push(0x08);
    assert!(ty(&deep).0.is_some());
    let mut too_deep = vec![0x0F; 32];
    too_deep.push(0x08);
    assert!(ty(&too_deep).0.is_none());
}

#[test]
fn structural_equality() {
    let a = sig(&[0x00, 0x02, 0x08, 0x0E, 0x1C]).0.unwrap();
    let b = sig(&[0x00, 0x02, 0x08, 0x0E, 0x1C]).0.unwrap();
    let other_ret = sig(&[0x00, 0x02, 0x09, 0x0E, 0x1C]).0.unwrap();
    let other_param = sig(&[0x00, 0x02, 0x08, 0x0E, 0x0E]).0.unwrap();
    let fewer = sig(&[0x00, 0x01, 0x08, 0x0E]).0.unwrap();
    let instance = sig(&[0x20, 0x02, 0x08, 0x0E, 0x1C]).0.unwrap();
    let property = sig(&[0x08, 0x02, 0x08, 0x0E, 0x1C]).0.unwrap();
    assert!(a.same(&b));
    assert!(!a.same(&other_ret));
    assert!(!a.same(&other_param));
    assert!(!a.same(&fewer));
    assert!(!a.same(&instance));
    assert!(!a.same(&property));
    assert!(CallingConventionSig::same_option(&None, &None));
    assert!(!CallingConventionSig::same_option(&Some(a), &None));
    let x = ty(&[0x15, 0x12, 0x05, 0x02, 0x08, 0x14, 0x0E, 0x01, 0x01, 0x02, 0x00]).0.unwrap();
    let y = ty(&[0x15, 0x12, 0x05, 0x02, 0x08, 0x14, 0x0E, 0x01, 0x01, 0x02, 0x00]).0.unwrap();
    let z = ty(&[0x15, 0x12, 0x05, 0x02, 0x08, 0x14, 0x0E, 0x01, 0x01, 0x03, 0x00]).0.unwrap();
    let w = ty(&[0x15, 0x11, 0x05, 0x02, 0x08, 0x14, 0x0E, 0x01, 0x01, 0x02, 0x00]).0.unwrap();
    assert!(x.same(&y));
    assert!(!x.same(&z));
    assert!(x.same(&w));
    assert!(!ty(&[0x13, 0x01]).0.unwrap().same(&ty(&[0x1E, 0x01]).0.unwrap()));
    assert!(ty(&[0x41]).0.unwrap().same(&TypeSig::SentinelSig));
}

#[test]
fn calling_convention_flags() {
    let mut base = CallingConventionSigBase::new(0x05);
    assert!(!base.get_is_default());
    assert!(!base.get_generic());
    base.set_generic(true);
    base.set_has_this(true);
    base.set_explicit_this(true);
    assert_eq!(base.calling_convention, 0x75);
    assert!(base.get_generic() && base.get_has_this() && base.get_explicit_this());
    base.set_has_this(false);
    assert_eq!(base.calling_convention, 0x55);
    base.set_generic(false);
    base.set_explicit_this(false);
    assert_eq!(base.calling_convention, 0x05);
    assert!(base.extra_data.is_empty());
    assert!(CallingConventionSigBase::default().get_is_default());
}

#[test]
fn builders_keep_what_they_are_given() {
    assert_eq!(TypeDefOrRefSig::new(0x0100_0007).token, 0x0100_0007);
    let g = GenericSig::new(true, 4, 9);
    assert!(g.is_type_var && g.number == 4 && g.param_provider == 9);
    assert!(NoLeafSig::new(None).next_sig.is_none());
    assert!(NoLeafSig::new(Some(TypeSig::SentinelSig)).next_sig.is_some());
    assert_eq!(ArraySigBase::new(None, 3).rank, 3);
    let zero = ArraySig::new_zero(Some(TypeSig::SentinelSig));
    assert!(zero.base.rank == 0 && zero.sizes.is_empty() && zero.lower_bounds.is_empty());
    let array = ArraySig::new(None, 2, vec![1, 2], vec![-1]);
    assert!(array.base.rank == 2 && array.sizes == vec![1, 2] && array.lower_bounds == vec![-1]);
    assert_eq!(ValueArraySig::new(None, 8).size, 8);
    assert_eq!(ModuleSig::new(6, None).index, 6);
    assert!(FnPtrSig::new(None).calling_convention_sig.is_none());
    let inst = GenericInstSig::new(None, vec![TypeSig::SentinelSig]);
    assert!(inst.generic_type.is_none() && inst.generic_args.len() == 1);
    let field = FieldSig::new(0x06, None);
    assert!(field.base.calling_convention == 0x06 && field.type_sig.is_none());
    let base = MethodBaseSig::new(0x20);
    assert!(base.ret_type.is_none() && base.parameters.is_empty() && !base.is_sentinel);
    let method = MethodSig::new(0x20);
    assert!(method.origin_token == 0 && method.base.base.calling_convention == 0x20);
}

#[test]
fn element_types() {
    assert_eq!(ElementType::from_u8(0x14), Some(ElementType::Array));
    assert_eq!(ElementType::from_u8(0x45), Some(ElementType::Pinned));
    assert_eq!(ElementType::from_u8(0x22), None);
    assert_eq!(ElementType::GenericInst.code(), 0x15);
    assert_eq!(ElementType::End.code(), 0x00);
}

#[test]
fn the_text_of_types() {
    assert_eq!(CorLibType::Int32.short_name(), "Int32");
    assert_eq!(CorLibType::TypedReference.short_name(), "TypedReference");
    assert_eq!(CorLibType::Void.short_name(), "Void");
    assert_eq!(ty(&[0x0E]).0.unwrap().to_text(), "String");
    assert_eq!(ty(&[0x1C]).0.unwrap().to_text(), "Object");
    assert_eq!(ty(&[0x1D, 0x08]).0.unwrap().to_text(), "Non-CorLib Type");
    assert_eq!(ty(&[0x12, 0x05]).0.unwrap().to_text(), "Non-CorLib Type");
}

#[test]
fn the_text_of_a_method_signature() {
    let s = sig(&[0x00, 0x03, 0x08, 0x0E, 0x1C, 0x1D, 0x05]).0.unwrap();
    let m = s.to_method_sig();
    assert_eq!(m.get_ret_type_string(), "Int32");
    assert_eq!(m.get_params_type_string(), "(String, Object, Non-CorLib Type)");
    let none = sig(&[0x00, 0x00, 0x01]).0.unwrap();
    assert_eq!(none.to_method_sig().get_ret_type_string(), "Void");
    assert_eq!(none.to_method_sig().get_params_type_string(), "()");
    let one = sig(&[0x00, 0x01, 0x01, 0x0A]).0.unwrap();
    assert_eq!(one.to_method_sig().get_params_type_string(), "(Int64)");
    assert_eq!(MethodSig::new(0).get_ret_type_string(), "");
}
