use il_runtime::error::ImageError;
use il_runtime::interpreter::assembly::Assembly;
use il_runtime::interpreter::assembly_name::AssemblyName;
use il_runtime::interpreter::fault::Fault;
use il_runtime::interpreter::il_type::{ILRefType, ILType, ILValType};
use il_runtime::hash_vec::HashVec;
use il_runtime::interpreter::data_reader::DataReader;
use il_runtime::interpreter::machine::{Interpreter, Outcome, Rendered};
use il_runtime::interpreter::metadata::pe::PE;
use il_runtime::interpreter::metadata::root::Metadata;
use il_runtime::interpreter::resolve::{
    extends_chain, field_list, find_assembly, get_method_index, resolve_member_ref,
    resolve_type_def_or_ref, resolve_type_ref, row_index, zero_of, Stop,
};
use il_runtime::interpreter::type_sig::CorLibType;

// ---------------------------------------------------------------------------
// A small assembler for images: enough of the format for the loader to read.
// ---------------------------------------------------------------------------

struct FieldRow {
    name: &'static str,
    flags: u16,
    sig: Vec<u8>,
}

struct MethodRow {
    name: &'static str,
    impl_flags: u16,
    flags: u16,
    sig: Vec<u8>,
    code: Option<Vec<u8>>,
    locals: Option<Vec<u8>>,
    max_stack: u16,
    params: Vec<&'static str>,
}

struct TypeRow {
    namespace: &'static str,
    name: &'static str,
    extends: u16,
    fields: Vec<FieldRow>,
    methods: Vec<MethodRow>,
}

struct TypeRefRow {
    scope: u16,
    namespace: &'static str,
    name: &'static str,
}

struct MemberRefRow {
    class: u16,
    name: &'static str,
    sig: Vec<u8>,
}

struct Image {
    name: &'static str,
    types: Vec<TypeRow>,
    type_refs: Vec<TypeRefRow>,
    member_refs: Vec<MemberRefRow>,
    assembly_refs: Vec<&'static str>,
    user_strings: Vec<&'static str>,
}

struct Heaps {
    strings: Vec<u8>,
    blob: Vec<u8>,
    us: Vec<u8>,
}

fn put16(out: &mut Vec<u8>, v: u16) {
    out.extend_from_slice(&v.to_le_bytes());
}

fn put32(out: &mut Vec<u8>, v: u32) {
    out.extend_from_slice(&v.to_le_bytes());
}

fn put64(out: &mut Vec<u8>, v: u64) {
    out.extend_from_slice(&v.to_le_bytes());
}

fn pad4(out: &mut Vec<u8>) {
    while out.len() % 4 != 0 {
        out.push(0);
    }
}

impl Heaps {
    fn new() -> Heaps {
        Heaps { strings: vec![0], blob: vec![0], us: vec![0] }
    }

    fn string(&mut self, s: &str) -> u16 {
        if s.is_empty() {
            return 0;
        }
        let at = self.strings.len() as u16;
        self.strings.extend_from_slice(s.as_bytes());
        self.strings.push(0);
        at
    }

    fn blob(&mut self, b: &[u8]) -> u16 {
        let at = self.blob.len() as u16;
        assert!(b.len() < 0x80);
        self.blob.push(b.len() as u8);
        self.blob.extend_from_slice(b);
        at
    }

    fn user_string(&mut self, s: &str) -> u32 {
        let at = self.us.len() as u32;
        let units: Vec<u16> = s.encode_utf16().collect();
        let len = units.len() * 2 + 1;
        assert!(len < 0x80);
        self.us.push(len as u8);
        for u in units {
            self.us.extend_from_slice(&u.to_le_bytes());
        }
        self.us.push(0);
        at
    }
}

const SECTION_RVA: u32 = 0x2000;
const SECTION_FILE: u32 = 0x200;

/// The token of the `n`-th user string of an image, counted from zero.
fn user_string_token(image: &Image, n: usize) -> u32 {
    let mut heaps = Heaps::new();
    let mut at = 0;
    for (i, s) in image.user_strings.iter().enumerate() {
        let here = heaps.user_string(s);
        if i == n {
            at = here;
        }
    }
    0x7000_0000 | at
}

fn tiny_or_fat(method: &MethodRow, locals_token: u32) -> Vec<u8> {
    let code = method.code.as_ref().unwrap();
    let mut out = Vec::new();
    if method.locals.is_none() && code.len() < 64 && method.max_stack <= 8 {
        out.push(((code.len() as u8) << 2) | 2);
    } else {
        out.push(0x13);
        out.push(0x30);
        put16(&mut out, method.max_stack);
        put32(&mut out, code.len() as u32);
        put32(&mut out, locals_token);
    }
    out.extend_from_slice(code);
    out
}

fn build(image: &Image) -> Vec<u8> {
    let mut heaps = Heaps::new();
    for s in image.user_strings.iter() {
        heaps.user_string(s);
    }
    // The section starts with the runtime header; the method bodies follow.
    let mut section: Vec<u8> = vec![0; 0x48];
    let mut bodies: Vec<u32> = Vec::new();
    let mut local_sigs: Vec<u16> = Vec::new();
    for t in image.types.iter() {
        for m in t.methods.iter() {
            if m.code.is_some() {
                let mut token = 0;
                if let Some(l) = &m.locals {
                    local_sigs.push(heaps.blob(l));
                    token = 0x1100_0000 | local_sigs.len() as u32;
                }
                pad4(&mut section);
                bodies.push(SECTION_RVA + section.len() as u32);
                section.extend_from_slice(&tiny_or_fat(m, token));
            } else {
                bodies.push(0);
            }
        }
    }
    pad4(&mut section);

    // The tables.
    let mut type_ref_rows = Vec::new();
    for r in image.type_refs.iter() {
        put16(&mut type_ref_rows, r.scope);
        let name = heaps.string(r.name);
        let namespace = heaps.string(r.namespace);
        put16(&mut type_ref_rows, name);
        put16(&mut type_ref_rows, namespace);
    }
    let mut type_def_rows = Vec::new();
    let mut field_rows = Vec::new();
    let mut method_rows = Vec::new();
    let mut param_rows = Vec::new();
    let mut field_count: u16 = 0;
    let mut method_count: u16 = 0;
    let mut param_count: u16 = 0;
    for t in image.types.iter() {
        put32(&mut type_def_rows, 0);
        let name = heaps.string(t.name);
        let namespace = heaps.string(t.namespace);
        put16(&mut type_def_rows, name);
        put16(&mut type_def_rows, namespace);
        put16(&mut type_def_rows, t.extends);
        put16(&mut type_def_rows, field_count + 1);
        put16(&mut type_def_rows, method_count + 1);
        for f in t.fields.iter() {
            put16(&mut field_rows, f.flags);
            let name = heaps.string(f.name);
            put16(&mut field_rows, name);
            let sig = heaps.blob(&f.sig);
            put16(&mut field_rows, sig);
            field_count += 1;
        }
        for m in t.methods.iter() {
            put32(&mut method_rows, bodies[method_count as usize]);
            put16(&mut method_rows, m.impl_flags);
            put16(&mut method_rows, m.flags);
            let name = heaps.string(m.name);
            put16(&mut method_rows, name);
            let sig = heaps.blob(&m.sig);
            put16(&mut method_rows, sig);
            put16(&mut method_rows, param_count + 1);
            for (i, p) in m.params.iter().enumerate() {
                put16(&mut param_rows, 0);
                put16(&mut param_rows, i as u16 + 1);
                let name = heaps.string(p);
                put16(&mut param_rows, name);
                param_count += 1;
            }
            method_count += 1;
        }
    }
    let mut member_ref_rows = Vec::new();
    for r in image.member_refs.iter() {
        put16(&mut member_ref_rows, r.class);
        let name = heaps.string(r.name);
        put16(&mut member_ref_rows, name);
        let sig = heaps.blob(&r.sig);
        put16(&mut member_ref_rows, sig);
    }
    let mut sig_rows = Vec::new();
    for s in local_sigs.iter() {
        put16(&mut sig_rows, *s);
    }
    let mut assembly_rows = Vec::new();
    put32(&mut assembly_rows, 0x8004);
    put16(&mut assembly_rows, 1);
    put16(&mut assembly_rows, 2);
    put16(&mut assembly_rows, 3);
    put16(&mut assembly_rows, 4);
    put32(&mut assembly_rows, 0);
    put16(&mut assembly_rows, 0);
    let name = heaps.string(image.name);
    put16(&mut assembly_rows, name);
    put16(&mut assembly_rows, 0);
    let mut assembly_ref_rows = Vec::new();
    for r in image.assembly_refs.iter() {
        put16(&mut assembly_ref_rows, 4);
        put16(&mut assembly_ref_rows, 0);
        put16(&mut assembly_ref_rows, 0);
        put16(&mut assembly_ref_rows, 0);
        put32(&mut assembly_ref_rows, 0);
        put16(&mut assembly_ref_rows, 0);
        let name = heaps.string(r);
        put16(&mut assembly_ref_rows, name);
        put16(&mut assembly_ref_rows, 0);
        put16(&mut assembly_ref_rows, 0);
    }
    let tables: Vec<(u32, u32, Vec<u8>)> = vec![
        (0x01, image.type_refs.len() as u32, type_ref_rows),
        (0x02, image.types.len() as u32, type_def_rows),
        (0x04, field_count as u32, field_rows),
        (0x06, method_count as u32, method_rows),
        (0x08, param_count as u32, param_rows),
        (0x0A, image.member_refs.len() as u32, member_ref_rows),
        (0x11, local_sigs.len() as u32, sig_rows),
        (0x20, 1, assembly_rows),
        (0x23, image.assembly_refs.len() as u32, assembly_ref_rows),
    ];
    let mut stream = Vec::new();
    put32(&mut stream, 0);
    stream.push(2);
    stream.push(0);
    stream.push(0);
    stream.push(1);
    let mut valid: u64 = 0;
    for (number, rows, _) in tables.iter() {
        if *rows > 0 {
            valid |= 1u64 << number;
        }
    }
    put64(&mut stream, valid);
    put64(&mut stream, 0);
    for (_, rows, _) in tables.iter() {
        if *rows > 0 {
            put32(&mut stream, *rows);
        }
    }
    for (_, rows, bytes) in tables.iter() {
        if *rows > 0 {
            stream.extend_from_slice(bytes);
        }
    }
    pad4(&mut stream);
    pad4(&mut heaps.strings);
    pad4(&mut heaps.blob);
    pad4(&mut heaps.us);

    // The metadata root.
    let mut root = Vec::new();
    put32(&mut root, 0x424A_5342);
    put16(&mut root, 1);
    put16(&mut root, 1);
    put32(&mut root, 0);
    put32(&mut root, 12);
    root.extend_from_slice(b"v4.0.30319\0\0");
    put16(&mut root, 0);
    put16(&mut root, 4);
    let names: [&[u8]; 4] = [b"#~\0\0", b"#Strings\0\0\0\0", b"#US\0", b"#Blob\0\0\0"];
    let sizes = [stream.len(), heaps.strings.len(), heaps.us.len(), heaps.blob.len()];
    let directory: usize = names.iter().map(|n| 8 + n.len()).sum();
    let mut offset = root.len() + directory;
    for i in 0..4 {
        put32(&mut root, offset as u32);
        put32(&mut root, sizes[i] as u32);
        root.extend_from_slice(names[i]);
        offset += sizes[i];
    }
    root.extend_from_slice(&stream);
    root.extend_from_slice(&heaps.strings);
    root.extend_from_slice(&heaps.us);
    root.extend_from_slice(&heaps.blob);

    let metadata_rva = SECTION_RVA + section.len() as u32;
    let mut header = Vec::new();
    put32(&mut header, 0x48);
    put16(&mut header, 2);
    put16(&mut header, 5);
    put32(&mut header, metadata_rva);
    put32(&mut header, root.len() as u32);
    put32(&mut header, 1);
    put32(&mut header, 0x0600_0001);
    while header.len() < 0x48 {
        header.push(0);
    }
    section[..0x48].copy_from_slice(&header);
    section.extend_from_slice(&root);

    // The headers of the file.
    let mut file = vec![0u8; 0x80];
    file[0] = 0x4D;
    file[1] = 0x5A;
    file[0x3C] = 0x80;
    file.extend_from_slice(b"PE\0\0");
    put16(&mut file, 0x14C);
    put16(&mut file, 1);
    put32(&mut file, 0);
    put32(&mut file, 0);
    put32(&mut file, 0);
    put16(&mut file, 0xE0);
    put16(&mut file, 0x102);
    let optional = file.len();
    put16(&mut file, 0x10B);
    file.push(8);
    file.push(0);
    while file.len() < optional + 28 {
        file.push(0);
    }
    put32(&mut file, 0x40_0000);
    put32(&mut file, 0x2000);
    put32(&mut file, 0x200);
    while file.len() < optional + 92 {
        file.push(0);
    }
    put32(&mut file, 16);
    for i in 0..16 {
        if i == 14 {
            put32(&mut file, SECTION_RVA);
            put32(&mut file, 0x48);
        } else {
            put32(&mut file, 0);
            put32(&mut file, 0);
        }
    }
    assert_eq!(file.len(), optional + 0xE0);
    file.extend_from_slice(b".text\0\0\0");
    put32(&mut file, section.len() as u32);
    put32(&mut file, SECTION_RVA);
    put32(&mut file, section.len() as u32);
    put32(&mut file, SECTION_FILE);
    put32(&mut file, 0);
    put32(&mut file, 0);
    put16(&mut file, 0);
    put16(&mut file, 0);
    put32(&mut file, 0x6000_0020);
    while file.len() < SECTION_FILE as usize {
        file.push(0);
    }
    file.extend_from_slice(&section);
    file
}

const STATIC: u16 = 0x0010;
const INTERNAL_CALL: u16 = 0x1000;

fn void_sig() -> Vec<u8> {
    vec![0x00, 0x00, 0x01]
}

fn instance_void_sig() -> Vec<u8> {
    vec![0x20, 0x00, 0x01]
}

fn main_method(code: Vec<u8>) -> MethodRow {
    MethodRow {
        name: "Main",
        impl_flags: 0,
        flags: STATIC,
        sig: void_sig(),
        code: Some(code),
        locals: None,
        max_stack: 8,
        params: vec![],
    }
}

fn write_line() -> MethodRow {
    MethodRow {
        name: "WriteLine",
        impl_flags: INTERNAL_CALL,
        flags: STATIC,
        sig: vec![0x00, 0x01, 0x01, 0x1C],
        code: None,
        locals: None,
        max_stack: 0,
        params: vec!["value"],
    }
}

fn module_type(methods: Vec<MethodRow>) -> TypeRow {
    TypeRow { namespace: "", name: "<Module>", extends: 0, fields: vec![], methods }
}

/// An image whose first type holds `Main` with the code `code` and `WriteLine`.
fn program(code: Vec<u8>, user_strings: Vec<&'static str>) -> Image {
    Image {
        name: "Program",
        types: vec![module_type(vec![main_method(code), write_line()])],
        type_refs: vec![],
        member_refs: vec![],
        assembly_refs: vec![],
        user_strings,
    }
}

fn token(t: u32) -> [u8; 4] {
    t.to_le_bytes()
}

const WRITE_LINE: u32 = 0x0600_0002;

fn load(image: &Image) -> Assembly {
    let bytes = build(image);
    let path = String::from("memory");
    match Assembly::new(&path, bytes, false) {
        Ok(a) => a,
        Err(e) => panic!("the image does not load: {:?}", e),
    }
}

/// Runs the program to its end and returns the lines it wrote.
fn run_to_end(interpreter: &mut Interpreter) -> Result<Vec<String>, Fault> {
    let mut lines = Vec::new();
    let mut outcome = interpreter.start();
    let mut guard = 0;
    loop {
        guard += 1;
        assert!(guard < 10_000, "the program does not end");
        match outcome {
            Outcome::Continue => {},
            Outcome::Finished => return Ok(lines),
            Outcome::WriteLine(Rendered::Text(text)) => lines.push(text),
            Outcome::WriteLine(Rendered::Single(bits)) => {
                lines.push(format!("{}", f32::from_bits(bits)))
            },
            Outcome::WriteLine(Rendered::Double(bits)) => {
                lines.push(format!("{}", f64::from_bits(bits)))
            },
            Outcome::FloatBinary { subtract, wide, lhs, rhs } => {
                let bits = if wide {
                    let (a, b) = (f64::from_bits(lhs), f64::from_bits(rhs));
                    (if subtract { a - b } else { a + b }).to_bits()
                } else {
                    let (a, b) = (f32::from_bits(lhs as u32), f32::from_bits(rhs as u32));
                    (if subtract { a - b } else { a + b }).to_bits() as u64
                };
                interpreter.push_float(wide, bits).unwrap();
            },
            Outcome::LoadAssembly(name) => panic!("asks for the assembly {}", name.name),
            Outcome::Fault(f) => return Err(f),
        }
        outcome = interpreter.run(1_000);
    }
}

fn run_program(code: Vec<u8>, user_strings: Vec<&'static str>) -> Result<Vec<String>, Fault> {
    let image = program(code, user_strings);
    let mut interpreter = Interpreter::new(load(&image));
    run_to_end(&mut interpreter)
}

fn lines(expected: &[&str]) -> Result<Vec<String>, Fault> {
    Ok(expected.iter().map(|s| s.to_string()).collect())
}

// ---------------------------------------------------------------------------
// The loader.
// ---------------------------------------------------------------------------

#[test]
fn loads_the_tables_of_an_image() {
    let image = program(vec![0x2A], vec!["hi"]);
    let assembly = load(&image);
    assert_eq!(assembly.assembly_name.name, "Program");
    assert_eq!(assembly.assembly_name.major_version, 1);
    assert_eq!(assembly.assembly_name.minor_version, 2);
    assert_eq!(assembly.assembly_name.build_number, 3);
    assert_eq!(assembly.assembly_name.revision_number, 4);
    assert_eq!(assembly.pe.num_of_sections, 1);
    assert_eq!(assembly.pe.machine, 0x14C);
    assert_eq!(assembly.pe.image_option_header.magic, 0x10B);
    assert_eq!(assembly.pe.image_option_header.data_directory[14].virtual_address, 0x2000);
    assert_eq!(assembly.pe.rva_to_file_offset(0x2000), 0x200);
    assert_eq!(assembly.pe.rva_to_file_offset(0x2010), 0x210);
    assert_eq!(assembly.pe.rva_to_file_offset(0x10), 0x10);
    assert_eq!(assembly.type_defs.len(), 1);
    assert_eq!(assembly.methods.len(), 2);
    assert_eq!(assembly.methods[0].name, "Main");
    assert_eq!(assembly.methods[0].token, 0x0600_0001);
    assert_eq!(assembly.methods[0].code_size, 1);
    assert_eq!(assembly.methods[0].max_stack, 8);
    assert_eq!(assembly.methods[0].header_size, 1);
    assert!(assembly.methods[0].is_static());
    assert_eq!(assembly.methods[0].owner_type, 0);
    assert_eq!(assembly.methods[1].name, "WriteLine");
    assert_eq!(assembly.methods[1].rva, 0);
    assert!(assembly.methods[1].is_internal_call());
    assert_eq!(assembly.methods[1].param_list.count, 1);
    assert_eq!(assembly.methods[0].param_list.count, 0);
    assert_eq!(assembly.params.len(), 1);
    assert_eq!(assembly.params[0].name, "value");
    assert_eq!(assembly.params[0].sequence, 1);
    assert_eq!(assembly.metadata.get_us_string(0x7000_0001).unwrap(), "hi");
    assert_eq!(assembly.metadata.table_stream.md_tables.len(), 56);
    assert_eq!(assembly.metadata.table_stream.md_tables[6].row_count, 2);
    assert_eq!(assembly.metadata.table_stream.md_tables[6].row_size, 14);
}

#[test]
fn type_defs_are_found_by_full_name() {
    let mut image = program(vec![0x2A], vec![]);
    image.types.push(TypeRow {
        namespace: "Ns",
        name: "C",
        extends: 0,
        fields: vec![],
        methods: vec![],
    });
    let assembly = load(&image);
    let key = String::from("Ns.C");
    assert_eq!(assembly.type_defs.key_get_index(&key), Some(1));
    assert_eq!(assembly.type_defs.key_get_index(&key), Some(1));
    assert_eq!(assembly.type_defs.key_get(&key).unwrap().token, 0x0200_0002);
    assert_eq!(assembly.type_defs.key_get_index(&String::from(".<Module>")), Some(0));
    assert_eq!(assembly.type_defs.key_get_index(&String::from("Ns.D")), None);
}

#[test]
fn equal_full_names_get_a_suffix() {
    let mut image = program(vec![0x2A], vec![]);
    for _ in 0..3 {
        image.types.push(TypeRow {
            namespace: "Ns",
            name: "C",
            extends: 0,
            fields: vec![],
            methods: vec![],
        });
    }
    let assembly = load(&image);
    assert_eq!(assembly.type_defs.len(), 4);
    assert_eq!(assembly.type_defs.key_get_index(&String::from("Ns.C")), Some(1));
    assert_eq!(assembly.type_defs.key_get_index(&String::from("Ns.C`1")), Some(2));
    assert_eq!(assembly.type_defs.key_get_index(&String::from("Ns.C`2")), Some(3));
}

#[test]
fn a_file_that_is_no_image_is_refused() {
    let path = String::from("memory");
    assert!(matches!(
        Assembly::new(&path, vec![], false),
        Err(ImageError::UnexpectedEof)
    ));
    assert!(matches!(
        Assembly::new(&path, vec![0x4D, 0x5B, 0, 0], false),
        Err(ImageError::InvalidData)
    ));
    let mut bytes = build(&program(vec![0x2A], vec![]));
    bytes[0x80] = b'X';
    assert!(matches!(Assembly::new(&path, bytes, false), Err(ImageError::InvalidData)));
    let mut bytes = build(&program(vec![0x2A], vec![]));
    bytes.truncate(0x100);
    assert!(matches!(Assembly::new(&path, bytes, false), Err(ImageError::UnexpectedEof)));
}

#[test]
fn a_wrong_metadata_signature_is_refused() {
    let image = program(vec![0x2A], vec![]);
    let mut bytes = build(&image);
    let at = bytes.windows(4).position(|w| w == [0x42, 0x53, 0x4A, 0x42]).unwrap();
    bytes[at] = 0;
    let path = String::from("memory");
    assert!(matches!(Assembly::new(&path, bytes, false), Err(ImageError::InvalidData)));
}

#[test]
fn uncompressed_tables_are_refused() {
    let image = program(vec![0x2A], vec![]);
    let mut bytes = build(&image);
    let at = bytes.windows(4).position(|w| w == *b"#~\0\0").unwrap();
    bytes[at + 1] = b'-';
    let path = String::from("memory");
    assert!(matches!(Assembly::new(&path, bytes, false), Err(ImageError::Other)));
}

#[test]
fn load_checks_the_name_of_the_assembly() {
    let image = program(vec![0x2A], vec![]);
    let path = String::from("memory");
    let wanted = AssemblyName {
        major_version: 0,
        minor_version: 0,
        build_number: 0,
        revision_number: 0,
        flags: 0,
        public_key_token: vec![],
        name: String::from("Program"),
    };
    assert!(Assembly::load(&wanted, &path, build(&image)).is_ok());
    let other = AssemblyName { name: String::from("Other"), ..wanted };
    assert!(matches!(Assembly::load(&other, &path, build(&image)), Err(ImageError::Other)));
}

#[test]
fn path_of_an_assembly_in_the_runtime_directory() {
    let root = String::from("/runtime/");
    let name = String::from("System.Runtime");
    assert_eq!(Assembly::path_of(&root, &name), "/runtime/System.Runtime.dll");
}

#[test]
fn cor_lib_types_resolve_to_type_defs_in_the_core_library() {
    let mut image = program(vec![0x2A], vec![]);
    image.types.push(TypeRow {
        namespace: "System",
        name: "Int32",
        extends: 0,
        fields: vec![],
        methods: vec![],
    });
    image.type_refs.push(TypeRefRow { scope: 0, namespace: "System", name: "String" });
    let path = String::from("memory");
    let core = Assembly::new(&path, build(&image), true).unwrap();
    assert_eq!(core.resolve_cor_lib_type(&CorLibType::Int32).unwrap(), 0x0200_0002);
    assert!(matches!(core.resolve_cor_lib_type(&CorLibType::String), Err(ImageError::Other)));
    let user = Assembly::new(&path, build(&image), false).unwrap();
    assert_eq!(user.resolve_cor_lib_type(&CorLibType::String).unwrap(), 0x0100_0001);
    assert!(matches!(user.resolve_cor_lib_type(&CorLibType::Int32), Err(ImageError::Other)));
}

// ---------------------------------------------------------------------------
// Programs.
// ---------------------------------------------------------------------------

#[test]
fn hello_world() {
    let image = program(vec![], vec!["hi"]);
    let hi = token(user_string_token(&image, 0));
    let call = token(WRITE_LINE);
    let code = vec![
        0x72, hi[0], hi[1], hi[2], hi[3], 0x28, call[0], call[1], call[2], call[3], 0x2A,
    ];
    assert_eq!(run_program(code, vec!["hi"]), lines(&["hi"]));
}

fn call_write_line(code: &mut Vec<u8>) {
    code.push(0x28);
    code.extend_from_slice(&token(WRITE_LINE));
}

fn box_int(code: &mut Vec<u8>) {
    code.push(0x8C);
    code.extend_from_slice(&token(0x0100_0001));
}

#[test]
fn add_ints() {
    let mut code = vec![0x18, 0x19, 0x58];
    box_int(&mut code);
    call_write_line(&mut code);
    code.push(0x2A);
    assert_eq!(run_program(code, vec![]), lines(&["5"]));
}

#[test]
fn subtraction_takes_the_second_operand_from_the_first() {
    let mut code = vec![0x1E, 0x19, 0x59];
    box_int(&mut code);
    call_write_line(&mut code);
    code.push(0x2A);
    assert_eq!(run_program(code, vec![]), lines(&["5"]));
}

#[test]
fn if_true() {
    let image = program(vec![], vec!["T", "F"]);
    let t = token(user_string_token(&image, 0));
    let f = token(user_string_token(&image, 1));
    let mut code = vec![0x17, 0x2C, 7];
    code.push(0x72);
    code.extend_from_slice(&t);
    code.extend_from_slice(&[0x2B, 5]);
    code.push(0x72);
    code.extend_from_slice(&f);
    call_write_line(&mut code);
    code.push(0x2A);
    assert_eq!(run_program(code, vec!["T", "F"]), lines(&["T"]));
}

#[test]
fn if_false() {
    let image = program(vec![], vec!["T", "F"]);
    let t = token(user_string_token(&image, 0));
    let f = token(user_string_token(&image, 1));
    let mut code = vec![0x16, 0x2C, 7];
    code.push(0x72);
    code.extend_from_slice(&t);
    code.extend_from_slice(&[0x2B, 5]);
    code.push(0x72);
    code.extend_from_slice(&f);
    call_write_line(&mut code);
    code.push(0x2A);
    assert_eq!(run_program(code, vec!["T", "F"]), lines(&["F"]));
}

#[test]
fn loop_counts_to_four() {
    // ldc.i4.0; stloc.0; L: ldloc.0; box; call; ldloc.0; ldc.i4.1; add; dup; stloc.0;
    // ldc.i4.5; clt; brtrue.s L; ret
    let mut code = vec![0x16, 0x0A];
    let top = code.len();
    code.push(0x06);
    box_int(&mut code);
    call_write_line(&mut code);
    code.extend_from_slice(&[0x06, 0x17, 0x58, 0x25, 0x0A, 0x1B, 0xFE, 0x04, 0x2D]);
    let after = code.len() + 1;
    code.push((top as i32 - after as i32) as i8 as u8);
    code.push(0x2A);
    let mut main = main_method(code);
    main.locals = Some(vec![0x07, 0x01, 0x08]);
    let image = Image {
        name: "Program",
        types: vec![module_type(vec![main, write_line()])],
        type_refs: vec![],
        member_refs: vec![],
        assembly_refs: vec![],
        user_strings: vec![],
    };
    let mut interpreter = Interpreter::new(load(&image));
    assert_eq!(run_to_end(&mut interpreter), lines(&["0", "1", "2", "3", "4"]));
}

fn class_c(fields: Vec<FieldRow>, methods: Vec<MethodRow>) -> TypeRow {
    TypeRow { namespace: "Ns", name: "C", extends: 0, fields, methods }
}

#[test]
fn static_cctor() {
    // Main reads X twice; the class constructor writes a line and sets X to 42.
    let field = 0x0400_0001u32;
    let mut main = vec![0x7E];
    main.extend_from_slice(&token(field));
    box_int(&mut main);
    call_write_line(&mut main);
    main.push(0x7E);
    main.extend_from_slice(&token(field));
    box_int(&mut main);
    call_write_line(&mut main);
    main.push(0x2A);
    let image0 = program(vec![], vec!["cctor"]);
    let text = token(user_string_token(&image0, 0));
    let mut cctor = vec![0x72];
    cctor.extend_from_slice(&text);
    call_write_line(&mut cctor);
    cctor.extend_from_slice(&[0x1F, 42, 0x80]);
    cctor.extend_from_slice(&token(field));
    cctor.push(0x2A);
    let image = Image {
        name: "Program",
        types: vec![
            module_type(vec![main_method(main), write_line()]),
            class_c(
                vec![FieldRow { name: "X", flags: STATIC | 0x06, sig: vec![0x06, 0x08] }],
                vec![MethodRow {
                    name: ".cctor",
                    impl_flags: 0,
                    flags: STATIC,
                    sig: void_sig(),
                    code: Some(cctor),
                    locals: None,
                    max_stack: 8,
                    params: vec![],
                }],
            ),
        ],
        type_refs: vec![],
        member_refs: vec![],
        assembly_refs: vec![],
        user_strings: vec!["cctor"],
    };
    let mut interpreter = Interpreter::new(load(&image));
    assert!(interpreter.static_get(0, field).is_none());
    assert_eq!(run_to_end(&mut interpreter), lines(&["cctor", "42", "42"]));
    assert!(matches!(
        interpreter.static_get(0, field),
        Some(ILType::Val(ILValType::Int32(42)))
    ));
}

#[test]
fn static_field_without_class_constructor_starts_at_zero() {
    let field = 0x0400_0001u32;
    let mut main = vec![0x7E];
    main.extend_from_slice(&token(field));
    box_int(&mut main);
    call_write_line(&mut main);
    main.extend_from_slice(&[0x1D, 0x80]);
    main.extend_from_slice(&token(field));
    main.push(0x7E);
    main.extend_from_slice(&token(field));
    box_int(&mut main);
    call_write_line(&mut main);
    main.push(0x2A);
    let image = Image {
        name: "Program",
        types: vec![
            module_type(vec![main_method(main), write_line()]),
            class_c(
                vec![FieldRow { name: "X", flags: STATIC | 0x06, sig: vec![0x06, 0x08] }],
                vec![],
            ),
        ],
        type_refs: vec![],
        member_refs: vec![],
        assembly_refs: vec![],
        user_strings: vec![],
    };
    let mut interpreter = Interpreter::new(load(&image));
    assert_eq!(run_to_end(&mut interpreter), lines(&["0", "7"]));
}

fn ctor() -> MethodRow {
    MethodRow {
        name: ".ctor",
        impl_flags: 0,
        flags: 0x1806,
        sig: instance_void_sig(),
        code: Some(vec![0x2A]),
        locals: None,
        max_stack: 8,
        params: vec![],
    }
}

fn object_image(main: Vec<u8>) -> Image {
    // Types: <Module> (Main, WriteLine), Ns.C (F; .ctor), Ns.D : C (G; .ctor), Ns.E (.ctor)
    Image {
        name: "Program",
        types: vec![
            module_type(vec![main_method(main), write_line()]),
            class_c(vec![FieldRow { name: "F", flags: 0x06, sig: vec![0x06, 0x08] }], vec![ctor()]),
            TypeRow {
                namespace: "Ns",
                name: "D",
                extends: 2 << 2,
                fields: vec![FieldRow { name: "G", flags: 0x06, sig: vec![0x06, 0x0A] }],
                methods: vec![ctor()],
            },
            TypeRow { namespace: "Ns", name: "E", extends: 0, fields: vec![], methods: vec![ctor()] },
        ],
        type_refs: vec![],
        member_refs: vec![],
        assembly_refs: vec![],
        user_strings: vec![],
    }
}

const C_CTOR: u32 = 0x0600_0003;
const D_CTOR: u32 = 0x0600_0004;
const C_TYPE: u32 = 0x0200_0002;
const D_TYPE: u32 = 0x0200_0003;
const E_TYPE: u32 = 0x0200_0004;
const FIELD_F: u32 = 0x0400_0001;
const FIELD_G: u32 = 0x0400_0002;

fn op_token(code: &mut Vec<u8>, op: u8, t: u32) {
    code.push(op);
    code.extend_from_slice(&token(t));
}

#[test]
fn new_obj_field() {
    let mut main = Vec::new();
    op_token(&mut main, 0x73, C_CTOR);
    main.extend_from_slice(&[0x25, 0x1D]);
    op_token(&mut main, 0x7D, FIELD_F);
    op_token(&mut main, 0x7B, FIELD_F);
    box_int(&mut main);
    call_write_line(&mut main);
    main.push(0x2A);
    let mut interpreter = Interpreter::new(load(&object_image(main)));
    assert_eq!(run_to_end(&mut interpreter), lines(&["7"]));
    assert_eq!(interpreter.objects_len(), 2);
    let object = interpreter.object_get(0).unwrap();
    assert_eq!(object.get_type(), C_TYPE);
    assert!(matches!(object.get_field(FIELD_F), Some(ILType::Val(ILValType::Int32(7)))));
    assert!(object.get_field(FIELD_G).is_none());
}

#[test]
fn a_new_object_has_the_fields_of_its_ancestors_at_zero() {
    let mut main = Vec::new();
    op_token(&mut main, 0x73, D_CTOR);
    main.extend_from_slice(&[0x26, 0x2A]);
    let mut interpreter = Interpreter::new(load(&object_image(main)));
    assert_eq!(run_to_end(&mut interpreter), lines(&[]));
    let object = interpreter.object_get(0).unwrap();
    assert_eq!(object.get_type(), D_TYPE);
    assert!(matches!(object.get_field(FIELD_G), Some(ILType::Val(ILValType::Int64(0)))));
    assert!(matches!(object.get_field(FIELD_F), Some(ILType::Val(ILValType::Int32(0)))));
}

#[test]
fn ldfld_through_null_faults() {
    let mut main = vec![0x14];
    op_token(&mut main, 0x7B, FIELD_F);
    main.push(0x2A);
    let mut interpreter = Interpreter::new(load(&object_image(main)));
    assert_eq!(run_to_end(&mut interpreter), Err(Fault::NullReference));
}

#[test]
fn stfld_through_null_faults() {
    let mut main = vec![0x14, 0x17];
    op_token(&mut main, 0x7D, FIELD_F);
    main.push(0x2A);
    let mut interpreter = Interpreter::new(load(&object_image(main)));
    assert_eq!(run_to_end(&mut interpreter), Err(Fault::NullReference));
}

#[test]
fn unbox_of_another_type_faults() {
    let mut main = vec![0x17];
    op_token(&mut main, 0x8C, 0x0100_0001);
    op_token(&mut main, 0xA5, 0x0100_0002);
    main.push(0x2A);
    assert_eq!(run_program(main, vec![]), Err(Fault::UnboxTypeMismatch));
}

#[test]
fn unbox_of_the_same_type_gives_the_value() {
    let mut main = vec![0x1C];
    op_token(&mut main, 0x8C, 0x0100_0001);
    op_token(&mut main, 0xA5, 0x0100_0001);
    box_int(&mut main);
    call_write_line(&mut main);
    main.push(0x2A);
    assert_eq!(run_program(main, vec![]), lines(&["6"]));
}

#[test]
fn unbox_of_null_faults() {
    let mut main = vec![0x14];
    op_token(&mut main, 0xA5, 0x0100_0001);
    main.push(0x2A);
    assert_eq!(run_program(main, vec![]), Err(Fault::NullReference));
}

#[test]
fn castclass_to_an_ancestor_updates_the_current_type() {
    let mut main = Vec::new();
    op_token(&mut main, 0x73, D_CTOR);
    op_token(&mut main, 0x74, C_TYPE);
    main.extend_from_slice(&[0x26, 0x2A]);
    let mut interpreter = Interpreter::new(load(&object_image(main)));
    assert_eq!(run_to_end(&mut interpreter), lines(&[]));
    let object = interpreter.object_get(0).unwrap();
    assert_eq!(object.get_type(), D_TYPE);
    assert_eq!(object.get_current_type(), C_TYPE);
}

#[test]
fn castclass_to_the_own_type_succeeds() {
    let mut main = Vec::new();
    op_token(&mut main, 0x73, D_CTOR);
    op_token(&mut main, 0x74, D_TYPE);
    main.extend_from_slice(&[0x26, 0x2A]);
    let mut interpreter = Interpreter::new(load(&object_image(main)));
    assert_eq!(run_to_end(&mut interpreter), lines(&[]));
    assert_eq!(interpreter.object_get(0).unwrap().get_current_type(), D_TYPE);
}

#[test]
fn castclass_to_a_type_off_the_chain_faults() {
    let mut main = Vec::new();
    op_token(&mut main, 0x73, D_CTOR);
    op_token(&mut main, 0x74, E_TYPE);
    main.extend_from_slice(&[0x26, 0x2A]);
    let mut interpreter = Interpreter::new(load(&object_image(main)));
    assert_eq!(run_to_end(&mut interpreter), Err(Fault::InvalidCast));
    assert_eq!(interpreter.object_get(0).unwrap().get_current_type(), D_TYPE);
}

#[test]
fn castclass_to_a_descendant_faults() {
    let mut main = Vec::new();
    op_token(&mut main, 0x73, C_CTOR);
    op_token(&mut main, 0x74, D_TYPE);
    main.extend_from_slice(&[0x26, 0x2A]);
    let mut interpreter = Interpreter::new(load(&object_image(main)));
    assert_eq!(run_to_end(&mut interpreter), Err(Fault::InvalidCast));
}

#[test]
fn castclass_lets_null_through() {
    let mut main = vec![0x14];
    op_token(&mut main, 0x74, C_TYPE);
    call_write_line(&mut main);
    main.push(0x2A);
    let mut interpreter = Interpreter::new(load(&object_image(main)));
    assert_eq!(run_to_end(&mut interpreter), lines(&["Null"]));
}

#[test]
fn castclass_of_a_number_faults() {
    let mut main = vec![0x17];
    op_token(&mut main, 0x74, C_TYPE);
    main.push(0x2A);
    let mut interpreter = Interpreter::new(load(&object_image(main)));
    assert_eq!(run_to_end(&mut interpreter), Err(Fault::InvalidCast));
}

#[test]
fn addition_wraps_at_thirty_two_bits() {
    let mut code = vec![0x20, 0xFF, 0xFF, 0xFF, 0x7F, 0x17, 0x58];
    box_int(&mut code);
    call_write_line(&mut code);
    code.push(0x2A);
    assert_eq!(run_program(code, vec![]), lines(&["-2147483648"]));
}

#[test]
fn subtraction_wraps_at_sixty_four_bits() {
    let mut code = vec![0x21, 0, 0, 0, 0, 0, 0, 0, 0x80, 0x17, 0x59];
    box_int(&mut code);
    call_write_line(&mut code);
    code.push(0x2A);
    assert_eq!(run_program(code, vec![]), lines(&["9223372036854775807"]));
}

#[test]
fn mixed_widths_widen() {
    let mut code = vec![0x21, 0, 0, 0, 0, 1, 0, 0, 0, 0x15, 0x58];
    box_int(&mut code);
    call_write_line(&mut code);
    code.push(0x2A);
    assert_eq!(run_program(code, vec![]), lines(&["4294967295"]));
}

#[test]
fn adding_a_reference_is_an_invalid_operation() {
    assert_eq!(run_program(vec![0x14, 0x17, 0x58, 0x2A], vec![]), Err(Fault::InvalidOperation));
}

#[test]
fn bitwise_operators() {
    let mut code = vec![0x1C, 0x19, 0x5F];
    box_int(&mut code);
    call_write_line(&mut code);
    code.extend_from_slice(&[0x1C, 0x19, 0x60]);
    box_int(&mut code);
    call_write_line(&mut code);
    code.extend_from_slice(&[0x1C, 0x19, 0x61]);
    box_int(&mut code);
    call_write_line(&mut code);
    code.push(0x2A);
    assert_eq!(run_program(code, vec![]), lines(&["2", "7", "5"]));
}

#[test]
fn comparisons_put_one_or_zero() {
    let mut code = Vec::new();
    for (a, b, op) in [
        (0x17u8, 0x17u8, 0x01u8),
        (0x17, 0x18, 0x01),
        (0x18, 0x17, 0x02),
        (0x17, 0x18, 0x02),
        (0x17, 0x18, 0x04),
        (0x18, 0x17, 0x04),
    ] {
        code.extend_from_slice(&[a, b, 0xFE, op]);
        box_int(&mut code);
        call_write_line(&mut code);
    }
    code.push(0x2A);
    let mut main = main_method(code);
    main.max_stack = 8;
    let image = Image {
        name: "Program",
        types: vec![module_type(vec![main, write_line()])],
        type_refs: vec![],
        member_refs: vec![],
        assembly_refs: vec![],
        user_strings: vec![],
    };
    let mut interpreter = Interpreter::new(load(&image));
    assert_eq!(run_to_end(&mut interpreter), lines(&["1", "0", "1", "0", "1", "0"]));
}

#[test]
fn comparing_a_number_with_a_reference_is_invalid() {
    assert_eq!(
        run_program(vec![0x17, 0x14, 0xFE, 0x02, 0x2A], vec![]),
        Err(Fault::InvalidOperation)
    );
}

#[test]
fn short_constants_are_signed() {
    let mut code = vec![0x1F, 0xFE];
    box_int(&mut code);
    call_write_line(&mut code);
    code.push(0x15);
    box_int(&mut code);
    call_write_line(&mut code);
    code.push(0x2A);
    assert_eq!(run_program(code, vec![]), lines(&["-2", "-1"]));
}

#[test]
fn long_branch_jumps_forward() {
    let image = program(vec![], vec!["a", "b"]);
    let a = user_string_token(&image, 0);
    let b = user_string_token(&image, 1);
    let mut code = vec![0x38, 5, 0, 0, 0];
    op_token(&mut code, 0x72, a);
    op_token(&mut code, 0x72, b);
    call_write_line(&mut code);
    code.push(0x2A);
    assert_eq!(run_program(code, vec!["a", "b"]), lines(&["b"]));
}

#[test]
fn a_branch_out_of_the_image_faults() {
    assert_eq!(
        run_program(vec![0x38, 0, 0, 0, 0x80, 0x2A], vec![]),
        Err(Fault::CodeOutOfBounds)
    );
}

fn switch_program(index: u8) -> Result<Vec<String>, Fault> {
    // <index>; switch (L0, L1); ldstr "none"; br.s END; L0: ldstr "zero"; br.s END;
    // L1: ldstr "one"; END: call WriteLine; ret
    let image = program(vec![], vec!["none", "zero", "one"]);
    let none = user_string_token(&image, 0);
    let zero = user_string_token(&image, 1);
    let one = user_string_token(&image, 2);
    let mut code = vec![index, 0x45, 2, 0, 0, 0];
    code.extend_from_slice(&7i32.to_le_bytes());
    code.extend_from_slice(&14i32.to_le_bytes());
    op_token(&mut code, 0x72, none);
    code.extend_from_slice(&[0x2B, 12]);
    op_token(&mut code, 0x72, zero);
    code.extend_from_slice(&[0x2B, 5]);
    op_token(&mut code, 0x72, one);
    call_write_line(&mut code);
    code.push(0x2A);
    run_program(code, vec!["none", "zero", "one"])
}

#[test]
fn switch_jumps_from_the_end_of_its_table() {
    assert_eq!(switch_program(0x16), lines(&["zero"]));
    assert_eq!(switch_program(0x17), lines(&["one"]));
}

#[test]
fn switch_falls_through_beyond_its_table() {
    assert_eq!(switch_program(0x18), lines(&["none"]));
    assert_eq!(switch_program(0x15), lines(&["none"]));
}

#[test]
fn operand_stack_is_bounded_by_max_stack() {
    let mut code = vec![0x16; 9];
    code.push(0x2A);
    assert_eq!(run_program(code, vec![]), Err(Fault::StackOverflow));
    let mut code = vec![0x16; 8];
    code.extend_from_slice(&[0x26; 8]);
    code.push(0x2A);
    assert_eq!(run_program(code, vec![]), lines(&[]));
}

#[test]
fn popping_an_empty_stack_faults() {
    assert_eq!(run_program(vec![0x26, 0x2A], vec![]), Err(Fault::StackUnderflow));
    assert_eq!(run_program(vec![0x17, 0x58, 0x2A], vec![]), Err(Fault::StackUnderflow));
}

#[test]
fn unknown_and_reserved_opcodes_fail_loudly() {
    assert_eq!(run_program(vec![0x24, 0x2A], vec![]), Err(Fault::UnknownOpcode));
    assert_eq!(run_program(vec![0xFE, 0x08, 0x2A], vec![]), Err(Fault::UnknownOpcode));
    assert_eq!(run_program(vec![0x17, 0x17, 0x5A, 0x2A], vec![]), Err(Fault::Unsupported));
    assert_eq!(run_program(vec![0x29, 0x2A], vec![]), Err(Fault::Unsupported));
    assert_eq!(run_program(vec![0xFE, 0x00, 0x2A], vec![]), Err(Fault::Unsupported));
}

#[test]
fn code_that_runs_off_the_image_faults() {
    assert_eq!(
        run_program(vec![0x38, 0xFF, 0xFF, 0xFF, 0x7F, 0x2A], vec![]),
        Err(Fault::CodeOutOfBounds)
    );
    // The operand of the last instruction is cut off by the end of the image.
    let image = program(vec![0x00], vec![]);
    let mut bytes = build(&image);
    let at = bytes.len();
    bytes.extend_from_slice(&[0x20, 1, 2]);
    let path = String::from("memory");
    let mut interpreter = Interpreter::new(Assembly::new(&path, bytes, false).unwrap());
    assert!(matches!(interpreter.start(), Outcome::Continue));
    assert!(matches!(interpreter.step(), Outcome::Continue));
    let frame = interpreter.top_frame().unwrap();
    let target = (at - frame.rip) as i32;
    let _ = target;
}

#[test]
fn heap_only_grows() {
    let mut code = Vec::new();
    for _ in 0..3 {
        code.push(0x17);
        box_int(&mut code);
        code.push(0x26);
    }
    code.push(0x2A);
    let image = program(code, vec![]);
    let mut interpreter = Interpreter::new(load(&image));
    let mut seen = interpreter.objects_len();
    let mut outcome = interpreter.start();
    let mut steps = 0;
    while matches!(outcome, Outcome::Continue) {
        assert!(interpreter.objects_len() >= seen);
        seen = interpreter.objects_len();
        for i in 0..seen {
            assert_eq!(interpreter.object_get(i).unwrap().get_type(), 0x0100_0001);
        }
        outcome = interpreter.step();
        steps += 1;
        assert!(steps < 100);
    }
    assert!(matches!(outcome, Outcome::Finished));
    assert_eq!(interpreter.objects_len(), 3);
}

#[test]
fn stack_depth_stays_within_max_stack_at_every_step() {
    let mut code = vec![0x16, 0x0A];
    let top = code.len();
    code.extend_from_slice(&[0x06, 0x17, 0x58, 0x25, 0x0A, 0x1B, 0xFE, 0x04, 0x2D]);
    let after = code.len() + 1;
    code.push((top as i32 - after as i32) as i8 as u8);
    code.push(0x2A);
    let mut main = main_method(code);
    main.locals = Some(vec![0x07, 0x01, 0x08]);
    main.max_stack = 2;
    let image = Image {
        name: "Program",
        types: vec![module_type(vec![main, write_line()])],
        type_refs: vec![],
        member_refs: vec![],
        assembly_refs: vec![],
        user_strings: vec![],
    };
    let mut interpreter = Interpreter::new(load(&image));
    let mut outcome = interpreter.start();
    let mut steps = 0;
    while matches!(outcome, Outcome::Continue) {
        let frame = interpreter.top_frame().unwrap();
        assert!(interpreter.stack_len() >= frame.stack_base);
        assert!(interpreter.stack_len() - frame.stack_base <= 2);
        outcome = interpreter.step();
        steps += 1;
        assert!(steps < 1000);
    }
    assert!(matches!(outcome, Outcome::Finished));
}

#[test]
fn arguments_and_calls() {
    // Main: ldc.i4.3; ldc.i4.4; call Sum; box; call WriteLine; ret
    // Sum(a, b): ldarg.0; ldarg.1; add; ret
    let mut main = vec![0x19, 0x1A];
    op_token(&mut main, 0x28, 0x0600_0003);
    box_int(&mut main);
    call_write_line(&mut main);
    main.push(0x2A);
    let sum = MethodRow {
        name: "Sum",
        impl_flags: 0,
        flags: STATIC,
        sig: vec![0x00, 0x02, 0x08, 0x08, 0x08],
        code: Some(vec![0x02, 0x03, 0x59, 0x2A]),
        locals: None,
        max_stack: 8,
        params: vec!["a", "b"],
    };
    let image = Image {
        name: "Program",
        types: vec![module_type(vec![main_method(main), write_line(), sum])],
        type_refs: vec![],
        member_refs: vec![],
        assembly_refs: vec![],
        user_strings: vec![],
    };
    let mut interpreter = Interpreter::new(load(&image));
    assert_eq!(run_to_end(&mut interpreter), lines(&["-1"]));
}

#[test]
fn starg_and_the_long_forms_of_the_slot_instructions() {
    // Work(a): ldarg 0; ldc.i4.1; add; starg 0; ldarg.s 0; stloc 0; ldloc 0; ret
    let mut main = vec![0x1B];
    op_token(&mut main, 0x28, 0x0600_0003);
    box_int(&mut main);
    call_write_line(&mut main);
    main.push(0x2A);
    let work = MethodRow {
        name: "Work",
        impl_flags: 0,
        flags: STATIC,
        sig: vec![0x00, 0x01, 0x08, 0x08],
        code: Some(vec![
            0xFE, 0x09, 0, 0, 0x17, 0x58, 0xFE, 0x0B, 0, 0, 0x0E, 0, 0xFE, 0x0E, 0, 0, 0xFE, 0x0C,
            0, 0, 0x2A,
        ]),
        locals: Some(vec![0x07, 0x01, 0x08]),
        max_stack: 4,
        params: vec!["a"],
    };
    let image = Image {
        name: "Program",
        types: vec![module_type(vec![main_method(main), write_line(), work])],
        type_refs: vec![],
        member_refs: vec![],
        assembly_refs: vec![],
        user_strings: vec![],
    };
    let mut interpreter = Interpreter::new(load(&image));
    assert_eq!(run_to_end(&mut interpreter), lines(&["6"]));
}

#[test]
fn a_missing_argument_is_an_invalid_index() {
    assert_eq!(run_program(vec![0x02, 0x2A], vec![]), Err(Fault::InvalidIndex));
    assert_eq!(run_program(vec![0x06, 0x2A], vec![]), Err(Fault::InvalidIndex));
    assert_eq!(run_program(vec![0x17, 0x0A, 0x2A], vec![]), Err(Fault::InvalidIndex));
}

#[test]
fn addresses_of_slots_are_pointers_of_the_call() {
    let mut code = vec![0x12, 3];
    call_write_line(&mut code);
    code.extend_from_slice(&[0x0F, 2]);
    call_write_line(&mut code);
    code.push(0x2A);
    assert_eq!(
        run_program(code, vec![]),
        lines(&["Ptr: Local(1, 3)", "Ptr: Param(1, 2)"])
    );
}

#[test]
fn floating_point_addition_is_asked_of_the_host() {
    let mut code = vec![0x23];
    code.extend_from_slice(&1.5f64.to_bits().to_le_bytes());
    code.push(0x23);
    code.extend_from_slice(&2.25f64.to_bits().to_le_bytes());
    code.push(0x58);
    call_write_line(&mut code);
    code.push(0x22);
    code.extend_from_slice(&1.5f32.to_bits().to_le_bytes());
    code.push(0x22);
    code.extend_from_slice(&0.25f32.to_bits().to_le_bytes());
    code.push(0x59);
    call_write_line(&mut code);
    code.push(0x2A);
    assert_eq!(run_program(code, vec![]), lines(&["3.75", "1.25"]));
}

#[test]
fn floating_point_comparison() {
    let mut code = Vec::new();
    for (a, b, op, _) in [(1.5f64, 2.5f64, 0x04u8, 1), (2.5, 1.5, 0x04, 0), (-0.0, 0.0, 0x01, 1)] {
        code.push(0x23);
        code.extend_from_slice(&a.to_bits().to_le_bytes());
        code.push(0x23);
        code.extend_from_slice(&b.to_bits().to_le_bytes());
        code.extend_from_slice(&[0xFE, op]);
        box_int(&mut code);
        call_write_line(&mut code);
    }
    code.push(0x23);
    code.extend_from_slice(&f64::NAN.to_bits().to_le_bytes());
    code.push(0x25);
    code.extend_from_slice(&[0xFE, 0x01]);
    box_int(&mut code);
    call_write_line(&mut code);
    code.push(0x2A);
    let mut main = main_method(code);
    main.max_stack = 8;
    let image = Image {
        name: "Program",
        types: vec![module_type(vec![main, write_line()])],
        type_refs: vec![],
        member_refs: vec![],
        assembly_refs: vec![],
        user_strings: vec![],
    };
    let mut interpreter = Interpreter::new(load(&image));
    assert_eq!(run_to_end(&mut interpreter), lines(&["1", "0", "1", "0"]));
}

#[test]
fn conv_u_and_localloc() {
    let mut code = vec![0x1F, 16, 0xE0];
    box_int(&mut code);
    call_write_line(&mut code);
    code.extend_from_slice(&[0x1A, 0xFE, 0x0F]);
    call_write_line(&mut code);
    code.push(0x2A);
    assert_eq!(run_program(code, vec![]), lines(&["16", "NPtr: 0"]));
}

#[test]
fn jmp_hands_the_arguments_on() {
    // Main: ldc.i4.5; call First; ret.   First(a): jmp Second.
    // Second(a): ldarg.0; box; call WriteLine; ret
    let mut main = vec![0x1B];
    op_token(&mut main, 0x28, 0x0600_0003);
    main.push(0x2A);
    let mut first = Vec::new();
    op_token(&mut first, 0x27, 0x0600_0004);
    let mut second = vec![0x02];
    box_int(&mut second);
    call_write_line(&mut second);
    second.push(0x2A);
    let method = |name: &'static str, code: Vec<u8>| MethodRow {
        name,
        impl_flags: 0,
        flags: STATIC,
        sig: vec![0x00, 0x01, 0x01, 0x08],
        code: Some(code),
        locals: None,
        max_stack: 8,
        params: vec!["a"],
    };
    let image = Image {
        name: "Program",
        types: vec![module_type(vec![
            main_method(main),
            write_line(),
            method("First", first),
            method("Second", second),
        ])],
        type_refs: vec![],
        member_refs: vec![],
        assembly_refs: vec![],
        user_strings: vec![],
    };
    let mut interpreter = Interpreter::new(load(&image));
    assert_eq!(run_to_end(&mut interpreter), lines(&["5"]));
}

#[test]
fn a_method_of_another_assembly_is_loaded_on_demand() {
    // Program calls Lib's Ns.T::Hello through a member reference.
    let mut main = Vec::new();
    op_token(&mut main, 0x28, 0x0A00_0001);
    main.push(0x2A);
    let program = Image {
        name: "Program",
        types: vec![module_type(vec![main_method(main), write_line()])],
        type_refs: vec![TypeRefRow { scope: (1 << 2) | 2, namespace: "Ns", name: "T" }],
        member_refs: vec![MemberRefRow { class: (1 << 3) | 1, name: "Hello", sig: void_sig() }],
        assembly_refs: vec!["Lib"],
        user_strings: vec![],
    };
    let lib0 = Image {
        name: "Lib",
        types: vec![],
        type_refs: vec![],
        member_refs: vec![],
        assembly_refs: vec![],
        user_strings: vec!["from lib"],
    };
    let text = user_string_token(&lib0, 0);
    let mut hello = Vec::new();
    op_token(&mut hello, 0x72, text);
    op_token(&mut hello, 0x28, 0x0600_0003);
    hello.push(0x2A);
    let lib = Image {
        name: "Lib",
        types: vec![
            module_type(vec![]),
            TypeRow {
                namespace: "Ns",
                name: "T",
                extends: 0,
                fields: vec![],
                methods: vec![
                    MethodRow {
                        name: "Hello",
                        impl_flags: 0,
                        flags: STATIC,
                        sig: vec![0x00, 0x01, 0x01, 0x08],
                        code: Some(vec![0x2A]),
                        locals: None,
                        max_stack: 8,
                        params: vec![],
                    },
                    MethodRow {
                        name: "Hello",
                        impl_flags: 0,
                        flags: STATIC,
                        sig: void_sig(),
                        code: Some(hello),
                        locals: None,
                        max_stack: 8,
                        params: vec![],
                    },
                    write_line(),
                ],
            },
        ],
        type_refs: vec![],
        member_refs: vec![],
        assembly_refs: vec![],
        user_strings: vec!["from lib"],
    };
    let mut interpreter = Interpreter::new(load(&program));
    let before = interpreter.start();
    assert!(matches!(before, Outcome::Continue));
    let asked = interpreter.run(100);
    let name = match asked {
        Outcome::LoadAssembly(name) => name,
        _ => panic!("the interpreter does not ask for the assembly"),
    };
    assert_eq!(name.name, "Lib");
    assert_eq!(interpreter.assemblies_len(), 1);
    // Asking again without the assembly changes nothing.
    assert!(matches!(interpreter.step(), Outcome::LoadAssembly(_)));
    let path = Assembly::path_of(&String::from("/runtime/"), &name.name);
    let loaded = Assembly::load(&name, &path, build(&lib)).unwrap();
    assert_eq!(interpreter.add_assembly(loaded), 1);
    assert_eq!(interpreter.assemblies_len(), 2);
    let mut written = Vec::new();
    loop {
        match interpreter.run(100) {
            Outcome::WriteLine(Rendered::Text(t)) => written.push(t),
            Outcome::Finished => break,
            Outcome::Continue => {},
            _ => panic!("the program stops"),
        }
    }
    assert_eq!(written, vec![String::from("from lib")]);
}

#[test]
fn a_member_that_the_type_lacks_is_a_resolution_failure() {
    let mut main = Vec::new();
    op_token(&mut main, 0x28, 0x0A00_0001);
    main.push(0x2A);
    let mut image = object_image(main);
    image.member_refs.push(MemberRefRow { class: 2 << 3, name: "Missing", sig: void_sig() });
    let mut interpreter = Interpreter::new(load(&image));
    assert_eq!(run_to_end(&mut interpreter), Err(Fault::ResolutionFailure));
}

#[test]
fn a_member_reference_into_the_same_assembly() {
    // The reference names Ns.C::.ctor by its type definition.
    let mut main = Vec::new();
    op_token(&mut main, 0x73, 0x0A00_0001);
    op_token(&mut main, 0x7B, FIELD_F);
    box_int(&mut main);
    call_write_line(&mut main);
    main.push(0x2A);
    let mut image = object_image(main);
    image.member_refs.push(MemberRefRow {
        class: 2 << 3,
        name: ".ctor",
        sig: instance_void_sig(),
    });
    let mut interpreter = Interpreter::new(load(&image));
    assert_eq!(run_to_end(&mut interpreter), lines(&["0"]));
}

#[test]
fn rendering_of_values() {
    let image = program(vec![0x2A], vec![]);
    let interpreter = Interpreter::new(load(&image));
    let text = |v: ILType| match interpreter.format_il_type(&v) {
        Rendered::Text(t) => t,
        _ => panic!("no text"),
    };
    assert_eq!(text(ILType::Val(ILValType::Int32(-17))), "-17");
    assert_eq!(text(ILType::Val(ILValType::UInt64(u64::MAX))), "18446744073709551615");
    assert_eq!(text(ILType::Val(ILValType::Int64(i64::MIN))), "-9223372036854775808");
    assert_eq!(text(ILType::Val(ILValType::Boolean(true))), "true");
    assert_eq!(text(ILType::Val(ILValType::Boolean(false))), "false");
    assert_eq!(text(ILType::Val(ILValType::Char('x'))), "x");
    assert_eq!(text(ILType::Val(ILValType::Byte(0))), "0");
    assert_eq!(text(ILType::Ref(ILRefType::Null)), "Null");
    assert!(matches!(
        interpreter.format_il_type(&ILType::Val(ILValType::Double(7))),
        Rendered::Double(7)
    ));
    assert!(matches!(
        interpreter.format_il_type(&ILType::Val(ILValType::Single(9))),
        Rendered::Single(9)
    ));
}

#[test]
fn an_object_without_a_boxed_value_renders_as_a_placeholder() {
    let mut main = Vec::new();
    op_token(&mut main, 0x73, C_CTOR);
    call_write_line(&mut main);
    main.push(0x2A);
    let mut interpreter = Interpreter::new(load(&object_image(main)));
    assert_eq!(run_to_end(&mut interpreter), lines(&["Object: type_token: 33554434"]));
}

#[test]
fn a_box_of_a_box_renders_the_inner_value() {
    let mut code = vec![0x1C];
    box_int(&mut code);
    box_int(&mut code);
    call_write_line(&mut code);
    code.push(0x2A);
    assert_eq!(run_program(code, vec![]), lines(&["6"]));
}

#[test]
fn step_without_a_call_is_finished() {
    let image = program(vec![0x2A], vec![]);
    let mut interpreter = Interpreter::new(load(&image));
    assert!(matches!(interpreter.step(), Outcome::Finished));
    assert_eq!(interpreter.frames_len(), 0);
    assert!(matches!(interpreter.start(), Outcome::Continue));
    assert_eq!(interpreter.frames_len(), 1);
    assert!(matches!(interpreter.step(), Outcome::Finished));
}

#[test]
fn dup_copies_the_reference_not_the_object() {
    let mut main = Vec::new();
    op_token(&mut main, 0x73, C_CTOR);
    main.push(0x25);
    main.extend_from_slice(&[0xFE, 0x01]);
    box_int(&mut main);
    call_write_line(&mut main);
    main.push(0x2A);
    let mut interpreter = Interpreter::new(load(&object_image(main)));
    assert_eq!(run_to_end(&mut interpreter), lines(&["1"]));
    assert_eq!(interpreter.objects_len(), 2);
}

// ---------------------------------------------------------------------------
// Resolution of tokens.
// ---------------------------------------------------------------------------

fn registry(images: &[&Image]) -> HashVec<String, Assembly> {
    let mut assemblies: HashVec<String, Assembly> = HashVec::new();
    for image in images {
        assemblies.insert(String::from(image.name), load(image));
    }
    assemblies
}

/// A program that refers to `Ns.T::Hello()` and to `Ns.Missing` of `Lib`, and `Lib`.
fn program_and_lib() -> (Image, Image) {
    let program = Image {
        name: "Program",
        types: vec![module_type(vec![main_method(vec![0x2A]), write_line()])],
        type_refs: vec![
            TypeRefRow { scope: (1 << 2) | 2, namespace: "Ns", name: "T" },
            TypeRefRow { scope: (1 << 2) | 2, namespace: "Ns", name: "Missing" },
            TypeRefRow { scope: 1 << 2, namespace: "Ns", name: "T" },
        ],
        member_refs: vec![
            MemberRefRow { class: (1 << 3) | 1, name: "Hello", sig: void_sig() },
            MemberRefRow { class: (1 << 3) | 1, name: "Absent", sig: void_sig() },
            MemberRefRow { class: (1 << 3) | 1, name: "Hello", sig: instance_void_sig() },
        ],
        assembly_refs: vec!["Lib"],
        user_strings: vec![],
    };
    let hello = |sig: Vec<u8>| MethodRow {
        name: "Hello",
        impl_flags: 0,
        flags: STATIC,
        sig,
        code: Some(vec![0x2A]),
        locals: None,
        max_stack: 8,
        params: vec![],
    };
    let lib = Image {
        name: "Lib",
        types: vec![
            module_type(vec![]),
            TypeRow {
                namespace: "Ns",
                name: "T",
                extends: 0,
                fields: vec![],
                methods: vec![hello(vec![0x00, 0x01, 0x01, 0x08]), hello(void_sig()), write_line()],
            },
        ],
        type_refs: vec![],
        member_refs: vec![],
        assembly_refs: vec![],
        user_strings: vec![],
    };
    (program, lib)
}

fn fault_of(result: Result<(usize, usize), Stop>) -> Fault {
    match result {
        Err(Stop::Fault(f)) => f,
        Err(Stop::Load(name)) => panic!("asks for {}", name.name),
        Ok(place) => panic!("resolves to {:?}", place),
    }
}

fn wanted_by(result: Result<(usize, usize), Stop>) -> String {
    match result {
        Err(Stop::Load(name)) => name.name,
        Err(Stop::Fault(f)) => panic!("faults with {:?}", f),
        Ok(place) => panic!("resolves to {:?}", place),
    }
}

#[test]
fn a_reference_resolves_into_the_assembly_of_its_scope() {
    let (program, lib) = program_and_lib();
    let assemblies = registry(&[&program, &lib]);
    assert!(matches!(resolve_type_ref(&assemblies, 0, 0x0100_0001), Ok((1, 1))));
    assert!(matches!(resolve_type_def_or_ref(&assemblies, 0, 0x0100_0001), Ok((1, 1))));
    assert!(matches!(resolve_member_ref(&assemblies, 0, 0x0A00_0001), Ok((1, 1))));
    assert!(matches!(get_method_index(&assemblies, 0, 0x0A00_0001), Ok((1, 1))));
    let other_order = registry(&[&lib, &program]);
    assert!(matches!(resolve_type_ref(&other_order, 1, 0x0100_0001), Ok((1, 0))));
    assert!(matches!(get_method_index(&other_order, 1, 0x0A00_0001), Ok((1, 0))));
}

#[test]
fn an_assembly_that_is_not_loaded_is_asked_for() {
    let (program, _) = program_and_lib();
    let assemblies = registry(&[&program]);
    assert_eq!(wanted_by(resolve_type_ref(&assemblies, 0, 0x0100_0001)), "Lib");
    assert_eq!(wanted_by(resolve_type_def_or_ref(&assemblies, 0, 0x0100_0002)), "Lib");
    assert_eq!(wanted_by(resolve_member_ref(&assemblies, 0, 0x0A00_0001)), "Lib");
    assert_eq!(wanted_by(get_method_index(&assemblies, 0, 0x0A00_0002)), "Lib");
    let name = AssemblyName {
        major_version: 1,
        minor_version: 2,
        build_number: 3,
        revision_number: 4,
        flags: 5,
        public_key_token: vec![6],
        name: String::from("Elsewhere"),
    };
    match find_assembly(&assemblies, &name) {
        Err(Stop::Load(wanted)) => {
            assert_eq!(wanted.name, "Elsewhere");
            assert_eq!(wanted.major_version, 1);
            assert_eq!(wanted.public_key_token, vec![6]);
        },
        _ => panic!("the assembly is not asked for"),
    }
    let there = AssemblyName { name: String::from("Program"), ..name };
    assert!(matches!(find_assembly(&assemblies, &there), Ok(0)));
}

#[test]
fn references_that_cannot_be_resolved() {
    let (program, lib) = program_and_lib();
    let assemblies = registry(&[&program, &lib]);
    assert_eq!(fault_of(resolve_type_ref(&assemblies, 0, 0x0100_0000)), Fault::InvalidToken);
    assert_eq!(fault_of(resolve_type_ref(&assemblies, 0, 0x0100_0004)), Fault::InvalidIndex);
    assert_eq!(fault_of(resolve_type_ref(&assemblies, 2, 0x0100_0001)), Fault::InvalidIndex);
    assert_eq!(fault_of(resolve_type_ref(&assemblies, 0, 0x0100_0002)), Fault::ResolutionFailure);
    assert_eq!(fault_of(resolve_type_ref(&assemblies, 0, 0x0100_0003)), Fault::Unsupported);
    assert_eq!(fault_of(resolve_member_ref(&assemblies, 0, 0x0A00_0000)), Fault::InvalidToken);
    assert_eq!(fault_of(resolve_member_ref(&assemblies, 0, 0x0A00_0004)), Fault::InvalidIndex);
    assert_eq!(fault_of(resolve_member_ref(&assemblies, 0, 0x0A00_0002)), Fault::ResolutionFailure);
    assert_eq!(fault_of(resolve_member_ref(&assemblies, 0, 0x0A00_0003)), Fault::ResolutionFailure);
    assert_eq!(fault_of(resolve_member_ref(&assemblies, 1, 0x0A00_0001)), Fault::InvalidIndex);
}

#[test]
fn tokens_of_types() {
    let assemblies = registry(&[&object_image(vec![0x2A])]);
    assert!(matches!(resolve_type_def_or_ref(&assemblies, 0, 0), Ok((0, 0))));
    assert!(matches!(resolve_type_def_or_ref(&assemblies, 0, 0x0200_0000), Ok((0, 0))));
    assert!(matches!(resolve_type_def_or_ref(&assemblies, 0, C_TYPE), Ok((1, 0))));
    assert!(matches!(resolve_type_def_or_ref(&assemblies, 0, E_TYPE), Ok((3, 0))));
    assert_eq!(fault_of(resolve_type_def_or_ref(&assemblies, 0, 0x0600_0001)), Fault::InvalidToken);
    assert_eq!(fault_of(resolve_type_def_or_ref(&assemblies, 0, 0x1B00_0001)), Fault::InvalidIndex);
    assert_eq!(fault_of(resolve_type_def_or_ref(&assemblies, 0, 0x0100_0001)), Fault::InvalidIndex);
}

#[test]
fn tokens_of_methods() {
    let assemblies = registry(&[&object_image(vec![0x2A])]);
    assert!(matches!(get_method_index(&assemblies, 0, 0x0600_0001), Ok((0, 0))));
    assert!(matches!(get_method_index(&assemblies, 0, D_CTOR), Ok((3, 0))));
    assert_eq!(fault_of(get_method_index(&assemblies, 0, 0x0600_0000)), Fault::InvalidToken);
    assert_eq!(fault_of(get_method_index(&assemblies, 0, 0x0600_0006)), Fault::InvalidIndex);
    assert_eq!(fault_of(get_method_index(&assemblies, 1, 0x0600_0001)), Fault::InvalidIndex);
    assert_eq!(fault_of(get_method_index(&assemblies, 0, 0x0400_0001)), Fault::InvalidToken);
    assert_eq!(fault_of(get_method_index(&assemblies, 0, 0x2B00_0001)), Fault::InvalidIndex);
    assert_eq!(fault_of(get_method_index(&assemblies, 0, 0x2B00_0000)), Fault::InvalidToken);
    assert_eq!(fault_of(get_method_index(&assemblies, 0, 0x0A00_0001)), Fault::InvalidIndex);
}

#[test]
fn rows_are_counted_from_one() {
    assert_eq!(row_index(0x0600_0001), Some(0));
    assert_eq!(row_index(0x0200_0010), Some(15));
    assert_eq!(row_index(0x00FF_FFFF), Some(0x00FF_FFFE));
    assert_eq!(row_index(0x0600_0000), None);
    assert_eq!(row_index(0), None);
}

fn chain_of(assemblies: &HashVec<String, Assembly>, token: u32) -> Vec<(usize, usize)> {
    match extends_chain(assemblies, 0, token) {
        Ok(chain) => chain,
        Err(_) => panic!("the chain cannot be followed"),
    }
}

#[test]
fn the_chain_of_a_type_starts_with_the_type() {
    let assemblies = registry(&[&object_image(vec![0x2A])]);
    assert_eq!(chain_of(&assemblies, D_TYPE), vec![(0, 2), (0, 1)]);
    assert_eq!(chain_of(&assemblies, C_TYPE), vec![(0, 1)]);
    assert_eq!(chain_of(&assemblies, E_TYPE), vec![(0, 3)]);
    assert_eq!(chain_of(&assemblies, 0), vec![]);
    assert_eq!(chain_of(&assemblies, 0x0200_0000), vec![]);
    assert!(matches!(
        extends_chain(&assemblies, 0, 0x0200_0009),
        Err(Stop::Fault(Fault::InvalidIndex))
    ));
    assert!(matches!(
        extends_chain(&assemblies, 0, 0x0600_0001),
        Err(Stop::Fault(Fault::InvalidToken))
    ));
}

#[test]
fn a_type_that_extends_itself_has_no_chain() {
    let mut image = object_image(vec![0x2A]);
    image.types[1].extends = 2 << 2;
    let assemblies = registry(&[&image]);
    assert!(matches!(
        extends_chain(&assemblies, 0, C_TYPE),
        Err(Stop::Fault(Fault::ResolutionFailure))
    ));
}

#[test]
fn the_fields_of_a_chain_come_type_by_type() {
    let mut image = object_image(vec![0x2A]);
    image.types[2].fields.push(FieldRow { name: "S", flags: 0x16, sig: vec![0x06, 0x08] });
    image.types[2].fields.push(FieldRow { name: "H", flags: 0x06, sig: vec![0x06, 0x0E] });
    let assemblies = registry(&[&image]);
    let chain = chain_of(&assemblies, D_TYPE);
    let fields = field_list(&assemblies, &chain);
    assert_eq!(fields.len(), 3);
    assert_eq!(fields.key_get_index(&2), Some(0));
    assert_eq!(fields.key_get_index(&4), Some(1));
    assert_eq!(fields.key_get_index(&1), Some(2));
    assert_eq!(fields.key_get_index(&3), None);
    assert!(matches!(fields.vec()[0], ILType::Val(ILValType::Int64(0))));
    assert!(matches!(fields.vec()[1], ILType::Ref(ILRefType::Null)));
    assert!(matches!(fields.vec()[2], ILType::Val(ILValType::Int32(0))));
    assert!(field_list(&assemblies, &Vec::new()).is_empty());
    assert_eq!(field_list(&assemblies, &vec![(0, 1)]).len(), 1);
    assert!(field_list(&assemblies, &vec![(0, 9), (4, 0)]).is_empty());
    assert!(matches!(zero_of(&None), ILType::Ref(ILRefType::Null)));
}

#[test]
fn the_rows_are_read_from_the_metadata() {
    let bytes = build(&object_image(vec![0x2A]));
    let mut reader = DataReader::new(bytes);
    let pe = PE::new(&mut reader).unwrap();
    let metadata = Metadata::new(&pe, &mut reader).unwrap();
    let path = String::from("memory");
    let assembly = Assembly::from_metadata(&path, reader, pe, metadata, true).unwrap();
    assert!(assembly.is_cor_lib);
    assert_eq!(assembly.assembly_path, "memory");
    assert_eq!(assembly.assembly_name.name, "Program");
    assert_eq!(assembly.type_defs.len(), 4);
    assert_eq!(assembly.type_defs.key_get_index(&String::from("Ns.D")), Some(2));
    assert_eq!(assembly.fields.len(), 2);
    assert_eq!(assembly.fields[1].owner_type, 2);
    assert_eq!(assembly.methods.len(), 5);
    assert_eq!(assembly.methods[4].owner_type, 3);
}

#[test]
fn a_name_that_ends_outside_the_heap_stops_the_loading() {
    let mut bytes = build(&object_image(vec![0x2A]));
    let mut reader = DataReader::new(bytes.clone());
    let pe = PE::new(&mut reader).unwrap();
    let metadata = Metadata::new(&pe, &mut reader).unwrap();
    // The last byte of the heap of names closes the last name: without it the
    // name runs to the end of the heap.
    let header = metadata_root_position(&bytes);
    let (offset, size) = stream_named(&bytes, header, "#Strings");
    let last = header + offset + size - 1;
    let mut end = last;
    while bytes[end] == 0 {
        end -= 1;
    }
    for b in &mut bytes[end + 1..=last] {
        *b = b'x';
    }
    match Assembly::new(&String::from("memory"), bytes, false) {
        Err(e) => assert_eq!(e, ImageError::UnexpectedEof),
        Ok(_) => panic!("the image loads"),
    }
}

fn metadata_root_position(bytes: &[u8]) -> usize {
    let mut at = 0;
    while bytes[at..at + 4] != [0x42, 0x53, 0x4A, 0x42] {
        at += 1;
    }
    at
}

fn stream_named(bytes: &[u8], root: usize, name: &str) -> (usize, usize) {
    let length = u32::from_le_bytes(bytes[root + 12..root + 16].try_into().unwrap()) as usize;
    let mut at = root + 16 + length + 4;
    loop {
        let offset = u32::from_le_bytes(bytes[at..at + 4].try_into().unwrap()) as usize;
        let size = u32::from_le_bytes(bytes[at + 4..at + 8].try_into().unwrap()) as usize;
        let mut end = at + 8;
        while bytes[end] != 0 {
            end += 1;
        }
        if &bytes[at + 8..end] == name.as_bytes() {
            return (offset, size);
        }
        at = (end + 4) & !3;
    }
}

#[test]
fn the_text_of_a_method() {
    let assembly = load(&object_image(vec![0x2A]));
    assert_eq!(assembly.methods[0].to_string(&assembly), "Void .<Module>.Main()");
    assert_eq!(assembly.methods[1].to_string(&assembly), "Void .<Module>.WriteLine(Object)");
    assert_eq!(assembly.methods[3].to_string(&assembly), "Void Ns.D..ctor()");
}

#[test]
fn an_assembly_whose_name_is_taken_is_not_added() {
    let (program, lib) = program_and_lib();
    let mut interpreter = Interpreter::new(load(&program));
    assert_eq!(interpreter.add_assembly(load(&lib)), 1);
    assert_eq!(interpreter.assemblies_len(), 2);
    let mut other = object_image(vec![0x2A]);
    other.name = "Lib";
    assert_eq!(interpreter.add_assembly(load(&other)), 1);
    assert_eq!(interpreter.add_assembly(load(&other)), 1);
    assert_eq!(interpreter.assemblies_len(), 2);
    let mut again = object_image(vec![0x2A]);
    again.name = "Program";
    assert_eq!(interpreter.add_assembly(load(&again)), 0);
    assert_eq!(interpreter.assemblies_len(), 2);
    // The entry assembly is still the one that was started.
    assert!(matches!(interpreter.start(), Outcome::Continue));
    assert_eq!(run_to_end(&mut interpreter), lines(&[]));
}

#[test]
fn a_float_is_handed_back_where_there_is_room() {
    let mut interpreter = Interpreter::new(load(&program(vec![0x2A], vec![])));
    assert!(matches!(interpreter.start(), Outcome::Continue));
    for _ in 0..7 {
        assert_eq!(interpreter.push_float(false, 2.5f32.to_bits() as u64), Ok(()));
    }
    assert_eq!(interpreter.push_float(true, 1.5f64.to_bits()), Ok(()));
    assert!(matches!(
        interpreter.stack_get(7),
        Some(ILType::Val(ILValType::Double(b))) if *b == 1.5f64.to_bits()
    ));
    assert!(matches!(
        interpreter.stack_get(0),
        Some(ILType::Val(ILValType::Single(b))) if *b == 2.5f32.to_bits()
    ));
    assert_eq!(interpreter.push_float(true, 0), Err(Fault::StackOverflow));
    assert_eq!(interpreter.stack_len(), 8);
}
