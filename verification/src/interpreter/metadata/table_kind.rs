use vstd::prelude::*;

verus! {

/// The metadata tables, in the order of their numbers.
#[derive(Clone, Copy, PartialEq, Eq, Debug, Structural)]
pub enum MDTableType {
    /// Module table (00h)
    Module,
    /// TypeRef table (01h)
    TypeRef,
    /// TypeDef table (02h)
    TypeDef,
    /// FieldPtr table (03h)
    FieldPtr,
    /// Field table (04h)
    Field,
    /// MethodPtr table (05h)
    MethodPtr,
    /// Method table (06h)
    Method,
    /// ParamPtr table (07h)
    ParamPtr,
    /// Param table (08h)
    Param,
    /// InterfaceImpl table (09h)
    InterfaceImpl,
    /// MemberRef table (0Ah)
    MemberRef,
    /// Constant table (0Bh)
    Constant,
    /// CustomAttribute table (0Ch)
    CustomAttribute,
    /// FieldMarshal table (0Dh)
    FieldMarshal,
    /// DeclSecurity table (0Eh)
    DeclSecurity,
    /// ClassLayout table (0Fh)
    ClassLayout,
    /// FieldLayout table (10h)
    FieldLayout,
    /// StandAloneSig table (11h)
    StandAloneSig,
    /// EventMap table (12h)
    EventMap,
    /// EventPtr table (13h)
    EventPtr,
    /// Event table (14h)
    Event,
    /// PropertyMap table (15h)
    PropertyMap,
    /// PropertyPtr table (16h)
    PropertyPtr,
    /// Property table (17h)
    Property,
    /// MethodSemantics table (18h)
    MethodSemantics,
    /// MethodImpl table (19h)
    MethodImpl,
    /// ModuleRef table (1Ah)
    ModuleRef,
    /// TypeSpec table (1Bh)
    TypeSpec,
    /// ImplMap table (1Ch)
    ImplMap,
    /// FieldRVA table (1Dh)
    FieldRVA,
    /// ENCLog table (1Eh)
    ENCLog,
    /// ENCMap table (1Fh)
    ENCMap,
    /// Assembly table (20h)
    Assembly,
    /// AssemblyProcessor table (21h)
    AssemblyProcessor,
    /// AssemblyOS table (22h)
    AssemblyOS,
    /// AssemblyRef table (23h)
    AssemblyRef,
    /// AssemblyRefProcessor table (24h)
    AssemblyRefProcessor,
    /// AssemblyRefOS table (25h)
    AssemblyRefOS,
    /// File table (26h)
    File,
    /// ExportedType table (27h)
    ExportedType,
    /// ManifestResource table (28h)
    ManifestResource,
    /// NestedClass table (29h)
    NestedClass,
    /// GenericParam table (2Ah)
    GenericParam,
    /// MethodSpec table (2Bh)
    MethodSpec,
    /// GenericParamConstraint table (2Ch)
    GenericParamConstraint,
    /// Reserved
    X2D,
    /// Reserved slot 0x2e
    X2E,
    /// Reserved slot 0x2f
    X2F,
    /// (Portable PDB) Document table (30h)
    Document,
    /// (Portable PDB) MethodDebugInformation table (31h)
    MethodDebugInformation,
    /// (Portable PDB) LocalScope table (32h)
    LocalScope,
    /// (Portable PDB) LocalVariable table (33h)
    LocalVariable,
    /// (Portable PDB) LocalConstant table (34h)
    LocalConstant,
    /// (Portable PDB) ImportScope table (35h)
    ImportScope,
    /// (Portable PDB) StateMachineMethod table (36h)
    StateMachineMethod,
    /// (Portable PDB) CustomDebugInformation table (37h)
    CustomDebugInformation,
}

impl MDTableType {
    /// The number that stands for this kind in the metadata format.
    pub open spec fn spec_code(self) -> u8 {
        match self {
            MDTableType::Module => 0x00u8,
            MDTableType::TypeRef => 0x01u8,
            MDTableType::TypeDef => 0x02u8,
            MDTableType::FieldPtr => 0x03u8,
            MDTableType::Field => 0x04u8,
            MDTableType::MethodPtr => 0x05u8,
            MDTableType::Method => 0x06u8,
            MDTableType::ParamPtr => 0x07u8,
            MDTableType::Param => 0x08u8,
            MDTableType::InterfaceImpl => 0x09u8,
            MDTableType::MemberRef => 0x0au8,
            MDTableType::Constant => 0x0bu8,
            MDTableType::CustomAttribute => 0x0cu8,
            MDTableType::FieldMarshal => 0x0du8,
            MDTableType::DeclSecurity => 0x0eu8,
            MDTableType::ClassLayout => 0x0fu8,
            MDTableType::FieldLayout => 0x10u8,
            MDTableType::StandAloneSig => 0x11u8,
            MDTableType::EventMap => 0x12u8,
            MDTableType::EventPtr => 0x13u8,
            MDTableType::Event => 0x14u8,
            MDTableType::PropertyMap => 0x15u8,
            MDTableType::PropertyPtr => 0x16u8,
            MDTableType::Property => 0x17u8,
            MDTableType::MethodSemantics => 0x18u8,
            MDTableType::MethodImpl => 0x19u8,
            MDTableType::ModuleRef => 0x1au8,
            MDTableType::TypeSpec => 0x1bu8,
            MDTableType::ImplMap => 0x1cu8,
            MDTableType::FieldRVA => 0x1du8,
            MDTableType::ENCLog => 0x1eu8,
            MDTableType::ENCMap => 0x1fu8,
            MDTableType::Assembly => 0x20u8,
            MDTableType::AssemblyProcessor => 0x21u8,
            MDTableType::AssemblyOS => 0x22u8,
            MDTableType::AssemblyRef => 0x23u8,
            MDTableType::AssemblyRefProcessor => 0x24u8,
            MDTableType::AssemblyRefOS => 0x25u8,
            MDTableType::File => 0x26u8,
            MDTableType::ExportedType => 0x27u8,
            MDTableType::ManifestResource => 0x28u8,
            MDTableType::NestedClass => 0x29u8,
            MDTableType::GenericParam => 0x2au8,
            MDTableType::MethodSpec => 0x2bu8,
            MDTableType::GenericParamConstraint => 0x2cu8,
            MDTableType::X2D => 0x2du8,
            MDTableType::X2E => 0x2eu8,
            MDTableType::X2F => 0x2fu8,
            MDTableType::Document => 0x30u8,
            MDTableType::MethodDebugInformation => 0x31u8,
            MDTableType::LocalScope => 0x32u8,
            MDTableType::LocalVariable => 0x33u8,
            MDTableType::LocalConstant => 0x34u8,
            MDTableType::ImportScope => 0x35u8,
            MDTableType::StateMachineMethod => 0x36u8,
            MDTableType::CustomDebugInformation => 0x37u8,
        }
    }

    pub fn code(self) -> (c: u8)
        ensures
            c == self.spec_code(),
    {
        match self {
            MDTableType::Module => 0x00u8,
            MDTableType::TypeRef => 0x01u8,
            MDTableType::TypeDef => 0x02u8,
            MDTableType::FieldPtr => 0x03u8,
            MDTableType::Field => 0x04u8,
            MDTableType::MethodPtr => 0x05u8,
            MDTableType::Method => 0x06u8,
            MDTableType::ParamPtr => 0x07u8,
            MDTableType::Param => 0x08u8,
            MDTableType::InterfaceImpl => 0x09u8,
            MDTableType::MemberRef => 0x0au8,
            MDTableType::Constant => 0x0bu8,
            MDTableType::CustomAttribute => 0x0cu8,
            MDTableType::FieldMarshal => 0x0du8,
            MDTableType::DeclSecurity => 0x0eu8,
            MDTableType::ClassLayout => 0x0fu8,
            MDTableType::FieldLayout => 0x10u8,
            MDTableType::StandAloneSig => 0x11u8,
            MDTableType::EventMap => 0x12u8,
            MDTableType::EventPtr => 0x13u8,
            MDTableType::Event => 0x14u8,
            MDTableType::PropertyMap => 0x15u8,
            MDTableType::PropertyPtr => 0x16u8,
            MDTableType::Property => 0x17u8,
            MDTableType::MethodSemantics => 0x18u8,
            MDTableType::MethodImpl => 0x19u8,
            MDTableType::ModuleRef => 0x1au8,
            MDTableType::TypeSpec => 0x1bu8,
            MDTableType::ImplMap => 0x1cu8,
            MDTableType::FieldRVA => 0x1du8,
            MDTableType::ENCLog => 0x1eu8,
            MDTableType::ENCMap => 0x1fu8,
            MDTableType::Assembly => 0x20u8,
            MDTableType::AssemblyProcessor => 0x21u8,
            MDTableType::AssemblyOS => 0x22u8,
            MDTableType::AssemblyRef => 0x23u8,
            MDTableType::AssemblyRefProcessor => 0x24u8,
            MDTableType::AssemblyRefOS => 0x25u8,
            MDTableType::File => 0x26u8,
            MDTableType::ExportedType => 0x27u8,
            MDTableType::ManifestResource => 0x28u8,
            MDTableType::NestedClass => 0x29u8,
            MDTableType::GenericParam => 0x2au8,
            MDTableType::MethodSpec => 0x2bu8,
            MDTableType::GenericParamConstraint => 0x2cu8,
            MDTableType::X2D => 0x2du8,
            MDTableType::X2E => 0x2eu8,
            MDTableType::X2F => 0x2fu8,
            MDTableType::Document => 0x30u8,
            MDTableType::MethodDebugInformation => 0x31u8,
            MDTableType::LocalScope => 0x32u8,
            MDTableType::LocalVariable => 0x33u8,
            MDTableType::LocalConstant => 0x34u8,
            MDTableType::ImportScope => 0x35u8,
            MDTableType::StateMachineMethod => 0x36u8,
            MDTableType::CustomDebugInformation => 0x37u8,
        }
    }

    /// The kind with the given number, if there is one.
    pub open spec fn spec_from_code(value: int) -> Option<MDTableType> {
        if value == 0x00 {
            Some(MDTableType::Module)
        } else if value == 0x01 {
            Some(MDTableType::TypeRef)
        } else if value == 0x02 {
            Some(MDTableType::TypeDef)
        } else if value == 0x03 {
            Some(MDTableType::FieldPtr)
        } else if value == 0x04 {
            Some(MDTableType::Field)
        } else if value == 0x05 {
            Some(MDTableType::MethodPtr)
        } else if value == 0x06 {
            Some(MDTableType::Method)
        } else if value == 0x07 {
            Some(MDTableType::ParamPtr)
        } else if value == 0x08 {
            Some(MDTableType::Param)
        } else if value == 0x09 {
            Some(MDTableType::InterfaceImpl)
        } else if value == 0x0a {
            Some(MDTableType::MemberRef)
        } else if value == 0x0b {
            Some(MDTableType::Constant)
        } else if value == 0x0c {
            Some(MDTableType::CustomAttribute)
        } else if value == 0x0d {
            Some(MDTableType::FieldMarshal)
        } else if value == 0x0e {
            Some(MDTableType::DeclSecurity)
        } else if value == 0x0f {
            Some(MDTableType::ClassLayout)
        } else if value == 0x10 {
            Some(MDTableType::FieldLayout)
        } else if value == 0x11 {
            Some(MDTableType::StandAloneSig)
        } else if value == 0x12 {
            Some(MDTableType::EventMap)
        } else if value == 0x13 {
            Some(MDTableType::EventPtr)
        } else if value == 0x14 {
            Some(MDTableType::Event)
        } else if value == 0x15 {
            Some(MDTableType::PropertyMap)
        } else if value == 0x16 {
            Some(MDTableType::PropertyPtr)
        } else if value == 0x17 {
            Some(MDTableType::Property)
        } else if value == 0x18 {
            Some(MDTableType::MethodSemantics)
        } else if value == 0x19 {
            Some(MDTableType::MethodImpl)
        } else if value == 0x1a {
            Some(MDTableType::ModuleRef)
        } else if value == 0x1b {
            Some(MDTableType::TypeSpec)
        } else if value == 0x1c {
            Some(MDTableType::ImplMap)
        } else if value == 0x1d {
            Some(MDTableType::FieldRVA)
        } else if value == 0x1e {
            Some(MDTableType::ENCLog)
        } else if value == 0x1f {
            Some(MDTableType::ENCMap)
        } else if value == 0x20 {
            Some(MDTableType::Assembly)
        } else if value == 0x21 {
            Some(MDTableType::AssemblyProcessor)
        } else if value == 0x22 {
            Some(MDTableType::AssemblyOS)
        } else if value == 0x23 {
            Some(MDTableType::AssemblyRef)
        } else if value == 0x24 {
            Some(MDTableType::AssemblyRefProcessor)
        } else if value == 0x25 {
            Some(MDTableType::AssemblyRefOS)
        } else if value == 0x26 {
            Some(MDTableType::File)
        } else if value == 0x27 {
            Some(MDTableType::ExportedType)
        } else if value == 0x28 {
            Some(MDTableType::ManifestResource)
        } else if value == 0x29 {
            Some(MDTableType::NestedClass)
        } else if value == 0x2a {
            Some(MDTableType::GenericParam)
        } else if value == 0x2b {
            Some(MDTableType::MethodSpec)
        } else if value == 0x2c {
            Some(MDTableType::GenericParamConstraint)
        } else if value == 0x2d {
            Some(MDTableType::X2D)
        } else if value == 0x2e {
            Some(MDTableType::X2E)
        } else if value == 0x2f {
            Some(MDTableType::X2F)
        } else if value == 0x30 {
            Some(MDTableType::Document)
        } else if value == 0x31 {
            Some(MDTableType::MethodDebugInformation)
        } else if value == 0x32 {
            Some(MDTableType::LocalScope)
        } else if value == 0x33 {
            Some(MDTableType::LocalVariable)
        } else if value == 0x34 {
            Some(MDTableType::LocalConstant)
        } else if value == 0x35 {
            Some(MDTableType::ImportScope)
        } else if value == 0x36 {
            Some(MDTableType::StateMachineMethod)
        } else if value == 0x37 {
            Some(MDTableType::CustomDebugInformation)
        } else {
            None
        }
    }

    /// The kind with the given number, if there is one.
    pub fn from_u8(value: u8) -> (kind: Option<MDTableType>)
        ensures
            kind == MDTableType::spec_from_code(value as int),
            match kind {
                Some(k) => k.spec_code() == value,
                None => forall|k: MDTableType| k.spec_code() != value,
            },
    {
        match value {
            0x00 => Some(MDTableType::Module),
            0x01 => Some(MDTableType::TypeRef),
            0x02 => Some(MDTableType::TypeDef),
            0x03 => Some(MDTableType::FieldPtr),
            0x04 => Some(MDTableType::Field),
            0x05 => Some(MDTableType::MethodPtr),
            0x06 => Some(MDTableType::Method),
            0x07 => Some(MDTableType::ParamPtr),
            0x08 => Some(MDTableType::Param),
            0x09 => Some(MDTableType::InterfaceImpl),
            0x0a => Some(MDTableType::MemberRef),
            0x0b => Some(MDTableType::Constant),
            0x0c => Some(MDTableType::CustomAttribute),
            0x0d => Some(MDTableType::FieldMarshal),
            0x0e => Some(MDTableType::DeclSecurity),
            0x0f => Some(MDTableType::ClassLayout),
            0x10 => Some(MDTableType::FieldLayout),
            0x11 => Some(MDTableType::StandAloneSig),
            0x12 => Some(MDTableType::EventMap),
            0x13 => Some(MDTableType::EventPtr),
            0x14 => Some(MDTableType::Event),
            0x15 => Some(MDTableType::PropertyMap),
            0x16 => Some(MDTableType::PropertyPtr),
            0x17 => Some(MDTableType::Property),
            0x18 => Some(MDTableType::MethodSemantics),
            0x19 => Some(MDTableType::MethodImpl),
            0x1a => Some(MDTableType::ModuleRef),
            0x1b => Some(MDTableType::TypeSpec),
            0x1c => Some(MDTableType::ImplMap),
            0x1d => Some(MDTableType::FieldRVA),
            0x1e => Some(MDTableType::ENCLog),
            0x1f => Some(MDTableType::ENCMap),
            0x20 => Some(MDTableType::Assembly),
            0x21 => Some(MDTableType::AssemblyProcessor),
            0x22 => Some(MDTableType::AssemblyOS),
            0x23 => Some(MDTableType::AssemblyRef),
            0x24 => Some(MDTableType::AssemblyRefProcessor),
            0x25 => Some(MDTableType::AssemblyRefOS),
            0x26 => Some(MDTableType::File),
            0x27 => Some(MDTableType::ExportedType),
            0x28 => Some(MDTableType::ManifestResource),
            0x29 => Some(MDTableType::NestedClass),
            0x2a => Some(MDTableType::GenericParam),
            0x2b => Some(MDTableType::MethodSpec),
            0x2c => Some(MDTableType::GenericParamConstraint),
            0x2d => Some(MDTableType::X2D),
            0x2e => Some(MDTableType::X2E),
            0x2f => Some(MDTableType::X2F),
            0x30 => Some(MDTableType::Document),
            0x31 => Some(MDTableType::MethodDebugInformation),
            0x32 => Some(MDTableType::LocalScope),
            0x33 => Some(MDTableType::LocalVariable),
            0x34 => Some(MDTableType::LocalConstant),
            0x35 => Some(MDTableType::ImportScope),
            0x36 => Some(MDTableType::StateMachineMethod),
            0x37 => Some(MDTableType::CustomDebugInformation),
            _ => None,
        }
    }
}

/// What a table column holds: a row number of some table, a fixed-width integer,
/// an offset into a heap, or a coded token of some kind.
#[derive(Clone, Copy, PartialEq, Eq, Debug, Structural)]
pub enum MDType {
    /// RID into Module table
    Module,
    /// RID into TypeRef table
    TypeRef,
    /// RID into TypeDef table
    TypeDef,
    /// RID into FieldPtr table
    FieldPtr,
    /// RID into Field table
    Field,
    /// RID into MethodPtr table
    MethodPtr,
    /// RID into Method table
    Method,
    /// RID into ParamPtr table
    ParamPtr,
    /// RID into Param table
    Param,
    /// RID into InterfaceImpl table
    InterfaceImpl,
    /// RID into MemberRef table
    MemberRef,
    /// RID into Constant table
    Constant,
    /// RID into CustomAttribute table
    CustomAttribute,
    /// RID into FieldMarshal table
    FieldMarshal,
    /// RID into DeclSecurity table
    DeclSecurity,
    /// RID into ClassLayout table
    ClassLayout,
    /// RID into FieldLayout table
    FieldLayout,
    /// RID into StandAloneSig table
    StandAloneSig,
    /// RID into EventMap table
    EventMap,
    /// RID into EventPtr table
    EventPtr,
    /// RID into Event table
    Event,
    /// RID into PropertyMap table
    PropertyMap,
    /// RID into PropertyPtr table
    PropertyPtr,
    /// RID into Property table
    Property,
    /// RID into MethodSemantics table
    MethodSemantics,
    /// RID into MethodImpl table
    MethodImpl,
    /// RID into ModuleRef table
    ModuleRef,
    /// RID into TypeSpec table
    TypeSpec,
    /// RID into ImplMap table
    ImplMap,
    /// RID into FieldRVA table
    FieldRVA,
    /// RID into ENCLog table
    ENCLog,
    /// RID into ENCMap table
    ENCMap,
    /// RID into Assembly table
    Assembly,
    /// RID into AssemblyProcessor table
    AssemblyProcessor,
    /// RID into AssemblyOS table
    AssemblyOS,
    /// RID into AssemblyRef table
    AssemblyRef,
    /// RID into AssemblyRefProcessor table
    AssemblyRefProcessor,
    /// RID into AssemblyRefOS table
    AssemblyRefOS,
    /// RID into File table
    File,
    /// RID into ExportedType table
    ExportedType,
    /// RID into ManifestResource table
    ManifestResource,
    /// RID into NestedClass table
    NestedClass,
    /// RID into GenericParam table
    GenericParam,
    /// RID into MethodSpec table
    MethodSpec,
    /// RID into GenericParamConstraint table
    GenericParamConstraint,
    /// RID into Document table
    Document,
    /// RID into MethodDebugInformation table
    MethodDebugInformation,
    /// RID into LocalScope table
    LocalScope,
    /// RID into LocalVariable table
    LocalVariable,
    /// RID into LocalConstant table
    LocalConstant,
    /// RID into ImportScope table
    ImportScope,
    /// RID into StateMachineMethod table
    StateMachineMethod,
    /// RID into CustomDebugInformation table
    CustomDebugInformation,
    /// 8-bit byte
    Byte,
    /// 16-bit signed int
    Int16,
    /// 16-bit unsigned int
    UInt16,
    /// 32-bit signed int
    Int32,
    /// 32-bit unsigned int
    UInt32,
    /// Index into #Strings stream
    Strings,
    /// Index into #GUID stream
    GUID,
    /// Index into #Blob stream
    Blob,
    /// TypeDefOrRef encoded token
    TypeDefOrRef,
    /// HasConstant encoded token
    HasConstant,
    /// HasCustomAttribute encoded token
    HasCustomAttribute,
    /// HasFieldMarshal encoded token
    HasFieldMarshal,
    /// HasDeclSecurity encoded token
    HasDeclSecurity,
    /// MemberRefParent encoded token
    MemberRefParent,
    /// HasSemantic encoded token
    HasSemantic,
    /// MethodDefOrRef encoded token
    MethodDefOrRef,
    /// MemberForwarded encoded token
    MemberForwarded,
    /// Implementation encoded token
    Implementation,
    /// CustomAttributeType encoded token
    CustomAttributeType,
    /// ResolutionScope encoded token
    ResolutionScope,
    /// TypeOrMethodDef encoded token
    TypeOrMethodDef,
    /// HasCustomDebugInformation encoded token
    HasCustomDebugInformation,
}

impl MDType {
    /// The number that stands for this kind in the metadata format.
    pub open spec fn spec_code(self) -> u8 {
        match self {
            MDType::Module => 0x00u8,
            MDType::TypeRef => 0x01u8,
            MDType::TypeDef => 0x02u8,
            MDType::FieldPtr => 0x03u8,
            MDType::Field => 0x04u8,
            MDType::MethodPtr => 0x05u8,
            MDType::Method => 0x06u8,
            MDType::ParamPtr => 0x07u8,
            MDType::Param => 0x08u8,
            MDType::InterfaceImpl => 0x09u8,
            MDType::MemberRef => 0x0au8,
            MDType::Constant => 0x0bu8,
            MDType::CustomAttribute => 0x0cu8,
            MDType::FieldMarshal => 0x0du8,
            MDType::DeclSecurity => 0x0eu8,
            MDType::ClassLayout => 0x0fu8,
            MDType::FieldLayout => 0x10u8,
            MDType::StandAloneSig => 0x11u8,
            MDType::EventMap => 0x12u8,
            MDType::EventPtr => 0x13u8,
            MDType::Event => 0x14u8,
            MDType::PropertyMap => 0x15u8,
            MDType::PropertyPtr => 0x16u8,
            MDType::Property => 0x17u8,
            MDType::MethodSemantics => 0x18u8,
            MDType::MethodImpl => 0x19u8,
            MDType::ModuleRef => 0x1au8,
            MDType::TypeSpec => 0x1bu8,
            MDType::ImplMap => 0x1cu8,
            MDType::FieldRVA => 0x1du8,
            MDType::ENCLog => 0x1eu8,
            MDType::ENCMap => 0x1fu8,
            MDType::Assembly => 0x20u8,
            MDType::AssemblyProcessor => 0x21u8,
            MDType::AssemblyOS => 0x22u8,
            MDType::AssemblyRef => 0x23u8,
            MDType::AssemblyRefProcessor => 0x24u8,
            MDType::AssemblyRefOS => 0x25u8,
            MDType::File => 0x26u8,
            MDType::ExportedType => 0x27u8,
            MDType::ManifestResource => 0x28u8,
            MDType::NestedClass => 0x29u8,
            MDType::GenericParam => 0x2au8,
            MDType::MethodSpec => 0x2bu8,
            MDType::GenericParamConstraint => 0x2cu8,
            MDType::Document => 0x30u8,
            MDType::MethodDebugInformation => 0x31u8,
            MDType::LocalScope => 0x32u8,
            MDType::LocalVariable => 0x33u8,
            MDType::LocalConstant => 0x34u8,
            MDType::ImportScope => 0x35u8,
            MDType::StateMachineMethod => 0x36u8,
            MDType::CustomDebugInformation => 0x37u8,
            MDType::Byte => 0x40u8,
            MDType::Int16 => 0x41u8,
            MDType::UInt16 => 0x42u8,
            MDType::Int32 => 0x43u8,
            MDType::UInt32 => 0x44u8,
            MDType::Strings => 0x45u8,
            MDType::GUID => 0x46u8,
            MDType::Blob => 0x47u8,
            MDType::TypeDefOrRef => 0x48u8,
            MDType::HasConstant => 0x49u8,
            MDType::HasCustomAttribute => 0x4au8,
            MDType::HasFieldMarshal => 0x4bu8,
            MDType::HasDeclSecurity => 0x4cu8,
            MDType::MemberRefParent => 0x4du8,
            MDType::HasSemantic => 0x4eu8,
            MDType::MethodDefOrRef => 0x4fu8,
            MDType::MemberForwarded => 0x50u8,
            MDType::Implementation => 0x51u8,
            MDType::CustomAttributeType => 0x52u8,
            MDType::ResolutionScope => 0x53u8,
            MDType::TypeOrMethodDef => 0x54u8,
            MDType::HasCustomDebugInformation => 0x55u8,
        }
    }

    pub fn code(self) -> (c: u8)
        ensures
            c == self.spec_code(),
    {
        match self {
            MDType::Module => 0x00u8,
            MDType::TypeRef => 0x01u8,
            MDType::TypeDef => 0x02u8,
            MDType::FieldPtr => 0x03u8,
            MDType::Field => 0x04u8,
            MDType::MethodPtr => 0x05u8,
            MDType::Method => 0x06u8,
            MDType::ParamPtr => 0x07u8,
            MDType::Param => 0x08u8,
            MDType::InterfaceImpl => 0x09u8,
            MDType::MemberRef => 0x0au8,
            MDType::Constant => 0x0bu8,
            MDType::CustomAttribute => 0x0cu8,
            MDType::FieldMarshal => 0x0du8,
            MDType::DeclSecurity => 0x0eu8,
            MDType::ClassLayout => 0x0fu8,
            MDType::FieldLayout => 0x10u8,
            MDType::StandAloneSig => 0x11u8,
            MDType::EventMap => 0x12u8,
            MDType::EventPtr => 0x13u8,
            MDType::Event => 0x14u8,
            MDType::PropertyMap => 0x15u8,
            MDType::PropertyPtr => 0x16u8,
            MDType::Property => 0x17u8,
            MDType::MethodSemantics => 0x18u8,
            MDType::MethodImpl => 0x19u8,
            MDType::ModuleRef => 0x1au8,
            MDType::TypeSpec => 0x1bu8,
            MDType::ImplMap => 0x1cu8,
            MDType::FieldRVA => 0x1du8,
            MDType::ENCLog => 0x1eu8,
            MDType::ENCMap => 0x1fu8,
            MDType::Assembly => 0x20u8,
            MDType::AssemblyProcessor => 0x21u8,
            MDType::AssemblyOS => 0x22u8,
            MDType::AssemblyRef => 0x23u8,
            MDType::AssemblyRefProcessor => 0x24u8,
            MDType::AssemblyRefOS => 0x25u8,
            MDType::File => 0x26u8,
            MDType::ExportedType => 0x27u8,
            MDType::ManifestResource => 0x28u8,
            MDType::NestedClass => 0x29u8,
            MDType::GenericParam => 0x2au8,
            MDType::MethodSpec => 0x2bu8,
            MDType::GenericParamConstraint => 0x2cu8,
            MDType::Document => 0x30u8,
            MDType::MethodDebugInformation => 0x31u8,
            MDType::LocalScope => 0x32u8,
            MDType::LocalVariable => 0x33u8,
            MDType::LocalConstant => 0x34u8,
            MDType::ImportScope => 0x35u8,
            MDType::StateMachineMethod => 0x36u8,
            MDType::CustomDebugInformation => 0x37u8,
            MDType::Byte => 0x40u8,
            MDType::Int16 => 0x41u8,
            MDType::UInt16 => 0x42u8,
            MDType::Int32 => 0x43u8,
            MDType::UInt32 => 0x44u8,
            MDType::Strings => 0x45u8,
            MDType::GUID => 0x46u8,
            MDType::Blob => 0x47u8,
            MDType::TypeDefOrRef => 0x48u8,
            MDType::HasConstant => 0x49u8,
            MDType::HasCustomAttribute => 0x4au8,
            MDType::HasFieldMarshal => 0x4bu8,
            MDType::HasDeclSecurity => 0x4cu8,
            MDType::MemberRefParent => 0x4du8,
            MDType::HasSemantic => 0x4eu8,
            MDType::MethodDefOrRef => 0x4fu8,
            MDType::MemberForwarded => 0x50u8,
            MDType::Implementation => 0x51u8,
            MDType::CustomAttributeType => 0x52u8,
            MDType::ResolutionScope => 0x53u8,
            MDType::TypeOrMethodDef => 0x54u8,
            MDType::HasCustomDebugInformation => 0x55u8,
        }
    }

    /// The kind with the given number, if there is one.
    pub open spec fn spec_from_code(value: int) -> Option<MDType> {
        if value == 0x00 {
            Some(MDType::Module)
        } else if value == 0x01 {
            Some(MDType::TypeRef)
        } else if value == 0x02 {
            Some(MDType::TypeDef)
        } else if value == 0x03 {
            Some(MDType::FieldPtr)
        } else if value == 0x04 {
            Some(MDType::Field)
        } else if value == 0x05 {
            Some(MDType::MethodPtr)
        } else if value == 0x06 {
            Some(MDType::Method)
        } else if value == 0x07 {
            Some(MDType::ParamPtr)
        } else if value == 0x08 {
            Some(MDType::Param)
        } else if value == 0x09 {
            Some(MDType::InterfaceImpl)
        } else if value == 0x0a {
            Some(MDType::MemberRef)
        } else if value == 0x0b {
            Some(MDType::Constant)
        } else if value == 0x0c {
            Some(MDType::CustomAttribute)
        } else if value == 0x0d {
            Some(MDType::FieldMarshal)
        } else if value == 0x0e {
            Some(MDType::DeclSecurity)
        } else if value == 0x0f {
            Some(MDType::ClassLayout)
        } else if value == 0x10 {
            Some(MDType::FieldLayout)
        } else if value == 0x11 {
            Some(MDType::StandAloneSig)
        } else if value == 0x12 {
            Some(MDType::EventMap)
        } else if value == 0x13 {
            Some(MDType::EventPtr)
        } else if value == 0x14 {
            Some(MDType::Event)
        } else if value == 0x15 {
            Some(MDType::PropertyMap)
        } else if value == 0x16 {
            Some(MDType::PropertyPtr)
        } else if value == 0x17 {
            Some(MDType::Property)
        } else if value == 0x18 {
            Some(MDType::MethodSemantics)
        } else if value == 0x19 {
            Some(MDType::MethodImpl)
        } else if value == 0x1a {
            Some(MDType::ModuleRef)
        } else if value == 0x1b {
            Some(MDType::TypeSpec)
        } else if value == 0x1c {
            Some(MDType::ImplMap)
        } else if value == 0x1d {
            Some(MDType::FieldRVA)
        } else if value == 0x1e {
            Some(MDType::ENCLog)
        } else if value == 0x1f {
            Some(MDType::ENCMap)
        } else if value == 0x20 {
            Some(MDType::Assembly)
        } else if value == 0x21 {
            Some(MDType::AssemblyProcessor)
        } else if value == 0x22 {
            Some(MDType::AssemblyOS)
        } else if value == 0x23 {
            Some(MDType::AssemblyRef)
        } else if value == 0x24 {
            Some(MDType::AssemblyRefProcessor)
        } else if value == 0x25 {
            Some(MDType::AssemblyRefOS)
        } else if value == 0x26 {
            Some(MDType::File)
        } else if value == 0x27 {
            Some(MDType::ExportedType)
        } else if value == 0x28 {
            Some(MDType::ManifestResource)
        } else if value == 0x29 {
            Some(MDType::NestedClass)
        } else if value == 0x2a {
            Some(MDType::GenericParam)
        } else if value == 0x2b {
            Some(MDType::MethodSpec)
        } else if value == 0x2c {
            Some(MDType::GenericParamConstraint)
        } else if value == 0x30 {
            Some(MDType::Document)
        } else if value == 0x31 {
            Some(MDType::MethodDebugInformation)
        } else if value == 0x32 {
            Some(MDType::LocalScope)
        } else if value == 0x33 {
            Some(MDType::LocalVariable)
        } else if value == 0x34 {
            Some(MDType::LocalConstant)
        } else if value == 0x35 {
            Some(MDType::ImportScope)
        } else if value == 0x36 {
            Some(MDType::StateMachineMethod)
        } else if value == 0x37 {
            Some(MDType::CustomDebugInformation)
        } else if value == 0x40 {
            Some(MDType::Byte)
        } else if value == 0x41 {
            Some(MDType::Int16)
        } else if value == 0x42 {
            Some(MDType::UInt16)
        } else if value == 0x43 {
            Some(MDType::Int32)
        } else if value == 0x44 {
            Some(MDType::UInt32)
        } else if value == 0x45 {
            Some(MDType::Strings)
        } else if value == 0x46 {
            Some(MDType::GUID)
        } else if value == 0x47 {
            Some(MDType::Blob)
        } else if value == 0x48 {
            Some(MDType::TypeDefOrRef)
        } else if value == 0x49 {
            Some(MDType::HasConstant)
        } else if value == 0x4a {
            Some(MDType::HasCustomAttribute)
        } else if value == 0x4b {
            Some(MDType::HasFieldMarshal)
        } else if value == 0x4c {
            Some(MDType::HasDeclSecurity)
        } else if value == 0x4d {
            Some(MDType::MemberRefParent)
        } else if value == 0x4e {
            Some(MDType::HasSemantic)
        } else if value == 0x4f {
            Some(MDType::MethodDefOrRef)
        } else if value == 0x50 {
            Some(MDType::MemberForwarded)
        } else if value == 0x51 {
            Some(MDType::Implementation)
        } else if value == 0x52 {
            Some(MDType::CustomAttributeType)
        } else if value == 0x53 {
            Some(MDType::ResolutionScope)
        } else if value == 0x54 {
            Some(MDType::TypeOrMethodDef)
        } else if value == 0x55 {
            Some(MDType::HasCustomDebugInformation)
        } else {
            None
        }
    }

    /// The kind with the given number, if there is one.
    pub fn from_u32(value: u32) -> (kind: Option<MDType>)
        ensures
            kind == MDType::spec_from_code(value as int),
            match kind {
                Some(k) => k.spec_code() == value,
                None => forall|k: MDType| k.spec_code() != value,
            },
    {
        match value {
            0x00 => Some(MDType::Module),
            0x01 => Some(MDType::TypeRef),
            0x02 => Some(MDType::TypeDef),
            0x03 => Some(MDType::FieldPtr),
            0x04 => Some(MDType::Field),
            0x05 => Some(MDType::MethodPtr),
            0x06 => Some(MDType::Method),
            0x07 => Some(MDType::ParamPtr),
            0x08 => Some(MDType::Param),
            0x09 => Some(MDType::InterfaceImpl),
            0x0a => Some(MDType::MemberRef),
            0x0b => Some(MDType::Constant),
            0x0c => Some(MDType::CustomAttribute),
            0x0d => Some(MDType::FieldMarshal),
            0x0e => Some(MDType::DeclSecurity),
            0x0f => Some(MDType::ClassLayout),
            0x10 => Some(MDType::FieldLayout),
            0x11 => Some(MDType::StandAloneSig),
            0x12 => Some(MDType::EventMap),
            0x13 => Some(MDType::EventPtr),
            0x14 => Some(MDType::Event),
            0x15 => Some(MDType::PropertyMap),
            0x16 => Some(MDType::PropertyPtr),
            0x17 => Some(MDType::Property),
            0x18 => Some(MDType::MethodSemantics),
            0x19 => Some(MDType::MethodImpl),
            0x1a => Some(MDType::ModuleRef),
            0x1b => Some(MDType::TypeSpec),
            0x1c => Some(MDType::ImplMap),
            0x1d => Some(MDType::FieldRVA),
            0x1e => Some(MDType::ENCLog),
            0x1f => Some(MDType::ENCMap),
            0x20 => Some(MDType::Assembly),
            0x21 => Some(MDType::AssemblyProcessor),
            0x22 => Some(MDType::AssemblyOS),
            0x23 => Some(MDType::AssemblyRef),
            0x24 => Some(MDType::AssemblyRefProcessor),
            0x25 => Some(MDType::AssemblyRefOS),
            0x26 => Some(MDType::File),
            0x27 => Some(MDType::ExportedType),
            0x28 => Some(MDType::ManifestResource),
            0x29 => Some(MDType::NestedClass),
            0x2a => Some(MDType::GenericParam),
            0x2b => Some(MDType::MethodSpec),
            0x2c => Some(MDType::GenericParamConstraint),
            0x30 => Some(MDType::Document),
            0x31 => Some(MDType::MethodDebugInformation),
            0x32 => Some(MDType::LocalScope),
            0x33 => Some(MDType::LocalVariable),
            0x34 => Some(MDType::LocalConstant),
            0x35 => Some(MDType::ImportScope),
            0x36 => Some(MDType::StateMachineMethod),
            0x37 => Some(MDType::CustomDebugInformation),
            0x40 => Some(MDType::Byte),
            0x41 => Some(MDType::Int16),
            0x42 => Some(MDType::UInt16),
            0x43 => Some(MDType::Int32),
            0x44 => Some(MDType::UInt32),
            0x45 => Some(MDType::Strings),
            0x46 => Some(MDType::GUID),
            0x47 => Some(MDType::Blob),
            0x48 => Some(MDType::TypeDefOrRef),
            0x49 => Some(MDType::HasConstant),
            0x4a => Some(MDType::HasCustomAttribute),
            0x4b => Some(MDType::HasFieldMarshal),
            0x4c => Some(MDType::HasDeclSecurity),
            0x4d => Some(MDType::MemberRefParent),
            0x4e => Some(MDType::HasSemantic),
            0x4f => Some(MDType::MethodDefOrRef),
            0x50 => Some(MDType::MemberForwarded),
            0x51 => Some(MDType::Implementation),
            0x52 => Some(MDType::CustomAttributeType),
            0x53 => Some(MDType::ResolutionScope),
            0x54 => Some(MDType::TypeOrMethodDef),
            0x55 => Some(MDType::HasCustomDebugInformation),
            _ => None,
        }
    }

    /// True of the kinds that hold a row number of one table.
    pub open spec fn spec_is_rid(self) -> bool {
        self.spec_code() <= 0x37
    }

    pub fn is_rid(self) -> (b: bool)
        ensures
            b == self.spec_is_rid(),
    {
        self.code() <= 0x37
    }

    /// True of the kinds that hold a coded token.
    pub open spec fn spec_is_coded_token(self) -> bool {
        0x48 <= self.spec_code() <= 0x55
    }

    pub fn is_coded_token(self) -> (b: bool)
        ensures
            b == self.spec_is_coded_token(),
    {
        let c: u8 = self.code();
        0x48 <= c && c <= 0x55
    }
}

/// A kind is the kind of its number.
pub proof fn lemma_table_type_of_code(kind: MDTableType)
    ensures
        MDTableType::spec_from_code(kind.spec_code() as int) == Some(kind),
{
}

/// Every number below fifty-six is the number of a table kind.
pub proof fn lemma_table_type_of_index(index: int)
    requires
        0 <= index < 56,
    ensures
        MDTableType::spec_from_code(index).is_some(),
        MDTableType::spec_from_code(index).unwrap().spec_code() == index,
{
}

} // verus!
