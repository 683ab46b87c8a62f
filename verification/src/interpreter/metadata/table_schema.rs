use super::table_kind::{MDTableType, MDType};
use super::table_stream::{MDColumn, MDTable, TableStream};
use vstd::prelude::*;

verus! {

/// The number of tables the format knows.
pub const TABLE_COUNT: usize = 56;

/// True of the one format version whose `GenericParam` table has a fifth column.
pub open spec fn spec_is_v1_1(major_version: u8, minor_version: u8) -> bool {
    major_version == 1 && minor_version == 1
}

/// The kinds of the columns of each table, in order.
pub open spec fn spec_schema(table: MDTableType, v1_1: bool) -> Seq<MDType> {
    match table {
        MDTableType::Module => seq![MDType::UInt16, MDType::Strings, MDType::GUID, MDType::GUID, MDType::GUID],
        MDTableType::TypeRef => seq![MDType::ResolutionScope, MDType::Strings, MDType::Strings],
        MDTableType::TypeDef => seq![MDType::UInt32, MDType::Strings, MDType::Strings, MDType::TypeDefOrRef, MDType::Field, MDType::Method],
        MDTableType::FieldPtr => seq![MDType::Field],
        MDTableType::Field => seq![MDType::UInt16, MDType::Strings, MDType::Blob],
        MDTableType::MethodPtr => seq![MDType::Method],
        MDTableType::Method => seq![MDType::UInt32, MDType::UInt16, MDType::UInt16, MDType::Strings, MDType::Blob, MDType::Param],
        MDTableType::ParamPtr => seq![MDType::Param],
        MDTableType::Param => seq![MDType::UInt16, MDType::UInt16, MDType::Strings],
        MDTableType::InterfaceImpl => seq![MDType::TypeDef, MDType::TypeDefOrRef],
        MDTableType::MemberRef => seq![MDType::MemberRefParent, MDType::Strings, MDType::Blob],
        MDTableType::Constant => seq![MDType::Byte, MDType::Byte, MDType::HasConstant, MDType::Blob],
        MDTableType::CustomAttribute => seq![MDType::HasCustomAttribute, MDType::CustomAttributeType, MDType::Blob],
        MDTableType::FieldMarshal => seq![MDType::HasFieldMarshal, MDType::Blob],
        MDTableType::DeclSecurity => seq![MDType::UInt16, MDType::HasDeclSecurity, MDType::Blob],
        MDTableType::ClassLayout => seq![MDType::UInt16, MDType::UInt32, MDType::TypeDef],
        MDTableType::FieldLayout => seq![MDType::UInt32, MDType::Field],
        MDTableType::StandAloneSig => seq![MDType::Blob],
        MDTableType::EventMap => seq![MDType::TypeDef, MDType::Event],
        MDTableType::EventPtr => seq![MDType::Event],
        MDTableType::Event => seq![MDType::UInt16, MDType::Strings, MDType::TypeDefOrRef],
        MDTableType::PropertyMap => seq![MDType::TypeDef, MDType::Property],
        MDTableType::PropertyPtr => seq![MDType::Property],
        MDTableType::Property => seq![MDType::UInt16, MDType::Strings, MDType::Blob],
        MDTableType::MethodSemantics => seq![MDType::UInt16, MDType::Method, MDType::HasSemantic],
        MDTableType::MethodImpl => seq![MDType::TypeDef, MDType::MethodDefOrRef, MDType::MethodDefOrRef],
        MDTableType::ModuleRef => seq![MDType::Strings],
        MDTableType::TypeSpec => seq![MDType::Blob],
        MDTableType::ImplMap => seq![MDType::UInt16, MDType::MemberForwarded, MDType::Strings, MDType::ModuleRef],
        MDTableType::FieldRVA => seq![MDType::UInt32, MDType::Field],
        MDTableType::ENCLog => seq![MDType::UInt32, MDType::UInt32],
        MDTableType::ENCMap => seq![MDType::UInt32],
        MDTableType::Assembly => seq![MDType::UInt32, MDType::UInt16, MDType::UInt16, MDType::UInt16, MDType::UInt16, MDType::UInt32, MDType::Blob, MDType::Strings, MDType::Strings],
        MDTableType::AssemblyProcessor => seq![MDType::UInt32],
        MDTableType::AssemblyOS => seq![MDType::UInt32, MDType::UInt32, MDType::UInt32],
        MDTableType::AssemblyRef => seq![MDType::UInt16, MDType::UInt16, MDType::UInt16, MDType::UInt16, MDType::UInt32, MDType::Blob, MDType::Strings, MDType::Strings, MDType::Blob],
        MDTableType::AssemblyRefProcessor => seq![MDType::UInt32, MDType::AssemblyRef],
        MDTableType::AssemblyRefOS => seq![MDType::UInt32, MDType::UInt32, MDType::UInt32, MDType::AssemblyRef],
        MDTableType::File => seq![MDType::UInt32, MDType::Strings, MDType::Blob],
        MDTableType::ExportedType => seq![MDType::UInt32, MDType::UInt32, MDType::Strings, MDType::Strings, MDType::Implementation],
        MDTableType::ManifestResource => seq![MDType::UInt32, MDType::UInt32, MDType::Strings, MDType::Implementation],
        MDTableType::NestedClass => seq![MDType::TypeDef, MDType::TypeDef],
        MDTableType::GenericParam => if v1_1 {
            seq![MDType::UInt16, MDType::UInt16, MDType::TypeOrMethodDef, MDType::Strings, MDType::TypeDefOrRef]
        } else {
            seq![MDType::UInt16, MDType::UInt16, MDType::TypeOrMethodDef, MDType::Strings]
        },
        MDTableType::MethodSpec => seq![MDType::MethodDefOrRef, MDType::Blob],
        MDTableType::GenericParamConstraint => seq![MDType::GenericParam, MDType::TypeDefOrRef],
        MDTableType::X2D => seq![],
        MDTableType::X2E => seq![],
        MDTableType::X2F => seq![],
        MDTableType::Document => seq![MDType::Blob, MDType::GUID, MDType::Blob, MDType::GUID],
        MDTableType::MethodDebugInformation => seq![MDType::Document, MDType::Blob],
        MDTableType::LocalScope => seq![MDType::Method, MDType::ImportScope, MDType::LocalVariable, MDType::LocalConstant, MDType::UInt32, MDType::UInt32],
        MDTableType::LocalVariable => seq![MDType::UInt16, MDType::UInt16, MDType::Strings],
        MDTableType::LocalConstant => seq![MDType::Strings, MDType::Blob],
        MDTableType::ImportScope => seq![MDType::ImportScope, MDType::Blob],
        MDTableType::StateMachineMethod => seq![MDType::Method, MDType::Method],
        MDTableType::CustomDebugInformation => seq![MDType::HasCustomDebugInformation, MDType::GUID, MDType::Blob],
    }
}

/// The names of the columns of each table, in order.
pub open spec fn spec_column_names(table: MDTableType, v1_1: bool) -> Seq<Seq<char>> {
    match table {
        MDTableType::Module => seq!["Generation"@, "Name"@, "Mvid"@, "EncId"@, "EncBaseId"@],
        MDTableType::TypeRef => seq!["ResolutionScope"@, "Name"@, "Namespace"@],
        MDTableType::TypeDef => seq!["Flags"@, "Name"@, "Namespace"@, "Extends"@, "FieldList"@, "MethodList"@],
        MDTableType::FieldPtr => seq!["Field"@],
        MDTableType::Field => seq!["Flags"@, "Name"@, "Signature"@],
        MDTableType::MethodPtr => seq!["Method"@],
        MDTableType::Method => seq!["RVA"@, "ImplFlags"@, "Flags"@, "Name"@, "Signature"@, "ParamList"@],
        MDTableType::ParamPtr => seq!["Param"@],
        MDTableType::Param => seq!["Flags"@, "Sequence"@, "Name"@],
        MDTableType::InterfaceImpl => seq!["Class"@, "Interface"@],
        MDTableType::MemberRef => seq!["Class"@, "Name"@, "Signature"@],
        MDTableType::Constant => seq!["Type"@, "Padding"@, "Parent"@, "Value"@],
        MDTableType::CustomAttribute => seq!["Parent"@, "Type"@, "Value"@],
        MDTableType::FieldMarshal => seq!["Parent"@, "NativeType"@],
        MDTableType::DeclSecurity => seq!["Action"@, "Parent"@, "PermissionSet"@],
        MDTableType::ClassLayout => seq!["PackingSize"@, "ClassSize"@, "Parent"@],
        MDTableType::FieldLayout => seq!["OffSet"@, "Field"@],
        MDTableType::StandAloneSig => seq!["Signature"@],
        MDTableType::EventMap => seq!["Parent"@, "EventList"@],
        MDTableType::EventPtr => seq!["Event"@],
        MDTableType::Event => seq!["EventFlags"@, "Name"@, "EventType"@],
        MDTableType::PropertyMap => seq!["Parent"@, "PropertyList"@],
        MDTableType::PropertyPtr => seq!["Property"@],
        MDTableType::Property => seq!["PropFlags"@, "Name"@, "Type"@],
        MDTableType::MethodSemantics => seq!["Semantics"@, "Method"@, "Association"@],
        MDTableType::MethodImpl => seq!["Class"@, "MethodBody"@, "MethodDecl"@],
        MDTableType::ModuleRef => seq!["Name"@],
        MDTableType::TypeSpec => seq!["Signature"@],
        MDTableType::ImplMap => seq!["MappingFlags"@, "MemberForwarded"@, "ImportName"@, "ImportScope"@],
        MDTableType::FieldRVA => seq!["RVA"@, "Field"@],
        MDTableType::ENCLog => seq!["Token"@, "FuncCode"@],
        MDTableType::ENCMap => seq!["Token"@],
        MDTableType::Assembly => seq!["HashAlgId"@, "MajorVersion"@, "MinorVersion"@, "BuildNumber"@, "RevisionNumber"@, "Flags"@, "PublicKey"@, "Name"@, "Locale"@],
        MDTableType::AssemblyProcessor => seq!["Processor"@],
        MDTableType::AssemblyOS => seq!["OSPlatformId"@, "OSMajorVersion"@, "OSMinorVersion"@],
        MDTableType::AssemblyRef => seq!["MajorVersion"@, "MinorVersion"@, "BuildNumber"@, "RevisionNumber"@, "Flags"@, "PublicKeyOrToken"@, "Name"@, "Locale"@, "HashValue"@],
        MDTableType::AssemblyRefProcessor => seq!["Processor"@, "AssemblyRef"@],
        MDTableType::AssemblyRefOS => seq!["OSPlatformId"@, "OSMajorVersion"@, "OSMinorVersion"@, "AssemblyRef"@],
        MDTableType::File => seq!["Flags"@, "Name"@, "HashValue"@],
        MDTableType::ExportedType => seq!["Flags"@, "TypeDefId"@, "TypeName"@, "TypeNamespace"@, "Implementation"@],
        MDTableType::ManifestResource => seq!["Offset"@, "Flags"@, "Name"@, "Implementation"@],
        MDTableType::NestedClass => seq!["NestedClass"@, "EnclosingClass"@],
        MDTableType::GenericParam => if v1_1 {
            seq!["Number"@, "Flags"@, "Owner"@, "Name"@, "Kind"@]
        } else {
            seq!["Number"@, "Flags"@, "Owner"@, "Name"@]
        },
        MDTableType::MethodSpec => seq!["Method"@, "Instantiation"@],
        MDTableType::GenericParamConstraint => seq!["Owner"@, "Constraint"@],
        MDTableType::X2D => seq![],
        MDTableType::X2E => seq![],
        MDTableType::X2F => seq![],
        MDTableType::Document => seq!["Name"@, "HashAlgorithm"@, "Hash"@, "Language"@],
        MDTableType::MethodDebugInformation => seq!["Document"@, "SequencePoints"@],
        MDTableType::LocalScope => seq!["Method"@, "ImportScope"@, "VariableList"@, "ConstantList"@, "StartOffset"@, "Length"@],
        MDTableType::LocalVariable => seq!["Attributes"@, "Index"@, "Name"@],
        MDTableType::LocalConstant => seq!["Name"@, "Signature"@],
        MDTableType::ImportScope => seq!["Parent"@, "Imports"@],
        MDTableType::StateMachineMethod => seq!["MoveNextMethod"@, "KickoffMethod"@],
        MDTableType::CustomDebugInformation => seq!["Parent"@, "Kind"@, "Value"@],
    }
}

/// The name of each table.
pub open spec fn spec_table_name(table: MDTableType) -> Seq<char> {
    match table {
        MDTableType::Module => "Module"@,
        MDTableType::TypeRef => "TypeRef"@,
        MDTableType::TypeDef => "TypeDef"@,
        MDTableType::FieldPtr => "FieldPtr"@,
        MDTableType::Field => "Field"@,
        MDTableType::MethodPtr => "MethodPtr"@,
        MDTableType::Method => "Method"@,
        MDTableType::ParamPtr => "ParamPtr"@,
        MDTableType::Param => "Param"@,
        MDTableType::InterfaceImpl => "InterfaceImpl"@,
        MDTableType::MemberRef => "MemberRef"@,
        MDTableType::Constant => "Constant"@,
        MDTableType::CustomAttribute => "CustomAttribute"@,
        MDTableType::FieldMarshal => "FieldMarshal"@,
        MDTableType::DeclSecurity => "DeclSecurity"@,
        MDTableType::ClassLayout => "ClassLayout"@,
        MDTableType::FieldLayout => "FieldLayout"@,
        MDTableType::StandAloneSig => "StandAloneSig"@,
        MDTableType::EventMap => "EventMap"@,
        MDTableType::EventPtr => "EventPtr"@,
        MDTableType::Event => "Event"@,
        MDTableType::PropertyMap => "PropertyMap"@,
        MDTableType::PropertyPtr => "PropertyPtr"@,
        MDTableType::Property => "Property"@,
        MDTableType::MethodSemantics => "MethodSemantics"@,
        MDTableType::MethodImpl => "MethodImpl"@,
        MDTableType::ModuleRef => "ModuleRef"@,
        MDTableType::TypeSpec => "TypeSpec"@,
        MDTableType::ImplMap => "ImplMap"@,
        MDTableType::FieldRVA => "FieldRVA"@,
        MDTableType::ENCLog => "ENCLog"@,
        MDTableType::ENCMap => "ENCMap"@,
        MDTableType::Assembly => "Assembly"@,
        MDTableType::AssemblyProcessor => "AssemblyProcessor"@,
        MDTableType::AssemblyOS => "AssemblyOS"@,
        MDTableType::AssemblyRef => "AssemblyRef"@,
        MDTableType::AssemblyRefProcessor => "AssemblyRefProcessor"@,
        MDTableType::AssemblyRefOS => "AssemblyRefOS"@,
        MDTableType::File => "File"@,
        MDTableType::ExportedType => "ExportedType"@,
        MDTableType::ManifestResource => "ManifestResource"@,
        MDTableType::NestedClass => "NestedClass"@,
        MDTableType::GenericParam => "GenericParam"@,
        MDTableType::MethodSpec => "MethodSpec"@,
        MDTableType::GenericParamConstraint => "GenericParamConstraint"@,
        MDTableType::X2D => ""@,
        MDTableType::X2E => ""@,
        MDTableType::X2F => ""@,
        MDTableType::Document => "Document"@,
        MDTableType::MethodDebugInformation => "MethodDebugInformation"@,
        MDTableType::LocalScope => "LocalScope"@,
        MDTableType::LocalVariable => "LocalVariable"@,
        MDTableType::LocalConstant => "LocalConstant"@,
        MDTableType::ImportScope => "ImportScope"@,
        MDTableType::StateMachineMethod => "StateMachineMethod"@,
        MDTableType::CustomDebugInformation => "CustomDebugInformation"@,
    }
}

/// How many tables a stream of the given format version can hold: the first
/// version ends with the `NestedClass` table, the later ones know all.
pub open spec fn spec_max_present_tables(major_version: u8, minor_version: u8) -> usize {
    if major_version == 1 && minor_version == 0 {
        42
    } else {
        56
    }
}

/// True where `table` is the empty table of kind `kind` with the columns of its schema.
pub open spec fn spec_fresh_table(table: MDTable, kind: MDTableType, v1_1: bool) -> bool {
    &&& table.table_type == kind
    &&& table.name@ == spec_table_name(kind)
    &&& table.row_count == 0
    &&& table.row_size == 0
    &&& table.position == 0
    &&& table.columns@.len() == spec_schema(kind, v1_1).len()
    &&& forall|c: int|
        0 <= c < table.columns@.len() ==> {
            &&& (#[trigger] table.columns@[c]).column_type == spec_schema(kind, v1_1)[c]
            &&& table.columns@[c].name@ == spec_column_names(kind, v1_1)[c]
            &&& table.columns@[c].index == c
            &&& table.columns@[c].size == 0
            &&& table.columns@[c].offset == 0
            &&& table.columns@[c].data@.len() == 0
        }
}

fn table_module() -> (table: MDTable)
    ensures
        spec_fresh_table(table, MDTableType::Module, false),
{
    let columns: Vec<MDColumn> = vec![
        MDColumn::new(0, "Generation", MDType::UInt16),
        MDColumn::new(1, "Name", MDType::Strings),
        MDColumn::new(2, "Mvid", MDType::GUID),
        MDColumn::new(3, "EncId", MDType::GUID),
        MDColumn::new(4, "EncBaseId", MDType::GUID),
    ];
    MDTable::new(MDTableType::Module, "Module", columns)
}

fn table_type_ref() -> (table: MDTable)
    ensures
        spec_fresh_table(table, MDTableType::TypeRef, false),
{
    let columns: Vec<MDColumn> = vec![
        MDColumn::new(0, "ResolutionScope", MDType::ResolutionScope),
        MDColumn::new(1, "Name", MDType::Strings),
        MDColumn::new(2, "Namespace", MDType::Strings),
    ];
    MDTable::new(MDTableType::TypeRef, "TypeRef", columns)
}

fn table_type_def() -> (table: MDTable)
    ensures
        spec_fresh_table(table, MDTableType::TypeDef, false),
{
    let columns: Vec<MDColumn> = vec![
        MDColumn::new(0, "Flags", MDType::UInt32),
        MDColumn::new(1, "Name", MDType::Strings),
        MDColumn::new(2, "Namespace", MDType::Strings),
        MDColumn::new(3, "Extends", MDType::TypeDefOrRef),
        MDColumn::new(4, "FieldList", MDType::Field),
        MDColumn::new(5, "MethodList", MDType::Method),
    ];
    MDTable::new(MDTableType::TypeDef, "TypeDef", columns)
}

fn table_field_ptr() -> (table: MDTable)
    ensures
        spec_fresh_table(table, MDTableType::FieldPtr, false),
{
    let columns: Vec<MDColumn> = vec![
        MDColumn::new(0, "Field", MDType::Field),
    ];
    MDTable::new(MDTableType::FieldPtr, "FieldPtr", columns)
}

fn table_field() -> (table: MDTable)
    ensures
        spec_fresh_table(table, MDTableType::Field, false),
{
    let columns: Vec<MDColumn> = vec![
        MDColumn::new(0, "Flags", MDType::UInt16),
        MDColumn::new(1, "Name", MDType::Strings),
        MDColumn::new(2, "Signature", MDType::Blob),
    ];
    MDTable::new(MDTableType::Field, "Field", columns)
}

fn table_method_ptr() -> (table: MDTable)
    ensures
        spec_fresh_table(table, MDTableType::MethodPtr, false),
{
    let columns: Vec<MDColumn> = vec![
        MDColumn::new(0, "Method", MDType::Method),
    ];
    MDTable::new(MDTableType::MethodPtr, "MethodPtr", columns)
}

fn table_method() -> (table: MDTable)
    ensures
        spec_fresh_table(table, MDTableType::Method, false),
{
    let columns: Vec<MDColumn> = vec![
        MDColumn::new(0, "RVA", MDType::UInt32),
        MDColumn::new(1, "ImplFlags", MDType::UInt16),
        MDColumn::new(2, "Flags", MDType::UInt16),
        MDColumn::new(3, "Name", MDType::Strings),
        MDColumn::new(4, "Signature", MDType::Blob),
        MDColumn::new(5, "ParamList", MDType::Param),
    ];
    MDTable::new(MDTableType::Method, "Method", columns)
}

fn table_param_ptr() -> (table: MDTable)
    ensures
        spec_fresh_table(table, MDTableType::ParamPtr, false),
{
    let columns: Vec<MDColumn> = vec![
        MDColumn::new(0, "Param", MDType::Param),
    ];
    MDTable::new(MDTableType::ParamPtr, "ParamPtr", columns)
}

fn table_param() -> (table: MDTable)
    ensures
        spec_fresh_table(table, MDTableType::Param, false),
{
    let columns: Vec<MDColumn> = vec![
        MDColumn::new(0, "Flags", MDType::UInt16),
        MDColumn::new(1, "Sequence", MDType::UInt16),
        MDColumn::new(2, "Name", MDType::Strings),
    ];
    MDTable::new(MDTableType::Param, "Param", columns)
}

fn table_interface_impl() -> (table: MDTable)
    ensures
        spec_fresh_table(table, MDTableType::InterfaceImpl, false),
{
    let columns: Vec<MDColumn> = vec![
        MDColumn::new(0, "Class", MDType::TypeDef),
        MDColumn::new(1, "Interface", MDType::TypeDefOrRef),
    ];
    MDTable::new(MDTableType::InterfaceImpl, "InterfaceImpl", columns)
}

fn table_member_ref() -> (table: MDTable)
    ensures
        spec_fresh_table(table, MDTableType::MemberRef, false),
{
    let columns: Vec<MDColumn> = vec![
        MDColumn::new(0, "Class", MDType::MemberRefParent),
        MDColumn::new(1, "Name", MDType::Strings),
        MDColumn::new(2, "Signature", MDType::Blob),
    ];
    MDTable::new(MDTableType::MemberRef, "MemberRef", columns)
}

fn table_constant() -> (table: MDTable)
    ensures
        spec_fresh_table(table, MDTableType::Constant, false),
{
    let columns: Vec<MDColumn> = vec![
        MDColumn::new(0, "Type", MDType::Byte),
        MDColumn::new(1, "Padding", MDType::Byte),
        MDColumn::new(2, "Parent", MDType::HasConstant),
        MDColumn::new(3, "Value", MDType::Blob),
    ];
    MDTable::new(MDTableType::Constant, "Constant", columns)
}

fn table_custom_attribute() -> (table: MDTable)
    ensures
        spec_fresh_table(table, MDTableType::CustomAttribute, false),
{
    let columns: Vec<MDColumn> = vec![
        MDColumn::new(0, "Parent", MDType::HasCustomAttribute),
        MDColumn::new(1, "Type", MDType::CustomAttributeType),
        MDColumn::new(2, "Value", MDType::Blob),
    ];
    MDTable::new(MDTableType::CustomAttribute, "CustomAttribute", columns)
}

fn table_field_marshal() -> (table: MDTable)
    ensures
        spec_fresh_table(table, MDTableType::FieldMarshal, false),
{
    let columns: Vec<MDColumn> = vec![
        MDColumn::new(0, "Parent", MDType::HasFieldMarshal),
        MDColumn::new(1, "NativeType", MDType::Blob),
    ];
    MDTable::new(MDTableType::FieldMarshal, "FieldMarshal", columns)
}

fn table_decl_security() -> (table: MDTable)
    ensures
        spec_fresh_table(table, MDTableType::DeclSecurity, false),
{
    let columns: Vec<MDColumn> = vec![
        MDColumn::new(0, "Action", MDType::UInt16),
        MDColumn::new(1, "Parent", MDType::HasDeclSecurity),
        MDColumn::new(2, "PermissionSet", MDType::Blob),
    ];
    MDTable::new(MDTableType::DeclSecurity, "DeclSecurity", columns)
}

fn table_class_layout() -> (table: MDTable)
    ensures
        spec_fresh_table(table, MDTableType::ClassLayout, false),
{
    let columns: Vec<MDColumn> = vec![
        MDColumn::new(0, "PackingSize", MDType::UInt16),
        MDColumn::new(1, "ClassSize", MDType::UInt32),
        MDColumn::new(2, "Parent", MDType::TypeDef),
    ];
    MDTable::new(MDTableType::ClassLayout, "ClassLayout", columns)
}

fn table_field_layout() -> (table: MDTable)
    ensures
        spec_fresh_table(table, MDTableType::FieldLayout, false),
{
    let columns: Vec<MDColumn> = vec![
        MDColumn::new(0, "OffSet", MDType::UInt32),
        MDColumn::new(1, "Field", MDType::Field),
    ];
    MDTable::new(MDTableType::FieldLayout, "FieldLayout", columns)
}

fn table_stand_alone_sig() -> (table: MDTable)
    ensures
        spec_fresh_table(table, MDTableType::StandAloneSig, false),
{
    let columns: Vec<MDColumn> = vec![
        MDColumn::new(0, "Signature", MDType::Blob),
    ];
    MDTable::new(MDTableType::StandAloneSig, "StandAloneSig", columns)
}

fn table_event_map() -> (table: MDTable)
    ensures
        spec_fresh_table(table, MDTableType::EventMap, false),
{
    let columns: Vec<MDColumn> = vec![
        MDColumn::new(0, "Parent", MDType::TypeDef),
        MDColumn::new(1, "EventList", MDType::Event),
    ];
    MDTable::new(MDTableType::EventMap, "EventMap", columns)
}

fn table_event_ptr() -> (table: MDTable)
    ensures
        spec_fresh_table(table, MDTableType::EventPtr, false),
{
    let columns: Vec<MDColumn> = vec![
        MDColumn::new(0, "Event", MDType::Event),
    ];
    MDTable::new(MDTableType::EventPtr, "EventPtr", columns)
}

fn table_event() -> (table: MDTable)
    ensures
        spec_fresh_table(table, MDTableType::Event, false),
{
    let columns: Vec<MDColumn> = vec![
        MDColumn::new(0, "EventFlags", MDType::UInt16),
        MDColumn::new(1, "Name", MDType::Strings),
        MDColumn::new(2, "EventType", MDType::TypeDefOrRef),
    ];
    MDTable::new(MDTableType::Event, "Event", columns)
}

fn table_property_map() -> (table: MDTable)
    ensures
        spec_fresh_table(table, MDTableType::PropertyMap, false),
{
    let columns: Vec<MDColumn> = vec![
        MDColumn::new(0, "Parent", MDType::TypeDef),
        MDColumn::new(1, "PropertyList", MDType::Property),
    ];
    MDTable::new(MDTableType::PropertyMap, "PropertyMap", columns)
}

fn table_property_ptr() -> (table: MDTable)
    ensures
        spec_fresh_table(table, MDTableType::PropertyPtr, false),
{
    let columns: Vec<MDColumn> = vec![
        MDColumn::new(0, "Property", MDType::Property),
    ];
    MDTable::new(MDTableType::PropertyPtr, "PropertyPtr", columns)
}

fn table_property() -> (table: MDTable)
    ensures
        spec_fresh_table(table, MDTableType::Property, false),
{
    let columns: Vec<MDColumn> = vec![
        MDColumn::new(0, "PropFlags", MDType::UInt16),
        MDColumn::new(1, "Name", MDType::Strings),
        MDColumn::new(2, "Type", MDType::Blob),
    ];
    MDTable::new(MDTableType::Property, "Property", columns)
}

fn table_method_semantics() -> (table: MDTable)
    ensures
        spec_fresh_table(table, MDTableType::MethodSemantics, false),
{
    let columns: Vec<MDColumn> = vec![
        MDColumn::new(0, "Semantics", MDType::UInt16),
        MDColumn::new(1, "Method", MDType::Method),
        MDColumn::new(2, "Association", MDType::HasSemantic),
    ];
    MDTable::new(MDTableType::MethodSemantics, "MethodSemantics", columns)
}

fn table_method_impl() -> (table: MDTable)
    ensures
        spec_fresh_table(table, MDTableType::MethodImpl, false),
{
    let columns: Vec<MDColumn> = vec![
        MDColumn::new(0, "Class", MDType::TypeDef),
        MDColumn::new(1, "MethodBody", MDType::MethodDefOrRef),
        MDColumn::new(2, "MethodDecl", MDType::MethodDefOrRef),
    ];
    MDTable::new(MDTableType::MethodImpl, "MethodImpl", columns)
}

fn table_module_ref() -> (table: MDTable)
    ensures
        spec_fresh_table(table, MDTableType::ModuleRef, false),
{
    let columns: Vec<MDColumn> = vec![
        MDColumn::new(0, "Name", MDType::Strings),
    ];
    MDTable::new(MDTableType::ModuleRef, "ModuleRef", columns)
}

fn table_type_spec() -> (table: MDTable)
    ensures
        spec_fresh_table(table, MDTableType::TypeSpec, false),
{
    let columns: Vec<MDColumn> = vec![
        MDColumn::new(0, "Signature", MDType::Blob),
    ];
    MDTable::new(MDTableType::TypeSpec, "TypeSpec", columns)
}

fn table_impl_map() -> (table: MDTable)
    ensures
        spec_fresh_table(table, MDTableType::ImplMap, false),
{
    let columns: Vec<MDColumn> = vec![
        MDColumn::new(0, "MappingFlags", MDType::UInt16),
        MDColumn::new(1, "MemberForwarded", MDType::MemberForwarded),
        MDColumn::new(2, "ImportName", MDType::Strings),
        MDColumn::new(3, "ImportScope", MDType::ModuleRef),
    ];
    MDTable::new(MDTableType::ImplMap, "ImplMap", columns)
}

fn table_field_rva() -> (table: MDTable)
    ensures
        spec_fresh_table(table, MDTableType::FieldRVA, false),
{
    let columns: Vec<MDColumn> = vec![
        MDColumn::new(0, "RVA", MDType::UInt32),
        MDColumn::new(1, "Field", MDType::Field),
    ];
    MDTable::new(MDTableType::FieldRVA, "FieldRVA", columns)
}

fn table_enc_log() -> (table: MDTable)
    ensures
        spec_fresh_table(table, MDTableType::ENCLog, false),
{
    let columns: Vec<MDColumn> = vec![
        MDColumn::new(0, "Token", MDType::UInt32),
        MDColumn::new(1, "FuncCode", MDType::UInt32),
    ];
    MDTable::new(MDTableType::ENCLog, "ENCLog", columns)
}

fn table_enc_map() -> (table: MDTable)
    ensures
        spec_fresh_table(table, MDTableType::ENCMap, false),
{
    let columns: Vec<MDColumn> = vec![
        MDColumn::new(0, "Token", MDType::UInt32),
    ];
    MDTable::new(MDTableType::ENCMap, "ENCMap", columns)
}

fn table_assembly() -> (table: MDTable)
    ensures
        spec_fresh_table(table, MDTableType::Assembly, false),
{
    let columns: Vec<MDColumn> = vec![
        MDColumn::new(0, "HashAlgId", MDType::UInt32),
        MDColumn::new(1, "MajorVersion", MDType::UInt16),
        MDColumn::new(2, "MinorVersion", MDType::UInt16),
        MDColumn::new(3, "BuildNumber", MDType::UInt16),
        MDColumn::new(4, "RevisionNumber", MDType::UInt16),
        MDColumn::new(5, "Flags", MDType::UInt32),
        MDColumn::new(6, "PublicKey", MDType::Blob),
        MDColumn::new(7, "Name", MDType::Strings),
        MDColumn::new(8, "Locale", MDType::Strings),
    ];
    MDTable::new(MDTableType::Assembly, "Assembly", columns)
}

fn table_assembly_processor() -> (table: MDTable)
    ensures
        spec_fresh_table(table, MDTableType::AssemblyProcessor, false),
{
    let columns: Vec<MDColumn> = vec![
        MDColumn::new(0, "Processor", MDType::UInt32),
    ];
    MDTable::new(MDTableType::AssemblyProcessor, "AssemblyProcessor", columns)
}

fn table_assembly_os() -> (table: MDTable)
    ensures
        spec_fresh_table(table, MDTableType::AssemblyOS, false),
{
    let columns: Vec<MDColumn> = vec![
        MDColumn::new(0, "OSPlatformId", MDType::UInt32),
        MDColumn::new(1, "OSMajorVersion", MDType::UInt32),
        MDColumn::new(2, "OSMinorVersion", MDType::UInt32),
    ];
    MDTable::new(MDTableType::AssemblyOS, "AssemblyOS", columns)
}

fn table_assembly_ref() -> (table: MDTable)
    ensures
        spec_fresh_table(table, MDTableType::AssemblyRef, false),
{
    let columns: Vec<MDColumn> = vec![
        MDColumn::new(0, "MajorVersion", MDType::UInt16),
        MDColumn::new(1, "MinorVersion", MDType::UInt16),
        MDColumn::new(2, "BuildNumber", MDType::UInt16),
        MDColumn::new(3, "RevisionNumber", MDType::UInt16),
        MDColumn::new(4, "Flags", MDType::UInt32),
        MDColumn::new(5, "PublicKeyOrToken", MDType::Blob),
        MDColumn::new(6, "Name", MDType::Strings),
        MDColumn::new(7, "Locale", MDType::Strings),
        MDColumn::new(8, "HashValue", MDType::Blob),
    ];
    MDTable::new(MDTableType::AssemblyRef, "AssemblyRef", columns)
}

fn table_assembly_ref_processor() -> (table: MDTable)
    ensures
        spec_fresh_table(table, MDTableType::AssemblyRefProcessor, false),
{
    let columns: Vec<MDColumn> = vec![
        MDColumn::new(0, "Processor", MDType::UInt32),
        MDColumn::new(1, "AssemblyRef", MDType::AssemblyRef),
    ];
    MDTable::new(MDTableType::AssemblyRefProcessor, "AssemblyRefProcessor", columns)
}

fn table_assembly_ref_os() -> (table: MDTable)
    ensures
        spec_fresh_table(table, MDTableType::AssemblyRefOS, false),
{
    let columns: Vec<MDColumn> = vec![
        MDColumn::new(0, "OSPlatformId", MDType::UInt32),
        MDColumn::new(1, "OSMajorVersion", MDType::UInt32),
        MDColumn::new(2, "OSMinorVersion", MDType::UInt32),
        MDColumn::new(3, "AssemblyRef", MDType::AssemblyRef),
    ];
    MDTable::new(MDTableType::AssemblyRefOS, "AssemblyRefOS", columns)
}

fn table_file() -> (table: MDTable)
    ensures
        spec_fresh_table(table, MDTableType::File, false),
{
    let columns: Vec<MDColumn> = vec![
        MDColumn::new(0, "Flags", MDType::UInt32),
        MDColumn::new(1, "Name", MDType::Strings),
        MDColumn::new(2, "HashValue", MDType::Blob),
    ];
    MDTable::new(MDTableType::File, "File", columns)
}

fn table_exported_type() -> (table: MDTable)
    ensures
        spec_fresh_table(table, MDTableType::ExportedType, false),
{
    let columns: Vec<MDColumn> = vec![
        MDColumn::new(0, "Flags", MDType::UInt32),
        MDColumn::new(1, "TypeDefId", MDType::UInt32),
        MDColumn::new(2, "TypeName", MDType::Strings),
        MDColumn::new(3, "TypeNamespace", MDType::Strings),
        MDColumn::new(4, "Implementation", MDType::Implementation),
    ];
    MDTable::new(MDTableType::ExportedType, "ExportedType", columns)
}

fn table_manifest_resource() -> (table: MDTable)
    ensures
        spec_fresh_table(table, MDTableType::ManifestResource, false),
{
    let columns: Vec<MDColumn> = vec![
        MDColumn::new(0, "Offset", MDType::UInt32),
        MDColumn::new(1, "Flags", MDType::UInt32),
        MDColumn::new(2, "Name", MDType::Strings),
        MDColumn::new(3, "Implementation", MDType::Implementation),
    ];
    MDTable::new(MDTableType::ManifestResource, "ManifestResource", columns)
}

fn table_nested_class() -> (table: MDTable)
    ensures
        spec_fresh_table(table, MDTableType::NestedClass, false),
{
    let columns: Vec<MDColumn> = vec![
        MDColumn::new(0, "NestedClass", MDType::TypeDef),
        MDColumn::new(1, "EnclosingClass", MDType::TypeDef),
    ];
    MDTable::new(MDTableType::NestedClass, "NestedClass", columns)
}

fn table_generic_param() -> (table: MDTable)
    ensures
        spec_fresh_table(table, MDTableType::GenericParam, false),
{
    let columns: Vec<MDColumn> = vec![
        MDColumn::new(0, "Number", MDType::UInt16),
        MDColumn::new(1, "Flags", MDType::UInt16),
        MDColumn::new(2, "Owner", MDType::TypeOrMethodDef),
        MDColumn::new(3, "Name", MDType::Strings),
    ];
    MDTable::new(MDTableType::GenericParam, "GenericParam", columns)
}

fn table_method_spec() -> (table: MDTable)
    ensures
        spec_fresh_table(table, MDTableType::MethodSpec, false),
{
    let columns: Vec<MDColumn> = vec![
        MDColumn::new(0, "Method", MDType::MethodDefOrRef),
        MDColumn::new(1, "Instantiation", MDType::Blob),
    ];
    MDTable::new(MDTableType::MethodSpec, "MethodSpec", columns)
}

fn table_generic_param_constraint() -> (table: MDTable)
    ensures
        spec_fresh_table(table, MDTableType::GenericParamConstraint, false),
{
    let columns: Vec<MDColumn> = vec![
        MDColumn::new(0, "Owner", MDType::GenericParam),
        MDColumn::new(1, "Constraint", MDType::TypeDefOrRef),
    ];
    MDTable::new(MDTableType::GenericParamConstraint, "GenericParamConstraint", columns)
}

fn table_x2_d() -> (table: MDTable)
    ensures
        spec_fresh_table(table, MDTableType::X2D, false),
{
    let columns: Vec<MDColumn> = vec![
    ];
    MDTable::new(MDTableType::X2D, "", columns)
}

fn table_x2_e() -> (table: MDTable)
    ensures
        spec_fresh_table(table, MDTableType::X2E, false),
{
    let columns: Vec<MDColumn> = vec![
    ];
    MDTable::new(MDTableType::X2E, "", columns)
}

fn table_x2_f() -> (table: MDTable)
    ensures
        spec_fresh_table(table, MDTableType::X2F, false),
{
    let columns: Vec<MDColumn> = vec![
    ];
    MDTable::new(MDTableType::X2F, "", columns)
}

fn table_document() -> (table: MDTable)
    ensures
        spec_fresh_table(table, MDTableType::Document, false),
{
    let columns: Vec<MDColumn> = vec![
        MDColumn::new(0, "Name", MDType::Blob),
        MDColumn::new(1, "HashAlgorithm", MDType::GUID),
        MDColumn::new(2, "Hash", MDType::Blob),
        MDColumn::new(3, "Language", MDType::GUID),
    ];
    MDTable::new(MDTableType::Document, "Document", columns)
}

fn table_method_debug_information() -> (table: MDTable)
    ensures
        spec_fresh_table(table, MDTableType::MethodDebugInformation, false),
{
    let columns: Vec<MDColumn> = vec![
        MDColumn::new(0, "Document", MDType::Document),
        MDColumn::new(1, "SequencePoints", MDType::Blob),
    ];
    MDTable::new(MDTableType::MethodDebugInformation, "MethodDebugInformation", columns)
}

fn table_local_scope() -> (table: MDTable)
    ensures
        spec_fresh_table(table, MDTableType::LocalScope, false),
{
    let columns: Vec<MDColumn> = vec![
        MDColumn::new(0, "Method", MDType::Method),
        MDColumn::new(1, "ImportScope", MDType::ImportScope),
        MDColumn::new(2, "VariableList", MDType::LocalVariable),
        MDColumn::new(3, "ConstantList", MDType::LocalConstant),
        MDColumn::new(4, "StartOffset", MDType::UInt32),
        MDColumn::new(5, "Length", MDType::UInt32),
    ];
    MDTable::new(MDTableType::LocalScope, "LocalScope", columns)
}

fn table_local_variable() -> (table: MDTable)
    ensures
        spec_fresh_table(table, MDTableType::LocalVariable, false),
{
    let columns: Vec<MDColumn> = vec![
        MDColumn::new(0, "Attributes", MDType::UInt16),
        MDColumn::new(1, "Index", MDType::UInt16),
        MDColumn::new(2, "Name", MDType::Strings),
    ];
    MDTable::new(MDTableType::LocalVariable, "LocalVariable", columns)
}

fn table_local_constant() -> (table: MDTable)
    ensures
        spec_fresh_table(table, MDTableType::LocalConstant, false),
{
    let columns: Vec<MDColumn> = vec![
        MDColumn::new(0, "Name", MDType::Strings),
        MDColumn::new(1, "Signature", MDType::Blob),
    ];
    MDTable::new(MDTableType::LocalConstant, "LocalConstant", columns)
}

fn table_import_scope() -> (table: MDTable)
    ensures
        spec_fresh_table(table, MDTableType::ImportScope, false),
{
    let columns: Vec<MDColumn> = vec![
        MDColumn::new(0, "Parent", MDType::ImportScope),
        MDColumn::new(1, "Imports", MDType::Blob),
    ];
    MDTable::new(MDTableType::ImportScope, "ImportScope", columns)
}

fn table_state_machine_method() -> (table: MDTable)
    ensures
        spec_fresh_table(table, MDTableType::StateMachineMethod, false),
{
    let columns: Vec<MDColumn> = vec![
        MDColumn::new(0, "MoveNextMethod", MDType::Method),
        MDColumn::new(1, "KickoffMethod", MDType::Method),
    ];
    MDTable::new(MDTableType::StateMachineMethod, "StateMachineMethod", columns)
}

fn table_custom_debug_information() -> (table: MDTable)
    ensures
        spec_fresh_table(table, MDTableType::CustomDebugInformation, false),
{
    let columns: Vec<MDColumn> = vec![
        MDColumn::new(0, "Parent", MDType::HasCustomDebugInformation),
        MDColumn::new(1, "Kind", MDType::GUID),
        MDColumn::new(2, "Value", MDType::Blob),
    ];
    MDTable::new(MDTableType::CustomDebugInformation, "CustomDebugInformation", columns)
}

fn table_generic_param_v1_1() -> (table: MDTable)
    ensures
        spec_fresh_table(table, MDTableType::GenericParam, true),
{
    let columns: Vec<MDColumn> = vec![
        MDColumn::new(0, "Number", MDType::UInt16),
        MDColumn::new(1, "Flags", MDType::UInt16),
        MDColumn::new(2, "Owner", MDType::TypeOrMethodDef),
        MDColumn::new(3, "Name", MDType::Strings),
        MDColumn::new(4, "Kind", MDType::TypeDefOrRef),
    ];
    MDTable::new(MDTableType::GenericParam, "GenericParam", columns)
}

impl TableStream {
    /// Puts the empty tables of the format into `tables`, in the order of their numbers,
    /// and returns how many of them a stream of this version can hold.
    pub fn create_tables(tables: &mut Vec<MDTable>, major_version: u8, minor_version: u8) -> (max_present_tables:
        usize)
        requires
            old(tables)@.len() == 0,
        ensures
            max_present_tables == spec_max_present_tables(major_version, minor_version),
            final(tables)@.len() == 56,
            forall|t: MDTableType| #[trigger]
                spec_fresh_table(
                    final(tables)@[t.spec_code() as int],
                    t,
                    spec_is_v1_1(major_version, minor_version),
                ),
    {
        let v1_1: bool = major_version == 1 && minor_version == 1;
        tables.push(table_module());
        tables.push(table_type_ref());
        tables.push(table_type_def());
        tables.push(table_field_ptr());
        tables.push(table_field());
        tables.push(table_method_ptr());
        tables.push(table_method());
        tables.push(table_param_ptr());
        tables.push(table_param());
        tables.push(table_interface_impl());
        tables.push(table_member_ref());
        tables.push(table_constant());
        tables.push(table_custom_attribute());
        tables.push(table_field_marshal());
        tables.push(table_decl_security());
        tables.push(table_class_layout());
        tables.push(table_field_layout());
        tables.push(table_stand_alone_sig());
        tables.push(table_event_map());
        tables.push(table_event_ptr());
        tables.push(table_event());
        tables.push(table_property_map());
        tables.push(table_property_ptr());
        tables.push(table_property());
        tables.push(table_method_semantics());
        tables.push(table_method_impl());
        tables.push(table_module_ref());
        tables.push(table_type_spec());
        tables.push(table_impl_map());
        tables.push(table_field_rva());
        tables.push(table_enc_log());
        tables.push(table_enc_map());
        tables.push(table_assembly());
        tables.push(table_assembly_processor());
        tables.push(table_assembly_os());
        tables.push(table_assembly_ref());
        tables.push(table_assembly_ref_processor());
        tables.push(table_assembly_ref_os());
        tables.push(table_file());
        tables.push(table_exported_type());
        tables.push(table_manifest_resource());
        tables.push(table_nested_class());
        if v1_1 {
            tables.push(table_generic_param_v1_1());
        } else {
            tables.push(table_generic_param());
        }
        tables.push(table_method_spec());
        tables.push(table_generic_param_constraint());
        tables.push(table_x2_d());
        tables.push(table_x2_e());
        tables.push(table_x2_f());
        tables.push(table_document());
        tables.push(table_method_debug_information());
        tables.push(table_local_scope());
        tables.push(table_local_variable());
        tables.push(table_local_constant());
        tables.push(table_import_scope());
        tables.push(table_state_machine_method());
        tables.push(table_custom_debug_information());
        proof {
            assert forall|t: MDTableType| #[trigger]
                spec_fresh_table(tables@[t.spec_code() as int], t, v1_1) by {
                lemma_schema_ignores_version(t, v1_1);
            }
        }
        if major_version == 1 && minor_version == 0 {
            42
        } else {
            56
        }
    }
}

/// Only the `GenericParam` table depends on the format version.
proof fn lemma_schema_ignores_version(t: MDTableType, v1_1: bool)
    ensures
        t != MDTableType::GenericParam ==> spec_schema(t, v1_1) == spec_schema(t, false)
            && spec_column_names(t, v1_1) == spec_column_names(t, false),
{
}

} // verus!
