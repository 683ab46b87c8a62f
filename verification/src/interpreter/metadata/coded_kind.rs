use super::table_kind::{MDTableType, MDType};
use vstd::prelude::*;

verus! {

/// The width of the tag of each kind of coded token.
pub open spec fn spec_coded_bits(kind: MDType) -> u32 {
    match kind {
        MDType::TypeDefOrRef => 2,
        MDType::HasConstant => 2,
        MDType::HasCustomAttribute => 5,
        MDType::HasFieldMarshal => 1,
        MDType::HasDeclSecurity => 2,
        MDType::MemberRefParent => 3,
        MDType::HasSemantic => 1,
        MDType::MethodDefOrRef => 1,
        MDType::MemberForwarded => 1,
        MDType::Implementation => 2,
        MDType::CustomAttributeType => 3,
        MDType::ResolutionScope => 2,
        MDType::TypeOrMethodDef => 1,
        MDType::HasCustomDebugInformation => 5,
        _ => 0,
    }
}

/// The candidate tables of each kind of coded token, in the order of their tags.
pub open spec fn spec_coded_tables(kind: MDType) -> Seq<MDTableType> {
    match kind {
        MDType::TypeDefOrRef => seq![
            MDTableType::TypeDef,
            MDTableType::TypeRef,
            MDTableType::TypeSpec,
        ],
        MDType::HasConstant => seq![
            MDTableType::Field,
            MDTableType::Param,
            MDTableType::Property,
        ],
        MDType::HasCustomAttribute => seq![
            MDTableType::Method,
            MDTableType::Field,
            MDTableType::TypeRef,
            MDTableType::TypeDef,
            MDTableType::Param,
            MDTableType::InterfaceImpl,
            MDTableType::MemberRef,
            MDTableType::Module,
            MDTableType::DeclSecurity,
            MDTableType::Property,
            MDTableType::Event,
            MDTableType::StandAloneSig,
            MDTableType::ModuleRef,
            MDTableType::TypeSpec,
            MDTableType::Assembly,
            MDTableType::AssemblyRef,
            MDTableType::File,
            MDTableType::ExportedType,
            MDTableType::ManifestResource,
            MDTableType::GenericParam,
            MDTableType::GenericParamConstraint,
            MDTableType::MethodSpec,
            MDTableType::Module,
            MDTableType::Module,
        ],
        MDType::HasFieldMarshal => seq![
            MDTableType::Field,
            MDTableType::Param,
        ],
        MDType::HasDeclSecurity => seq![
            MDTableType::TypeDef,
            MDTableType::Method,
            MDTableType::Assembly,
        ],
        MDType::MemberRefParent => seq![
            MDTableType::TypeDef,
            MDTableType::TypeRef,
            MDTableType::ModuleRef,
            MDTableType::Method,
            MDTableType::TypeSpec,
        ],
        MDType::HasSemantic => seq![
            MDTableType::Event,
            MDTableType::Property,
        ],
        MDType::MethodDefOrRef => seq![
            MDTableType::Method,
            MDTableType::MemberRef,
        ],
        MDType::MemberForwarded => seq![
            MDTableType::Field,
            MDTableType::Method,
        ],
        MDType::Implementation => seq![
            MDTableType::File,
            MDTableType::AssemblyRef,
            MDTableType::ExportedType,
        ],
        MDType::CustomAttributeType => seq![
            MDTableType::Module,
            MDTableType::Module,
            MDTableType::Method,
            MDTableType::MemberRef,
        ],
        MDType::ResolutionScope => seq![
            MDTableType::Module,
            MDTableType::ModuleRef,
            MDTableType::AssemblyRef,
            MDTableType::TypeRef,
        ],
        MDType::TypeOrMethodDef => seq![
            MDTableType::TypeDef,
            MDTableType::Method,
        ],
        MDType::HasCustomDebugInformation => seq![
            MDTableType::Method,
            MDTableType::Field,
            MDTableType::TypeRef,
            MDTableType::TypeDef,
            MDTableType::Param,
            MDTableType::InterfaceImpl,
            MDTableType::MemberRef,
            MDTableType::Module,
            MDTableType::DeclSecurity,
            MDTableType::Property,
            MDTableType::Event,
            MDTableType::StandAloneSig,
            MDTableType::ModuleRef,
            MDTableType::TypeSpec,
            MDTableType::Assembly,
            MDTableType::AssemblyRef,
            MDTableType::File,
            MDTableType::ExportedType,
            MDTableType::ManifestResource,
            MDTableType::GenericParam,
            MDTableType::GenericParamConstraint,
            MDTableType::MethodSpec,
            MDTableType::Document,
            MDTableType::LocalScope,
            MDTableType::LocalVariable,
            MDTableType::LocalConstant,
            MDTableType::ImportScope,
        ],
        _ => seq![],
    }
}

pub fn coded_bits(kind: MDType) -> (bits: u32)
    ensures
        bits == spec_coded_bits(kind),
        bits < 8,
{
    match kind {
        MDType::TypeDefOrRef => 2,
        MDType::HasConstant => 2,
        MDType::HasCustomAttribute => 5,
        MDType::HasFieldMarshal => 1,
        MDType::HasDeclSecurity => 2,
        MDType::MemberRefParent => 3,
        MDType::HasSemantic => 1,
        MDType::MethodDefOrRef => 1,
        MDType::MemberForwarded => 1,
        MDType::Implementation => 2,
        MDType::CustomAttributeType => 3,
        MDType::ResolutionScope => 2,
        MDType::TypeOrMethodDef => 1,
        MDType::HasCustomDebugInformation => 5,
        _ => 0,
    }
}

pub fn coded_tables(kind: MDType) -> (tables: Vec<MDTableType>)
    ensures
        tables@ == spec_coded_tables(kind),
        tables@.len() <= super::md_token::spec_tag_span(spec_coded_bits(kind)),
{
    let tables: Vec<MDTableType> = match kind {
        MDType::TypeDefOrRef => vec![
            MDTableType::TypeDef,
            MDTableType::TypeRef,
            MDTableType::TypeSpec,
        ],
        MDType::HasConstant => vec![
            MDTableType::Field,
            MDTableType::Param,
            MDTableType::Property,
        ],
        MDType::HasCustomAttribute => vec![
            MDTableType::Method,
            MDTableType::Field,
            MDTableType::TypeRef,
            MDTableType::TypeDef,
            MDTableType::Param,
            MDTableType::InterfaceImpl,
            MDTableType::MemberRef,
            MDTableType::Module,
            MDTableType::DeclSecurity,
            MDTableType::Property,
            MDTableType::Event,
            MDTableType::StandAloneSig,
            MDTableType::ModuleRef,
            MDTableType::TypeSpec,
            MDTableType::Assembly,
            MDTableType::AssemblyRef,
            MDTableType::File,
            MDTableType::ExportedType,
            MDTableType::ManifestResource,
            MDTableType::GenericParam,
            MDTableType::GenericParamConstraint,
            MDTableType::MethodSpec,
            MDTableType::Module,
            MDTableType::Module,
        ],
        MDType::HasFieldMarshal => vec![
            MDTableType::Field,
            MDTableType::Param,
        ],
        MDType::HasDeclSecurity => vec![
            MDTableType::TypeDef,
            MDTableType::Method,
            MDTableType::Assembly,
        ],
        MDType::MemberRefParent => vec![
            MDTableType::TypeDef,
            MDTableType::TypeRef,
            MDTableType::ModuleRef,
            MDTableType::Method,
            MDTableType::TypeSpec,
        ],
        MDType::HasSemantic => vec![
            MDTableType::Event,
            MDTableType::Property,
        ],
        MDType::MethodDefOrRef => vec![
            MDTableType::Method,
            MDTableType::MemberRef,
        ],
        MDType::MemberForwarded => vec![
            MDTableType::Field,
            MDTableType::Method,
        ],
        MDType::Implementation => vec![
            MDTableType::File,
            MDTableType::AssemblyRef,
            MDTableType::ExportedType,
        ],
        MDType::CustomAttributeType => vec![
            MDTableType::Module,
            MDTableType::Module,
            MDTableType::Method,
            MDTableType::MemberRef,
        ],
        MDType::ResolutionScope => vec![
            MDTableType::Module,
            MDTableType::ModuleRef,
            MDTableType::AssemblyRef,
            MDTableType::TypeRef,
        ],
        MDType::TypeOrMethodDef => vec![
            MDTableType::TypeDef,
            MDTableType::Method,
        ],
        MDType::HasCustomDebugInformation => vec![
            MDTableType::Method,
            MDTableType::Field,
            MDTableType::TypeRef,
            MDTableType::TypeDef,
            MDTableType::Param,
            MDTableType::InterfaceImpl,
            MDTableType::MemberRef,
            MDTableType::Module,
            MDTableType::DeclSecurity,
            MDTableType::Property,
            MDTableType::Event,
            MDTableType::StandAloneSig,
            MDTableType::ModuleRef,
            MDTableType::TypeSpec,
            MDTableType::Assembly,
            MDTableType::AssemblyRef,
            MDTableType::File,
            MDTableType::ExportedType,
            MDTableType::ManifestResource,
            MDTableType::GenericParam,
            MDTableType::GenericParamConstraint,
            MDTableType::MethodSpec,
            MDTableType::Document,
            MDTableType::LocalScope,
            MDTableType::LocalVariable,
            MDTableType::LocalConstant,
            MDTableType::ImportScope,
        ],
        _ => vec![],
    };
    assert(tables@ =~= spec_coded_tables(kind));
    tables
}

} // verus!
