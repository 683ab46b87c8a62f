use super::signature::{CallingConventionSig, CallingConventionSigView};
use vstd::prelude::*;
use vstd::string::StringExecFns;

verus! {

/// The largest rank, and the longest list of sizes or bounds, that an array type
/// may have.
pub const MAX_ARRAY_RANK: u32 = 64;

/// How deep the types of a signature may nest.
pub const MAX_SIG_DEPTH: u32 = 32;

/// The types of the core library that have an element-type code of their own.
#[derive(Clone, Copy, PartialEq, Eq, Debug, Structural)]
pub enum CorLibType {
    Void,
    Boolean,
    Char,
    SByte,
    Byte,
    Int16,
    UInt16,
    Int32,
    UInt32,
    Int64,
    UInt64,
    Single,
    Double,
    String,
    TypedReference,
    IntPtr,
    UIntPtr,
    Object,
}

impl CorLibType {
    /// The core-library type that an element-type code stands for, if it stands for one.
    pub open spec fn spec_from_code(code: int) -> Option<CorLibType> {
        if code == 0x01 {
            Some(CorLibType::Void)
        } else if code == 0x02 {
            Some(CorLibType::Boolean)
        } else if code == 0x03 {
            Some(CorLibType::Char)
        } else if code == 0x04 {
            Some(CorLibType::SByte)
        } else if code == 0x05 {
            Some(CorLibType::Byte)
        } else if code == 0x06 {
            Some(CorLibType::Int16)
        } else if code == 0x07 {
            Some(CorLibType::UInt16)
        } else if code == 0x08 {
            Some(CorLibType::Int32)
        } else if code == 0x09 {
            Some(CorLibType::UInt32)
        } else if code == 0x0A {
            Some(CorLibType::Int64)
        } else if code == 0x0B {
            Some(CorLibType::UInt64)
        } else if code == 0x0C {
            Some(CorLibType::Single)
        } else if code == 0x0D {
            Some(CorLibType::Double)
        } else if code == 0x0E {
            Some(CorLibType::String)
        } else if code == 0x16 {
            Some(CorLibType::TypedReference)
        } else if code == 0x18 {
            Some(CorLibType::IntPtr)
        } else if code == 0x19 {
            Some(CorLibType::UIntPtr)
        } else if code == 0x1C {
            Some(CorLibType::Object)
        } else {
            None
        }
    }

    pub fn from_code(code: u8) -> (kind: Option<CorLibType>)
        ensures
            kind == CorLibType::spec_from_code(code as int),
    {
        match code {
            0x01 => Some(CorLibType::Void),
            0x02 => Some(CorLibType::Boolean),
            0x03 => Some(CorLibType::Char),
            0x04 => Some(CorLibType::SByte),
            0x05 => Some(CorLibType::Byte),
            0x06 => Some(CorLibType::Int16),
            0x07 => Some(CorLibType::UInt16),
            0x08 => Some(CorLibType::Int32),
            0x09 => Some(CorLibType::UInt32),
            0x0A => Some(CorLibType::Int64),
            0x0B => Some(CorLibType::UInt64),
            0x0C => Some(CorLibType::Single),
            0x0D => Some(CorLibType::Double),
            0x0E => Some(CorLibType::String),
            0x16 => Some(CorLibType::TypedReference),
            0x18 => Some(CorLibType::IntPtr),
            0x19 => Some(CorLibType::UIntPtr),
            0x1C => Some(CorLibType::Object),
            _ => None,
        }
    }

    /// The element-type code of the type.
    pub open spec fn spec_code(self) -> u8 {
        match self {
            CorLibType::Void => 0x01,
            CorLibType::Boolean => 0x02,
            CorLibType::Char => 0x03,
            CorLibType::SByte => 0x04,
            CorLibType::Byte => 0x05,
            CorLibType::Int16 => 0x06,
            CorLibType::UInt16 => 0x07,
            CorLibType::Int32 => 0x08,
            CorLibType::UInt32 => 0x09,
            CorLibType::Int64 => 0x0A,
            CorLibType::UInt64 => 0x0B,
            CorLibType::Single => 0x0C,
            CorLibType::Double => 0x0D,
            CorLibType::String => 0x0E,
            CorLibType::TypedReference => 0x16,
            CorLibType::IntPtr => 0x18,
            CorLibType::UIntPtr => 0x19,
            CorLibType::Object => 0x1C,
        }
    }

    pub fn code(self) -> (c: u8)
        ensures
            c == self.spec_code(),
            CorLibType::spec_from_code(c as int) == Some(self),
    {
        match self {
            CorLibType::Void => 0x01,
            CorLibType::Boolean => 0x02,
            CorLibType::Char => 0x03,
            CorLibType::SByte => 0x04,
            CorLibType::Byte => 0x05,
            CorLibType::Int16 => 0x06,
            CorLibType::UInt16 => 0x07,
            CorLibType::Int32 => 0x08,
            CorLibType::UInt32 => 0x09,
            CorLibType::Int64 => 0x0A,
            CorLibType::UInt64 => 0x0B,
            CorLibType::Single => 0x0C,
            CorLibType::Double => 0x0D,
            CorLibType::String => 0x0E,
            CorLibType::TypedReference => 0x16,
            CorLibType::IntPtr => 0x18,
            CorLibType::UIntPtr => 0x19,
            CorLibType::Object => 0x1C,
        }
    }

    /// The short name of the type.
    pub open spec fn spec_short_name(self) -> Seq<char> {
        match self {
            CorLibType::Void => "Void"@,
            CorLibType::Boolean => "Boolean"@,
            CorLibType::Char => "Char"@,
            CorLibType::SByte => "SByte"@,
            CorLibType::Byte => "Byte"@,
            CorLibType::Int16 => "Int16"@,
            CorLibType::UInt16 => "UInt16"@,
            CorLibType::Int32 => "Int32"@,
            CorLibType::UInt32 => "UInt32"@,
            CorLibType::Int64 => "Int64"@,
            CorLibType::UInt64 => "UInt64"@,
            CorLibType::Single => "Single"@,
            CorLibType::Double => "Double"@,
            CorLibType::String => "String"@,
            CorLibType::TypedReference => "TypedReference"@,
            CorLibType::IntPtr => "IntPtr"@,
            CorLibType::UIntPtr => "UIntPtr"@,
            CorLibType::Object => "Object"@,
        }
    }

    /// The short name of the type.
    pub fn short_name(self) -> (name: &'static str)
        ensures
            name@ == self.spec_short_name(),
    {
        match self {
            CorLibType::Void => "Void",
            CorLibType::Boolean => "Boolean",
            CorLibType::Char => "Char",
            CorLibType::SByte => "SByte",
            CorLibType::Byte => "Byte",
            CorLibType::Int16 => "Int16",
            CorLibType::UInt16 => "UInt16",
            CorLibType::Int32 => "Int32",
            CorLibType::UInt32 => "UInt32",
            CorLibType::Int64 => "Int64",
            CorLibType::UInt64 => "UInt64",
            CorLibType::Single => "Single",
            CorLibType::Double => "Double",
            CorLibType::String => "String",
            CorLibType::TypedReference => "TypedReference",
            CorLibType::IntPtr => "IntPtr",
            CorLibType::UIntPtr => "UIntPtr",
            CorLibType::Object => "Object",
        }
    }

    /// The full name of the type in the core library.
    pub fn full_name(self) -> (name: &'static str)
        ensures
            name@ == self.spec_full_name(),
    {
        match self {
            CorLibType::Void => "System.Void",
            CorLibType::Boolean => "System.Boolean",
            CorLibType::Char => "System.Char",
            CorLibType::SByte => "System.SByte",
            CorLibType::Byte => "System.Byte",
            CorLibType::Int16 => "System.Int16",
            CorLibType::UInt16 => "System.UInt16",
            CorLibType::Int32 => "System.Int32",
            CorLibType::UInt32 => "System.UInt32",
            CorLibType::Int64 => "System.Int64",
            CorLibType::UInt64 => "System.UInt64",
            CorLibType::Single => "System.Single",
            CorLibType::Double => "System.Double",
            CorLibType::String => "System.String",
            CorLibType::TypedReference => "System.TypedReference",
            CorLibType::IntPtr => "System.IntPtr",
            CorLibType::UIntPtr => "System.UIntPtr",
            CorLibType::Object => "System.Object",
        }
    }

    pub open spec fn spec_full_name(self) -> Seq<char> {
        match self {
            CorLibType::Void => "System.Void"@,
            CorLibType::Boolean => "System.Boolean"@,
            CorLibType::Char => "System.Char"@,
            CorLibType::SByte => "System.SByte"@,
            CorLibType::Byte => "System.Byte"@,
            CorLibType::Int16 => "System.Int16"@,
            CorLibType::UInt16 => "System.UInt16"@,
            CorLibType::Int32 => "System.Int32"@,
            CorLibType::UInt32 => "System.UInt32"@,
            CorLibType::Int64 => "System.Int64"@,
            CorLibType::UInt64 => "System.UInt64"@,
            CorLibType::Single => "System.Single"@,
            CorLibType::Double => "System.Double"@,
            CorLibType::String => "System.String"@,
            CorLibType::TypedReference => "System.TypedReference"@,
            CorLibType::IntPtr => "System.IntPtr"@,
            CorLibType::UIntPtr => "System.UIntPtr"@,
            CorLibType::Object => "System.Object"@,
        }
    }
}

/// The codes that open a type in a signature.
#[derive(Clone, Copy, PartialEq, Eq, Debug, Structural)]
pub enum ElementType {
    /// Marks the end of a list (0x00)
    End,
    /// System.Void (0x01)
    Void,
    /// System.Boolean (0x02)
    Boolean,
    /// System.Char (0x03)
    Char,
    /// System.SByte (0x04)
    I1,
    /// System.Byte (0x05)
    U1,
    /// System.Int16 (0x06)
    I2,
    /// System.UInt16 (0x07)
    U2,
    /// System.Int32 (0x08)
    I4,
    /// System.UInt32 (0x09)
    U4,
    /// System.Int64 (0x0A)
    I8,
    /// System.UInt64 (0x0B)
    U8,
    /// System.Single (0x0C)
    R4,
    /// System.Double (0x0D)
    R8,
    /// System.String (0x0E)
    String,
    /// Pointer type (*) (0x0F)
    Ptr,
    /// ByRef type (&) (0x10)
    ByRef,
    /// Value type (0x11)
    ValueType,
    /// Reference type (0x12)
    Class,
    /// Type generic parameter (0x13)
    Var,
    /// Multidimensional array ([*], [,], [,,], ...) (0x14)
    Array,
    /// Generic instance type (0x15)
    GenericInst,
    /// Typed byref (0x16)
    TypedByRef,
    /// Value array (don't use) (0x17)
    ValueArray,
    /// System.IntPtr (0x18)
    I,
    /// System.UIntPtr (0x19)
    U,
    /// native real (don't use) (0x1A)
    R,
    /// Function pointer (0x1B)
    FnPtr,
    /// System.Object (0x1C)
    Object,
    /// Single-dimension, zero lower bound array ([]) (0x1D)
    SZArray,
    /// Method generic parameter (0x1E)
    MVar,
    /// Required C modifier (0x1F)
    CModReqd,
    /// Optional C modifier (0x20)
    CModOpt,
    /// Used internally by the CLR (don't use) (0x21)
    Internal,
    /// Module (don't use) (0x3F)
    Module,
    /// Sentinel (method sigs only) (0x41)
    Sentinel,
    /// Pinned type (locals only) (0x45)
    Pinned,
}

impl ElementType {
    /// The code of the element type.
    pub open spec fn spec_code(self) -> u8 {
        match self {
            ElementType::End => 0x00u8,
            ElementType::Void => 0x01u8,
            ElementType::Boolean => 0x02u8,
            ElementType::Char => 0x03u8,
            ElementType::I1 => 0x04u8,
            ElementType::U1 => 0x05u8,
            ElementType::I2 => 0x06u8,
            ElementType::U2 => 0x07u8,
            ElementType::I4 => 0x08u8,
            ElementType::U4 => 0x09u8,
            ElementType::I8 => 0x0Au8,
            ElementType::U8 => 0x0Bu8,
            ElementType::R4 => 0x0Cu8,
            ElementType::R8 => 0x0Du8,
            ElementType::String => 0x0Eu8,
            ElementType::Ptr => 0x0Fu8,
            ElementType::ByRef => 0x10u8,
            ElementType::ValueType => 0x11u8,
            ElementType::Class => 0x12u8,
            ElementType::Var => 0x13u8,
            ElementType::Array => 0x14u8,
            ElementType::GenericInst => 0x15u8,
            ElementType::TypedByRef => 0x16u8,
            ElementType::ValueArray => 0x17u8,
            ElementType::I => 0x18u8,
            ElementType::U => 0x19u8,
            ElementType::R => 0x1Au8,
            ElementType::FnPtr => 0x1Bu8,
            ElementType::Object => 0x1Cu8,
            ElementType::SZArray => 0x1Du8,
            ElementType::MVar => 0x1Eu8,
            ElementType::CModReqd => 0x1Fu8,
            ElementType::CModOpt => 0x20u8,
            ElementType::Internal => 0x21u8,
            ElementType::Module => 0x3Fu8,
            ElementType::Sentinel => 0x41u8,
            ElementType::Pinned => 0x45u8,
        }
    }

    /// The element type with the given code, if there is one.
    pub open spec fn spec_from_code(value: int) -> Option<ElementType> {
        if value == 0x00 {
            Some(ElementType::End)
        } else if value == 0x01 {
            Some(ElementType::Void)
        } else if value == 0x02 {
            Some(ElementType::Boolean)
        } else if value == 0x03 {
            Some(ElementType::Char)
        } else if value == 0x04 {
            Some(ElementType::I1)
        } else if value == 0x05 {
            Some(ElementType::U1)
        } else if value == 0x06 {
            Some(ElementType::I2)
        } else if value == 0x07 {
            Some(ElementType::U2)
        } else if value == 0x08 {
            Some(ElementType::I4)
        } else if value == 0x09 {
            Some(ElementType::U4)
        } else if value == 0x0A {
            Some(ElementType::I8)
        } else if value == 0x0B {
            Some(ElementType::U8)
        } else if value == 0x0C {
            Some(ElementType::R4)
        } else if value == 0x0D {
            Some(ElementType::R8)
        } else if value == 0x0E {
            Some(ElementType::String)
        } else if value == 0x0F {
            Some(ElementType::Ptr)
        } else if value == 0x10 {
            Some(ElementType::ByRef)
        } else if value == 0x11 {
            Some(ElementType::ValueType)
        } else if value == 0x12 {
            Some(ElementType::Class)
        } else if value == 0x13 {
            Some(ElementType::Var)
        } else if value == 0x14 {
            Some(ElementType::Array)
        } else if value == 0x15 {
            Some(ElementType::GenericInst)
        } else if value == 0x16 {
            Some(ElementType::TypedByRef)
        } else if value == 0x17 {
            Some(ElementType::ValueArray)
        } else if value == 0x18 {
            Some(ElementType::I)
        } else if value == 0x19 {
            Some(ElementType::U)
        } else if value == 0x1A {
            Some(ElementType::R)
        } else if value == 0x1B {
            Some(ElementType::FnPtr)
        } else if value == 0x1C {
            Some(ElementType::Object)
        } else if value == 0x1D {
            Some(ElementType::SZArray)
        } else if value == 0x1E {
            Some(ElementType::MVar)
        } else if value == 0x1F {
            Some(ElementType::CModReqd)
        } else if value == 0x20 {
            Some(ElementType::CModOpt)
        } else if value == 0x21 {
            Some(ElementType::Internal)
        } else if value == 0x3F {
            Some(ElementType::Module)
        } else if value == 0x41 {
            Some(ElementType::Sentinel)
        } else if value == 0x45 {
            Some(ElementType::Pinned)
        } else {
            None
        }
    }

    pub fn code(self) -> (c: u8)
        ensures
            c == self.spec_code(),
    {
        match self {
            ElementType::End => 0x00u8,
            ElementType::Void => 0x01u8,
            ElementType::Boolean => 0x02u8,
            ElementType::Char => 0x03u8,
            ElementType::I1 => 0x04u8,
            ElementType::U1 => 0x05u8,
            ElementType::I2 => 0x06u8,
            ElementType::U2 => 0x07u8,
            ElementType::I4 => 0x08u8,
            ElementType::U4 => 0x09u8,
            ElementType::I8 => 0x0Au8,
            ElementType::U8 => 0x0Bu8,
            ElementType::R4 => 0x0Cu8,
            ElementType::R8 => 0x0Du8,
            ElementType::String => 0x0Eu8,
            ElementType::Ptr => 0x0Fu8,
            ElementType::ByRef => 0x10u8,
            ElementType::ValueType => 0x11u8,
            ElementType::Class => 0x12u8,
            ElementType::Var => 0x13u8,
            ElementType::Array => 0x14u8,
            ElementType::GenericInst => 0x15u8,
            ElementType::TypedByRef => 0x16u8,
            ElementType::ValueArray => 0x17u8,
            ElementType::I => 0x18u8,
            ElementType::U => 0x19u8,
            ElementType::R => 0x1Au8,
            ElementType::FnPtr => 0x1Bu8,
            ElementType::Object => 0x1Cu8,
            ElementType::SZArray => 0x1Du8,
            ElementType::MVar => 0x1Eu8,
            ElementType::CModReqd => 0x1Fu8,
            ElementType::CModOpt => 0x20u8,
            ElementType::Internal => 0x21u8,
            ElementType::Module => 0x3Fu8,
            ElementType::Sentinel => 0x41u8,
            ElementType::Pinned => 0x45u8,
        }
    }

    pub fn from_u8(value: u8) -> (kind: Option<ElementType>)
        ensures
            kind == ElementType::spec_from_code(value as int),
            kind.is_some() ==> kind.unwrap().spec_code() == value,
    {
        match value {
            0x00 => Some(ElementType::End),
            0x01 => Some(ElementType::Void),
            0x02 => Some(ElementType::Boolean),
            0x03 => Some(ElementType::Char),
            0x04 => Some(ElementType::I1),
            0x05 => Some(ElementType::U1),
            0x06 => Some(ElementType::I2),
            0x07 => Some(ElementType::U2),
            0x08 => Some(ElementType::I4),
            0x09 => Some(ElementType::U4),
            0x0A => Some(ElementType::I8),
            0x0B => Some(ElementType::U8),
            0x0C => Some(ElementType::R4),
            0x0D => Some(ElementType::R8),
            0x0E => Some(ElementType::String),
            0x0F => Some(ElementType::Ptr),
            0x10 => Some(ElementType::ByRef),
            0x11 => Some(ElementType::ValueType),
            0x12 => Some(ElementType::Class),
            0x13 => Some(ElementType::Var),
            0x14 => Some(ElementType::Array),
            0x15 => Some(ElementType::GenericInst),
            0x16 => Some(ElementType::TypedByRef),
            0x17 => Some(ElementType::ValueArray),
            0x18 => Some(ElementType::I),
            0x19 => Some(ElementType::U),
            0x1A => Some(ElementType::R),
            0x1B => Some(ElementType::FnPtr),
            0x1C => Some(ElementType::Object),
            0x1D => Some(ElementType::SZArray),
            0x1E => Some(ElementType::MVar),
            0x1F => Some(ElementType::CModReqd),
            0x20 => Some(ElementType::CModOpt),
            0x21 => Some(ElementType::Internal),
            0x3F => Some(ElementType::Module),
            0x41 => Some(ElementType::Sentinel),
            0x45 => Some(ElementType::Pinned),
            _ => None,
        }
    }
}

/// A type named by the token of a row of the `TypeDef`, `TypeRef` or `TypeSpec` table.
#[derive(Clone, Copy, PartialEq, Eq, Debug, Structural)]
pub struct TypeDefOrRefSig {
    pub token: u32,
}

impl TypeDefOrRefSig {
    pub fn new(type_def_or_ref: u32) -> (sig: TypeDefOrRefSig)
        ensures
            sig.token == type_def_or_ref,
    {
        TypeDefOrRefSig { token: type_def_or_ref }
    }
}

/// A class or a value type, named by its token.
#[derive(Clone, Copy, PartialEq, Eq, Debug, Structural)]
pub struct ClassOrValueTypeSig {
    pub base: TypeDefOrRefSig,
}

/// A generic parameter: of a type where `is_type_var` holds, else of a method.
#[derive(Clone, Copy, PartialEq, Eq, Debug, Structural)]
pub struct GenericSig {
    pub is_type_var: bool,
    pub number: u32,
    pub param_provider: u32,
}

impl GenericSig {
    pub fn new(is_type_var: bool, number: u32, param_provider: u32) -> (sig: GenericSig)
        ensures
            sig == (GenericSig { is_type_var, number, param_provider }),
    {
        GenericSig { is_type_var, number, param_provider }
    }
}

/// A function pointer: it holds the signature of the function.
pub struct FnPtrSig {
    pub calling_convention_sig: Option<Box<CallingConventionSig>>,
}

impl FnPtrSig {
    pub fn new(calling_convention_sig: Option<CallingConventionSig>) -> (sig: FnPtrSig)
        ensures
            sig.calling_convention_sig == (match calling_convention_sig {
                Some(val) => Some(Box::new(val)),
                None => None,
            }),
    {
        FnPtrSig {
            calling_convention_sig: match calling_convention_sig {
                Some(val) => Some(Box::new(val)),
                None => None,
            },
        }
    }
}

/// An instance of a generic type: the open type and its type arguments.
pub struct GenericInstSig {
    pub generic_type: Option<ClassOrValueTypeSig>,
    pub generic_args: Vec<TypeSig>,
}

impl GenericInstSig {
    pub fn new(generic_type: Option<ClassOrValueTypeSig>, generic_args: Vec<TypeSig>) -> (sig:
        GenericInstSig)
        ensures
            sig.generic_type == generic_type,
            sig.generic_args == generic_args,
    {
        GenericInstSig { generic_type, generic_args }
    }

    /// The token of the open type; zero, the null token, where there is none.
    pub fn unwarp_token(&self) -> (token: u32)
        ensures
            token == (match self.generic_type {
                Some(t) => t.base.token,
                None => 0,
            }),
    {
        match &self.generic_type {
            Some(t) => t.base.token,
            None => 0,
        }
    }
}

/// A type made of one other type.
pub struct NoLeafSig {
    pub next_sig: Option<Box<TypeSig>>,
}

impl NoLeafSig {
    pub fn new(next_sig: Option<TypeSig>) -> (sig: NoLeafSig)
        ensures
            sig.next_sig == (match next_sig {
                Some(val) => Some(Box::new(val)),
                None => None,
            }),
    {
        NoLeafSig {
            next_sig: match next_sig {
                Some(val) => Some(Box::new(val)),
                None => None,
            },
        }
    }

    pub open spec fn view(&self) -> Option<Box<TypeSigView>>
        decreases self,
    {
        match self.next_sig {
            Some(b) => Some(Box::new((*b).view())),
            None => None,
        }
    }
}

/// An array type: its element type and its rank.
pub struct ArraySigBase {
    pub base: NoLeafSig,
    pub rank: u32,
}

impl ArraySigBase {
    pub fn new(array_type: Option<TypeSig>, rank: u32) -> (sig: ArraySigBase)
        ensures
            sig.rank == rank,
            sig.base.next_sig == (match array_type {
                Some(val) => Some(Box::new(val)),
                None => None,
            }),
    {
        ArraySigBase { base: NoLeafSig::new(array_type), rank }
    }
}

/// A general array type, with the sizes and the lower bounds of its dimensions as
/// far as the signature gives them.
pub struct ArraySig {
    pub base: ArraySigBase,
    pub sizes: Vec<u32>,
    pub lower_bounds: Vec<i32>,
}

impl ArraySig {
    /// An array type of rank zero.
    pub fn new_zero(array_type: Option<TypeSig>) -> (sig: ArraySig)
        ensures
            sig.base.rank == 0,
            sig.base.base.next_sig == (match array_type {
                Some(val) => Some(Box::new(val)),
                None => None,
            }),
            sig.sizes@ == Seq::<u32>::empty(),
            sig.lower_bounds@ == Seq::<i32>::empty(),
    {
        ArraySig { base: ArraySigBase::new(array_type, 0), sizes: Vec::new(), lower_bounds: Vec::new() }
    }

    pub fn new(array_type: Option<TypeSig>, rank: u32, sizes: Vec<u32>, lower_bounds: Vec<i32>) -> (sig:
        ArraySig)
        ensures
            sig.base.rank == rank,
            sig.base.base.next_sig == (match array_type {
                Some(val) => Some(Box::new(val)),
                None => None,
            }),
            sig.sizes == sizes,
            sig.lower_bounds == lower_bounds,
    {
        ArraySig { base: ArraySigBase::new(array_type, rank), sizes, lower_bounds }
    }
}

/// An array of a fixed number of values.
pub struct ValueArraySig {
    pub base: NoLeafSig,
    pub size: u32,
}

impl ValueArraySig {
    pub fn new(next_sig: Option<TypeSig>, size: u32) -> (sig: ValueArraySig)
        ensures
            sig.size == size,
            sig.base.next_sig == (match next_sig {
                Some(val) => Some(Box::new(val)),
                None => None,
            }),
    {
        ValueArraySig { base: NoLeafSig::new(next_sig), size }
    }
}

/// A type of another module.
pub struct ModuleSig {
    pub base: NoLeafSig,
    pub index: u32,
}

impl ModuleSig {
    pub fn new(index: u32, next_sig: Option<TypeSig>) -> (sig: ModuleSig)
        ensures
            sig.index == index,
            sig.base.next_sig == (match next_sig {
                Some(val) => Some(Box::new(val)),
                None => None,
            }),
    {
        ModuleSig { base: NoLeafSig::new(next_sig), index }
    }
}

/// A type as a signature describes it.
pub enum TypeSig {
    CorLibTypeSig(CorLibType),
    ValueTypeSig(Option<ClassOrValueTypeSig>),
    ClassSig(Option<ClassOrValueTypeSig>),
    GenericVar(GenericSig),
    GenericMVar(GenericSig),
    SentinelSig,
    FnPtrSig(FnPtrSig),
    GenericInstSig(GenericInstSig),
    PtrSig(NoLeafSig),
    ByRefSig(NoLeafSig),
    ArraySig(ArraySig),
    SZArraySig(ArraySigBase),
    CModReqdSig(NoLeafSig),
    CModOptSig(NoLeafSig),
    PinnedSig(NoLeafSig),
    ValueArraySig(ValueArraySig),
    ModuleSig(ModuleSig),
}

/// What a `TypeSig` holds, as a mathematical value: two signatures with the same
/// view are structurally equal.
pub enum TypeSigView {
    CorLib(CorLibType),
    ValueType(Option<ClassOrValueTypeSig>),
    Class(Option<ClassOrValueTypeSig>),
    Var(GenericSig),
    MVar(GenericSig),
    Sentinel,
    FnPtr(Option<Box<CallingConventionSigView>>),
    GenericInst(Option<ClassOrValueTypeSig>, Seq<TypeSigView>),
    Ptr(Option<Box<TypeSigView>>),
    ByRef(Option<Box<TypeSigView>>),
    Array(Option<Box<TypeSigView>>, u32, Seq<u32>, Seq<i32>),
    SZArray(Option<Box<TypeSigView>>, u32),
    CModReqd(Option<Box<TypeSigView>>),
    CModOpt(Option<Box<TypeSigView>>),
    Pinned(Option<Box<TypeSigView>>),
    ValueArray(Option<Box<TypeSigView>>, u32),
    Module(u32, Option<Box<TypeSigView>>),
}

/// The views of the types of a list.
pub open spec fn spec_type_views(types: Seq<TypeSig>) -> Seq<TypeSigView>
    decreases types,
{
    Seq::new(
        types.len(),
        |i: int|
            if 0 <= i < types.len() {
                types[i].view()
            } else {
                TypeSigView::Sentinel
            },
    )
}

impl TypeSig {
    pub open spec fn view(&self) -> TypeSigView
        decreases self,
    {
        match self {
            TypeSig::CorLibTypeSig(c) => TypeSigView::CorLib(*c),
            TypeSig::ValueTypeSig(t) => TypeSigView::ValueType(*t),
            TypeSig::ClassSig(t) => TypeSigView::Class(*t),
            TypeSig::GenericVar(g) => TypeSigView::Var(*g),
            TypeSig::GenericMVar(g) => TypeSigView::MVar(*g),
            TypeSig::SentinelSig => TypeSigView::Sentinel,
            TypeSig::FnPtrSig(f) => TypeSigView::FnPtr(
                match f.calling_convention_sig {
                    Some(b) => Some(Box::new((*b).view())),
                    None => None,
                },
            ),
            TypeSig::GenericInstSig(g) => TypeSigView::GenericInst(
                g.generic_type,
                spec_type_views(g.generic_args@),
            ),
            TypeSig::PtrSig(n) => TypeSigView::Ptr(n.view()),
            TypeSig::ByRefSig(n) => TypeSigView::ByRef(n.view()),
            TypeSig::ArraySig(a) => TypeSigView::Array(
                a.base.base.view(),
                a.base.rank,
                a.sizes@,
                a.lower_bounds@,
            ),
            TypeSig::SZArraySig(a) => TypeSigView::SZArray(a.base.view(), a.rank),
            TypeSig::CModReqdSig(n) => TypeSigView::CModReqd(n.view()),
            TypeSig::CModOptSig(n) => TypeSigView::CModOpt(n.view()),
            TypeSig::PinnedSig(n) => TypeSigView::Pinned(n.view()),
            TypeSig::ValueArraySig(a) => TypeSigView::ValueArray(a.base.view(), a.size),
            TypeSig::ModuleSig(m) => TypeSigView::Module(m.index, m.base.view()),
        }
    }
}

impl TypeSig {
    /// The text of the type: the short name of a type of the core library, and
    /// one text for every other type.
    pub open spec fn spec_text(&self) -> Seq<char> {
        match *self {
            TypeSig::CorLibTypeSig(c) => c.spec_short_name(),
            _ => "Non-CorLib Type"@,
        }
    }

    /// The text of the type.
    pub fn to_text(&self) -> (text: String)
        ensures
            text@ == self.spec_text(),
    {
        match self {
            TypeSig::CorLibTypeSig(c) => String::from_str(c.short_name()),
            _ => String::from_str("Non-CorLib Type"),
        }
    }
}

/// The texts of the first `upto` types of `types`, with a comma and a blank
/// between one and the next.
pub open spec fn spec_types_text(types: Seq<TypeSig>, upto: int) -> Seq<char>
    decreases upto,
{
    if upto <= 0 {
        Seq::empty()
    } else if upto == 1 {
        types[0].spec_text()
    } else {
        spec_types_text(types, upto - 1) + ", "@ + types[upto - 1].spec_text()
    }
}

} // verus!
