use super::data_reader::{
    spec_compressed_i32, spec_compressed_size, spec_compressed_u32, DataReader,
};
use super::metadata::md_token::CodedToken;
use super::metadata::root::{spec_decode_kind, Metadata};
use super::metadata::table_kind::MDType;
use super::type_sig::{
    spec_type_views, ArraySig, ArraySigBase, ClassOrValueTypeSig, CorLibType, ElementType,
    FnPtrSig, GenericInstSig, GenericSig, ModuleSig, NoLeafSig, TypeDefOrRefSig, TypeSig,
    TypeSigView, ValueArraySig, MAX_ARRAY_RANK, MAX_SIG_DEPTH, spec_types_text,
};
use vstd::prelude::*;
use vstd::string::StringExecFns;

verus! {

/// The calling conventions, in the low four bits of the first byte of a signature.
pub const CC_DEFAULT: u8 = 0x0;

pub const CC_C: u8 = 0x1;

pub const CC_STD_CALL: u8 = 0x2;

pub const CC_THIS_CALL: u8 = 0x3;

pub const CC_FAST_CALL: u8 = 0x4;

pub const CC_VAR_ARG: u8 = 0x5;

pub const CC_FIELD: u8 = 0x6;

pub const CC_LOCAL_SIG: u8 = 0x7;

pub const CC_PROPERTY: u8 = 0x8;

pub const CC_UNMANAGED: u8 = 0x9;

pub const CC_GENERIC_INST: u8 = 0xA;

pub const CC_NATIVE_VAR_ARG: u8 = 0xB;

/// The bits of the first byte that hold the calling convention.
pub const CC_MASK: u8 = 0x0F;

/// The method is generic.
pub const CC_GENERIC: u8 = 0x10;

/// The method has a `this` parameter.
pub const CC_HAS_THIS: u8 = 0x20;

/// The `this` parameter is written out as the first parameter.
pub const CC_EXPLICIT_THIS: u8 = 0x40;

pub const CC_RESERVED_BY_CLR: u8 = 0x80;

/// What every signature starts with: the byte of the calling convention.
#[derive(Debug)]
pub struct CallingConventionSigBase {
    pub calling_convention: u8,
    pub extra_data: Vec<u8>,
}

impl CallingConventionSigBase {
    pub fn new(calling_convention: u8) -> (base: CallingConventionSigBase)
        ensures
            base.calling_convention == calling_convention,
            base.extra_data@ == Seq::<u8>::empty(),
    {
        CallingConventionSigBase { calling_convention, extra_data: Vec::new() }
    }

    /// The base of a signature of the default calling convention.
    pub fn default() -> (base: CallingConventionSigBase)
        ensures
            base.calling_convention == 0,
            base.extra_data@ == Seq::<u8>::empty(),
    {
        CallingConventionSigBase { calling_convention: CC_DEFAULT, extra_data: Vec::new() }
    }

    pub fn get_is_default(&self) -> (b: bool)
        ensures
            b == (self.calling_convention & 0x0F == 0),
    {
        self.calling_convention & CC_MASK == CC_DEFAULT
    }

    pub fn get_generic(&self) -> (b: bool)
        ensures
            b == (self.calling_convention & 0x10 != 0),
    {
        self.calling_convention & CC_GENERIC != 0
    }

    pub fn set_generic(&mut self, value: bool)
        ensures
            final(self).extra_data == old(self).extra_data,
            final(self).calling_convention == (if value {
                old(self).calling_convention | 0x10
            } else {
                old(self).calling_convention & !0x10u8
            }),
            (final(self).calling_convention & 0x10 != 0) == value,
    {
        let cc: u8 = self.calling_convention;
        assert((cc | 0x10) & 0x10 != 0 && (cc & !0x10u8) & 0x10 == 0) by (bit_vector);
        if value {
            self.calling_convention = cc | CC_GENERIC;
        } else {
            self.calling_convention = cc & !CC_GENERIC;
        }
    }

    pub fn get_has_this(&self) -> (b: bool)
        ensures
            b == (self.calling_convention & 0x20 != 0),
    {
        self.calling_convention & CC_HAS_THIS != 0
    }

    pub fn set_has_this(&mut self, value: bool)
        ensures
            final(self).extra_data == old(self).extra_data,
            final(self).calling_convention == (if value {
                old(self).calling_convention | 0x20
            } else {
                old(self).calling_convention & !0x20u8
            }),
            (final(self).calling_convention & 0x20 != 0) == value,
    {
        let cc: u8 = self.calling_convention;
        assert((cc | 0x20) & 0x20 != 0 && (cc & !0x20u8) & 0x20 == 0) by (bit_vector);
        if value {
            self.calling_convention = cc | CC_HAS_THIS;
        } else {
            self.calling_convention = cc & !CC_HAS_THIS;
        }
    }

    pub fn get_explicit_this(&self) -> (b: bool)
        ensures
            b == (self.calling_convention & 0x40 != 0),
    {
        self.calling_convention & CC_EXPLICIT_THIS != 0
    }

    pub fn set_explicit_this(&mut self, value: bool)
        ensures
            final(self).extra_data == old(self).extra_data,
            final(self).calling_convention == (if value {
                old(self).calling_convention | 0x40
            } else {
                old(self).calling_convention & !0x40u8
            }),
            (final(self).calling_convention & 0x40 != 0) == value,
    {
        let cc: u8 = self.calling_convention;
        assert((cc | 0x40) & 0x40 != 0 && (cc & !0x40u8) & 0x40 == 0) by (bit_vector);
        if value {
            self.calling_convention = cc | CC_EXPLICIT_THIS;
        } else {
            self.calling_convention = cc & !CC_EXPLICIT_THIS;
        }
    }
}

/// The signature of a field: its type.
pub struct FieldSig {
    pub base: CallingConventionSigBase,
    pub type_sig: Option<TypeSig>,
}

impl FieldSig {
    pub fn new(calling_convention: u8, type_sig: Option<TypeSig>) -> (sig: FieldSig)
        ensures
            sig.base.calling_convention == calling_convention,
            sig.base.extra_data@ == Seq::<u8>::empty(),
            sig.type_sig == type_sig,
    {
        FieldSig { base: CallingConventionSigBase::new(calling_convention), type_sig }
    }
}

/// What the signatures of methods and properties share: the return type and the
/// types of the parameters.
pub struct MethodBaseSig {
    pub base: CallingConventionSigBase,
    pub ret_type: Option<TypeSig>,
    pub parameters: Vec<TypeSig>,
    pub gen_param_count: u32,
    /// A sentinel stood among the parameters.
    pub is_sentinel: bool,
}

impl MethodBaseSig {
    pub fn new(calling_convention: u8) -> (sig: MethodBaseSig)
        ensures
            sig.base.calling_convention == calling_convention,
            sig.base.extra_data@ == Seq::<u8>::empty(),
            sig.ret_type.is_none(),
            sig.parameters@ == Seq::<TypeSig>::empty(),
            sig.gen_param_count == 0,
            !sig.is_sentinel,
    {
        MethodBaseSig {
            base: CallingConventionSigBase::new(calling_convention),
            ret_type: None,
            parameters: Vec::new(),
            gen_param_count: 0,
            is_sentinel: false,
        }
    }
}

/// The signature of a method.
pub struct MethodSig {
    pub base: MethodBaseSig,
    pub origin_token: u32,
}

impl MethodSig {
    /// The text of the type that the method returns; no text where it is missing.
    pub fn get_ret_type_string(&self) -> (text: String)
        ensures
            text@ == (match self.base.ret_type {
                Some(t) => t.spec_text(),
                None => Seq::<char>::empty(),
            }),
    {
        match &self.base.ret_type {
            Some(t) => t.to_text(),
            None => String::new(),
        }
    }

    /// The texts of the types of the parameters, in parentheses, with a comma and
    /// a blank between one and the next.
    pub fn get_params_type_string(&self) -> (text: String)
        ensures
            text@ == "("@ + spec_types_text(
                self.base.parameters@,
                self.base.parameters@.len() as int,
            ) + ")"@,
    {
        let mut text: String = String::from_str("(");
        let mut i: usize = 0;
        while i < self.base.parameters.len()
            invariant
                i <= self.base.parameters@.len(),
                text@ == "("@ + spec_types_text(self.base.parameters@, i as int),
            decreases self.base.parameters@.len() - i,
        {
            if i > 0 {
                text.append(", ");
            }
            let one: String = self.base.parameters[i].to_text();
            text.append(one.as_str());
            i += 1;
            proof {
                let types = self.base.parameters@;
                if i == 1 {
                    assert("("@ + Seq::<char>::empty() + types[0].spec_text() =~= "("@
                        + types[0].spec_text());
                } else {
                    assert("("@ + spec_types_text(types, i - 1) + ", "@ + types[i - 1].spec_text()
                        =~= "("@ + (spec_types_text(types, i - 1) + ", "@ + types[i
                        - 1].spec_text()));
                }
            }
        }
        text.append(")");
        text
    }

    pub fn new(calling_convention: u8) -> (sig: MethodSig)
        ensures
            sig.base.base.calling_convention == calling_convention,
            sig.base.base.extra_data@ == Seq::<u8>::empty(),
            sig.base.ret_type.is_none(),
            sig.base.parameters@ == Seq::<TypeSig>::empty(),
            sig.base.gen_param_count == 0,
            !sig.base.is_sentinel,
            sig.origin_token == 0,
    {
        MethodSig { base: MethodBaseSig::new(calling_convention), origin_token: 0 }
    }

    pub open spec fn view(&self) -> MethodSigView
        decreases self,
    {
        MethodSigView {
            calling_convention: self.base.base.calling_convention,
            extra_data: self.base.base.extra_data@,
            ret_type: match self.base.ret_type {
                Some(t) => Some(t.view()),
                None => None,
            },
            parameters: spec_type_views(self.base.parameters@),
            gen_param_count: self.base.gen_param_count,
            is_sentinel: self.base.is_sentinel,
            origin_token: self.origin_token,
        }
    }
}

/// The signature of the local variables of a method: their types.
pub struct LocalSig {
    pub base: CallingConventionSigBase,
    pub locals: Vec<TypeSig>,
}

/// A signature as the `#Blob` heap holds it.
pub enum CallingConventionSig {
    FieldSig(FieldSig),
    MethodSig(MethodSig),
    PropertySig(MethodSig),
    LocalSig(LocalSig),
}

/// What a `MethodSig` holds, as a mathematical value.
pub struct MethodSigView {
    pub calling_convention: u8,
    pub extra_data: Seq<u8>,
    pub ret_type: Option<TypeSigView>,
    pub parameters: Seq<TypeSigView>,
    pub gen_param_count: u32,
    pub is_sentinel: bool,
    pub origin_token: u32,
}

/// What a `CallingConventionSig` holds, as a mathematical value.
pub enum CallingConventionSigView {
    FieldSig(u8, Seq<u8>, Option<TypeSigView>),
    MethodSig(MethodSigView),
    PropertySig(MethodSigView),
    LocalSig(u8, Seq<u8>, Seq<TypeSigView>),
}

impl CallingConventionSig {
    pub open spec fn view(&self) -> CallingConventionSigView
        decreases self,
    {
        match self {
            CallingConventionSig::FieldSig(f) => CallingConventionSigView::FieldSig(
                f.base.calling_convention,
                f.base.extra_data@,
                match f.type_sig {
                    Some(t) => Some(t.view()),
                    None => None,
                },
            ),
            CallingConventionSig::MethodSig(m) => CallingConventionSigView::MethodSig(m.view()),
            CallingConventionSig::PropertySig(m) => CallingConventionSigView::PropertySig(
                m.view(),
            ),
            CallingConventionSig::LocalSig(l) => CallingConventionSigView::LocalSig(
                l.base.calling_convention,
                l.base.extra_data@,
                spec_type_views(l.locals@),
            ),
        }
    }

    /// The method signature that `self` is.
    pub fn to_method_sig(&self) -> (sig: &MethodSig)
        requires
            self is MethodSig,
        ensures
            *self == CallingConventionSig::MethodSig(*sig),
    {
        match self {
            CallingConventionSig::MethodSig(sig) => sig,
            _ => vstd::pervasive::unreached(),
        }
    }
}

/// The compressed unsigned integer at `pos`, with the place behind it.
pub open spec fn spec_compressed(s: Seq<u8>, pos: int) -> Option<(u32, int)> {
    if spec_compressed_size(s, pos) > 0 {
        Some((spec_compressed_u32(s, pos) as u32, pos + spec_compressed_size(s, pos)))
    } else {
        None
    }
}

/// The compressed signed integer at `pos`, with the place behind it.
pub open spec fn spec_compressed_signed(s: Seq<u8>, pos: int) -> Option<(i32, int)> {
    if spec_compressed_size(s, pos) > 0 {
        Some(
            (
                spec_compressed_i32(spec_compressed_u32(s, pos), spec_compressed_size(s, pos)) as i32,
                pos + spec_compressed_size(s, pos),
            ),
        )
    } else {
        None
    }
}

/// The `n` compressed unsigned integers from `pos` on, with the place behind them.
pub open spec fn spec_u32_list(s: Seq<u8>, pos: int, n: nat) -> Option<(Seq<u32>, int)>
    decreases n,
{
    if n == 0 {
        Some((Seq::<u32>::empty(), pos))
    } else {
        match spec_u32_list(s, pos, (n - 1) as nat) {
            Some((list, p)) => match spec_compressed(s, p) {
                Some((v, q)) => Some((list.push(v), q)),
                None => None,
            },
            None => None,
        }
    }
}

/// The `n` compressed signed integers from `pos` on, with the place behind them.
pub open spec fn spec_i32_list(s: Seq<u8>, pos: int, n: nat) -> Option<(Seq<i32>, int)>
    decreases n,
{
    if n == 0 {
        Some((Seq::<i32>::empty(), pos))
    } else {
        match spec_i32_list(s, pos, (n - 1) as nat) {
            Some((list, p)) => match spec_compressed_signed(s, p) {
                Some((v, q)) => Some((list.push(v), q)),
                None => None,
            },
            None => None,
        }
    }
}

/// The class or value type that the coded token at `pos` names.
pub open spec fn spec_class_or_value_type(s: Seq<u8>, pos: int) -> Option<
    (ClassOrValueTypeSig, int),
> {
    match spec_compressed(s, pos) {
        Some((coded, p)) => match spec_decode_kind(MDType::TypeDefOrRef, coded) {
            Some(token) => Some(
                (ClassOrValueTypeSig { base: TypeDefOrRefSig { token } }, p),
            ),
            None => None,
        },
        None => None,
    }
}

/// The open type of a generic instance: the class or value type that `inner` is.
pub open spec fn spec_open_type(inner: TypeSigView) -> Option<ClassOrValueTypeSig> {
    match inner {
        TypeSigView::ValueType(t) => t,
        TypeSigView::Class(t) => t,
        _ => None,
    }
}

/// The type that starts at `pos`, with the place behind it; `None` where the bytes
/// hold no type, or one that nests deeper than `depth`.
///
/// The first byte is the element-type code. The codes of the core-library types
/// stand for themselves; `Ptr`, `ByRef`, `SZArray`, `CModReqd`, `CModOpt` and
/// `Pinned` are followed by one type; `ValueType` and `Class` by a coded token;
/// `Var` and `MVar` by the number of the parameter; `FnPtr` by a signature;
/// `GenericInst` by the open type, the number of arguments and the arguments;
/// `Array` by the element type, the rank, and the lists of sizes and lower bounds.
pub open spec fn spec_type(s: Seq<u8>, pos: int, depth: nat) -> Option<(TypeSigView, int)>
    decreases depth, 0nat, 0nat,
{
    if depth == 0 || pos < 0 || pos >= s.len() {
        None
    } else {
        let code = s[pos] as int;
        let next = pos + 1;
        let d = (depth - 1) as nat;
        if CorLibType::spec_from_code(code).is_some() {
            Some((TypeSigView::CorLib(CorLibType::spec_from_code(code).unwrap()), next))
        } else if code == 0x0F {
            match spec_type(s, next, d) {
                Some((t, p)) => Some((TypeSigView::Ptr(Some(Box::new(t))), p)),
                None => None,
            }
        } else if code == 0x10 {
            match spec_type(s, next, d) {
                Some((t, p)) => Some((TypeSigView::ByRef(Some(Box::new(t))), p)),
                None => None,
            }
        } else if code == 0x11 {
            match spec_class_or_value_type(s, next) {
                Some((t, p)) => Some((TypeSigView::ValueType(Some(t)), p)),
                None => None,
            }
        } else if code == 0x12 {
            match spec_class_or_value_type(s, next) {
                Some((t, p)) => Some((TypeSigView::Class(Some(t)), p)),
                None => None,
            }
        } else if code == 0x13 {
            match spec_compressed(s, next) {
                Some((n, p)) => Some(
                    (
                        TypeSigView::Var(
                            GenericSig { is_type_var: true, number: n, param_provider: 0 },
                        ),
                        p,
                    ),
                ),
                None => None,
            }
        } else if code == 0x1E {
            match spec_compressed(s, next) {
                Some((n, p)) => Some(
                    (
                        TypeSigView::MVar(
                            GenericSig { is_type_var: false, number: n, param_provider: 0 },
                        ),
                        p,
                    ),
                ),
                None => None,
            }
        } else if code == 0x14 {
            match spec_type(s, next, d) {
                Some((t, p)) => spec_array_tail(s, p, t),
                None => None,
            }
        } else if code == 0x15 {
            match spec_type(s, next, d) {
                Some((t, p)) => match spec_compressed(s, p) {
                    Some((n, q)) => match spec_types(s, q, n as nat, d) {
                        Some((args, r)) => Some(
                            (TypeSigView::GenericInst(spec_open_type(t), args), r),
                        ),
                        None => None,
                    },
                    None => None,
                },
                None => None,
            }
        } else if code == 0x17 {
            match spec_type(s, next, d) {
                Some((t, p)) => match spec_compressed(s, p) {
                    Some((n, q)) => Some((TypeSigView::ValueArray(Some(Box::new(t)), n), q)),
                    None => None,
                },
                None => None,
            }
        } else if code == 0x1B {
            match spec_sig(s, next, d) {
                Some((sig, p)) => Some((TypeSigView::FnPtr(Some(Box::new(sig))), p)),
                None => None,
            }
        } else if code == 0x1D {
            match spec_type(s, next, d) {
                Some((t, p)) => Some((TypeSigView::SZArray(Some(Box::new(t)), 0), p)),
                None => None,
            }
        } else if code == 0x1F {
            match spec_type(s, next, d) {
                Some((t, p)) => Some((TypeSigView::CModReqd(Some(Box::new(t))), p)),
                None => None,
            }
        } else if code == 0x20 {
            match spec_type(s, next, d) {
                Some((t, p)) => Some((TypeSigView::CModOpt(Some(Box::new(t))), p)),
                None => None,
            }
        } else if code == 0x3F {
            match spec_compressed(s, next) {
                Some((n, p)) => match spec_type(s, p, d) {
                    Some((t, q)) => Some((TypeSigView::Module(n, Some(Box::new(t))), q)),
                    None => None,
                },
                None => None,
            }
        } else if code == 0x41 {
            Some((TypeSigView::Sentinel, next))
        } else if code == 0x45 {
            match spec_type(s, next, d) {
                Some((t, p)) => Some((TypeSigView::Pinned(Some(Box::new(t))), p)),
                None => None,
            }
        } else {
            None
        }
    }
}

/// What follows the element type `element` of an array type: the rank, then, unless
/// the rank is zero, the number of sizes, the sizes, the number of lower bounds and
/// the lower bounds. Neither the rank nor a number may pass sixty-four.
pub open spec fn spec_array_tail(s: Seq<u8>, pos: int, element: TypeSigView) -> Option<
    (TypeSigView, int),
> {
    match spec_compressed(s, pos) {
        Some((rank, p)) => if rank > 64 {
            None
        } else if rank == 0 {
            Some(
                (
                    TypeSigView::Array(
                        Some(Box::new(element)),
                        0,
                        Seq::<u32>::empty(),
                        Seq::<i32>::empty(),
                    ),
                    p,
                ),
            )
        } else {
            match spec_compressed(s, p) {
                Some((size_count, q)) => if size_count > 64 {
                    None
                } else {
                    match spec_u32_list(s, q, size_count as nat) {
                        Some((sizes, r)) => match spec_compressed(s, r) {
                            Some((bound_count, t)) => if bound_count > 64 {
                                None
                            } else {
                                match spec_i32_list(s, t, bound_count as nat) {
                                    Some((bounds, u)) => Some(
                                        (
                                            TypeSigView::Array(
                                                Some(Box::new(element)),
                                                rank,
                                                sizes,
                                                bounds,
                                            ),
                                            u,
                                        ),
                                    ),
                                    None => None,
                                }
                            },
                            None => None,
                        },
                        None => None,
                    }
                },
                None => None,
            }
        },
        None => None,
    }
}

/// The `n` types from `pos` on, with the place behind them.
pub open spec fn spec_types(s: Seq<u8>, pos: int, n: nat, depth: nat) -> Option<
    (Seq<TypeSigView>, int),
>
    decreases depth, 1nat, n,
{
    if n == 0 {
        Some((Seq::<TypeSigView>::empty(), pos))
    } else {
        match spec_types(s, pos, (n - 1) as nat, depth) {
            Some((list, p)) => match spec_type(s, p, depth) {
                Some((t, q)) => Some((list.push(t), q)),
                None => None,
            },
            None => None,
        }
    }
}

/// The `n` parameters from `pos` on: the types that are no sentinel, whether a
/// sentinel stood among them, and the place behind them.
pub open spec fn spec_params(s: Seq<u8>, pos: int, n: nat, depth: nat) -> Option<
    (Seq<TypeSigView>, bool, int),
>
    decreases depth, 1nat, n,
{
    if n == 0 {
        Some((Seq::<TypeSigView>::empty(), false, pos))
    } else {
        match spec_params(s, pos, (n - 1) as nat, depth) {
            Some((list, sentinel, p)) => match spec_type(s, p, depth) {
                Some((t, q)) => if t is Sentinel {
                    Some((list, true, q))
                } else {
                    Some((list.push(t), sentinel, q))
                },
                None => None,
            },
            None => None,
        }
    }
}

/// The method signature whose calling-convention byte `cc` stood before `pos`: the
/// number of generic parameters where the byte marks the method generic, the number
/// of parameters, the return type and the parameters.
pub open spec fn spec_method_sig(s: Seq<u8>, pos: int, cc: u8, depth: nat) -> Option<
    (MethodSigView, int),
>
    decreases depth, 2nat, 0nat,
{
    let generic = if cc & 0x10 != 0 {
        spec_compressed(s, pos)
    } else {
        Some((0u32, pos))
    };
    match generic {
        Some((gen_param_count, p)) => match spec_compressed(s, p) {
            Some((param_count, q)) => match spec_type(s, q, depth) {
                Some((ret, r)) => match spec_params(s, r, param_count as nat, depth) {
                    Some((parameters, is_sentinel, end)) => Some(
                        (
                            MethodSigView {
                                calling_convention: cc,
                                extra_data: Seq::<u8>::empty(),
                                ret_type: Some(ret),
                                parameters,
                                gen_param_count,
                                is_sentinel,
                                origin_token: 0,
                            },
                            end,
                        ),
                    ),
                    None => None,
                },
                None => None,
            },
            None => None,
        },
        None => None,
    }
}

/// The signature that starts at `pos`, with the place behind it. The low four bits
/// of its first byte tell a field from a property, from the local variables of a
/// method, and from a method of one of the calling conventions.
pub open spec fn spec_sig(s: Seq<u8>, pos: int, depth: nat) -> Option<
    (CallingConventionSigView, int),
>
    decreases depth, 3nat, 0nat,
{
    if pos < 0 || pos >= s.len() {
        None
    } else {
        let cc = s[pos];
        let kind = cc & 0x0F;
        let next = pos + 1;
        if kind <= 0x5 || kind == 0x9 || kind == 0xB {
            match spec_method_sig(s, next, cc, depth) {
                Some((m, p)) => Some((CallingConventionSigView::MethodSig(m), p)),
                None => None,
            }
        } else if kind == 0x6 {
            match spec_type(s, next, depth) {
                Some((t, p)) => Some(
                    (CallingConventionSigView::FieldSig(cc, Seq::<u8>::empty(), Some(t)), p),
                ),
                None => None,
            }
        } else if kind == 0x7 {
            match spec_compressed(s, next) {
                Some((n, p)) => match spec_types(s, p, n as nat, depth) {
                    Some((locals, q)) => Some(
                        (CallingConventionSigView::LocalSig(cc, Seq::<u8>::empty(), locals), q),
                    ),
                    None => None,
                },
                None => None,
            }
        } else if kind == 0x8 {
            match spec_method_sig(s, next, cc, depth) {
                Some((m, p)) => Some((CallingConventionSigView::PropertySig(m), p)),
                None => None,
            }
        } else {
            None
        }
    }
}

/// The signature that a blob holds.
pub open spec fn spec_blob_sig(blob: Seq<u8>) -> Option<CallingConventionSigView> {
    match spec_sig(blob, 0, 32) {
        Some((sig, end)) => Some(sig),
        None => None,
    }
}

fn read_u32_list(reader: &DataReader, offset: &mut usize, count: u32) -> (list: Option<Vec<u32>>)
    ensures
        match list {
            Some(l) => spec_u32_list(reader.bytes(), *old(offset) as int, count as nat) == Some(
                (l@, *final(offset) as int),
            ),
            None => spec_u32_list(reader.bytes(), *old(offset) as int, count as nat).is_none(),
        },
{
    let mut list: Vec<u32> = Vec::new();
    let mut i: u32 = 0;
    while i < count
        invariant
            i <= count,
            spec_u32_list(reader.bytes(), *old(offset) as int, i as nat) == Some(
                (list@, *offset as int),
            ),
        decreases count - i,
    {
        match reader.try_read_compressed_u32_immut(offset) {
            Some(v) => {
                list.push(v);
            },
            None => {
                proof {
                    lemma_u32_list_fails(
                        reader.bytes(),
                        *old(offset) as int,
                        (i + 1) as nat,
                        count as nat,
                    );
                }
                return None;
            },
        }
        i += 1;
    }
    Some(list)
}

fn read_i32_list(reader: &DataReader, offset: &mut usize, count: u32) -> (list: Option<Vec<i32>>)
    ensures
        match list {
            Some(l) => spec_i32_list(reader.bytes(), *old(offset) as int, count as nat) == Some(
                (l@, *final(offset) as int),
            ),
            None => spec_i32_list(reader.bytes(), *old(offset) as int, count as nat).is_none(),
        },
{
    let mut list: Vec<i32> = Vec::new();
    let mut i: u32 = 0;
    while i < count
        invariant
            i <= count,
            spec_i32_list(reader.bytes(), *old(offset) as int, i as nat) == Some(
                (list@, *offset as int),
            ),
        decreases count - i,
    {
        match reader.try_read_compressed_i32_immut(offset) {
            Some(v) => {
                list.push(v);
            },
            None => {
                proof {
                    lemma_i32_list_fails(
                        reader.bytes(),
                        *old(offset) as int,
                        (i + 1) as nat,
                        count as nat,
                    );
                }
                return None;
            },
        }
        i += 1;
    }
    Some(list)
}

proof fn lemma_u32_list_fails(s: Seq<u8>, pos: int, k: nat, n: nat)
    requires
        k <= n,
        spec_u32_list(s, pos, k).is_none(),
    ensures
        spec_u32_list(s, pos, n).is_none(),
    decreases n,
{
    if k < n {
        lemma_u32_list_fails(s, pos, k, (n - 1) as nat);
    }
}

proof fn lemma_i32_list_fails(s: Seq<u8>, pos: int, k: nat, n: nat)
    requires
        k <= n,
        spec_i32_list(s, pos, k).is_none(),
    ensures
        spec_i32_list(s, pos, n).is_none(),
    decreases n,
{
    if k < n {
        lemma_i32_list_fails(s, pos, k, (n - 1) as nat);
    }
}

proof fn lemma_types_fail(s: Seq<u8>, pos: int, k: nat, n: nat, depth: nat)
    requires
        k <= n,
        spec_types(s, pos, k, depth).is_none(),
    ensures
        spec_types(s, pos, n, depth).is_none(),
    decreases n,
{
    if k < n {
        lemma_types_fail(s, pos, k, (n - 1) as nat, depth);
    }
}

proof fn lemma_params_fail(s: Seq<u8>, pos: int, k: nat, n: nat, depth: nat)
    requires
        k <= n,
        spec_params(s, pos, k, depth).is_none(),
    ensures
        spec_params(s, pos, n, depth).is_none(),
    decreases n,
{
    if k < n {
        lemma_params_fail(s, pos, k, (n - 1) as nat, depth);
    }
}

fn read_class_or_value_type(reader: &DataReader, offset: &mut usize) -> (sig: Option<
    ClassOrValueTypeSig,
>)
    ensures
        match sig {
            Some(t) => spec_class_or_value_type(reader.bytes(), *old(offset) as int) == Some(
                (t, *final(offset) as int),
            ),
            None => spec_class_or_value_type(reader.bytes(), *old(offset) as int).is_none(),
        },
{
    let coded_token: u32 = reader.try_read_compressed_u32_immut(offset)?;
    let token: u32 = CodedToken::from_md_type(MDType::TypeDefOrRef).decode(coded_token)?;
    Some(ClassOrValueTypeSig { base: TypeDefOrRefSig::new(token) })
}

fn read_types(reader: &DataReader, offset: &mut usize, count: u32, depth: u32) -> (list: Option<
    Vec<TypeSig>,
>)
    ensures
        match list {
            Some(l) => spec_types(
                reader.bytes(),
                *old(offset) as int,
                count as nat,
                depth as nat,
            ) == Some((spec_type_views(l@), *final(offset) as int)),
            None => spec_types(
                reader.bytes(),
                *old(offset) as int,
                count as nat,
                depth as nat,
            ).is_none(),
        },
    decreases depth, 1nat, 0nat,
{
    let mut list: Vec<TypeSig> = Vec::new();
    let mut i: u32 = 0;
    assert(spec_type_views(list@) =~= Seq::<TypeSigView>::empty());
    while i < count
        invariant
            i <= count,
            spec_types(reader.bytes(), *old(offset) as int, i as nat, depth as nat) == Some(
                (spec_type_views(list@), *offset as int),
            ),
        decreases count - i,
    {
        let ghost before = list@;
        match read_type_depth(reader, offset, depth) {
            Some(t) => {
                list.push(t);
                assert(spec_type_views(list@) =~= spec_type_views(before).push(t.view()));
            },
            None => {
                proof {
                    lemma_types_fail(
                        reader.bytes(),
                        *old(offset) as int,
                        (i + 1) as nat,
                        count as nat,
                        depth as nat,
                    );
                }
                return None;
            },
        }
        i += 1;
    }
    Some(list)
}

fn read_array_tail(reader: &DataReader, offset: &mut usize, element: TypeSig) -> (sig: Option<
    TypeSig,
>)
    ensures
        match sig {
            Some(t) => spec_array_tail(reader.bytes(), *old(offset) as int, element.view())
                == Some((t.view(), *final(offset) as int)),
            None => spec_array_tail(reader.bytes(), *old(offset) as int, element.view()).is_none(),
        },
{
    let rank: u32 = reader.try_read_compressed_u32_immut(offset)?;
    if rank > MAX_ARRAY_RANK {
        return None;
    }
    if rank == 0 {
        return Some(TypeSig::ArraySig(ArraySig::new_zero(Some(element))));
    }
    let size_count: u32 = reader.try_read_compressed_u32_immut(offset)?;
    if size_count > MAX_ARRAY_RANK {
        return None;
    }
    let sizes: Vec<u32> = read_u32_list(reader, offset, size_count)?;
    let bound_count: u32 = reader.try_read_compressed_u32_immut(offset)?;
    if bound_count > MAX_ARRAY_RANK {
        return None;
    }
    let lower_bounds: Vec<i32> = read_i32_list(reader, offset, bound_count)?;
    Some(TypeSig::ArraySig(ArraySig::new(Some(element), rank, sizes, lower_bounds)))
}

/// Reads the type at `offset`, nesting no deeper than `depth`.
fn read_type_depth(reader: &DataReader, offset: &mut usize, depth: u32) -> (sig: Option<TypeSig>)
    ensures
        match sig {
            Some(t) => spec_type(reader.bytes(), *old(offset) as int, depth as nat) == Some(
                (t.view(), *final(offset) as int),
            ),
            None => spec_type(reader.bytes(), *old(offset) as int, depth as nat).is_none(),
        },
    decreases depth, 0nat, 0nat,
{
    if depth == 0 {
        return None;
    }
    let d: u32 = depth - 1;
    let code: u8 = match reader.read_u8_immut(offset) {
        Ok(code) => code,
        Err(_) => {
            return None;
        },
    };
    match CorLibType::from_code(code) {
        Some(c) => {
            return Some(TypeSig::CorLibTypeSig(c));
        },
        None => {},
    }
    match ElementType::from_u8(code) {
        Some(ElementType::Ptr) => {
            let inner: TypeSig = read_type_depth(reader, offset, d)?;
            Some(TypeSig::PtrSig(NoLeafSig::new(Some(inner))))
        },
        Some(ElementType::ByRef) => {
            let inner: TypeSig = read_type_depth(reader, offset, d)?;
            Some(TypeSig::ByRefSig(NoLeafSig::new(Some(inner))))
        },
        Some(ElementType::ValueType) => {
            let t: ClassOrValueTypeSig = read_class_or_value_type(reader, offset)?;
            Some(TypeSig::ValueTypeSig(Some(t)))
        },
        Some(ElementType::Class) => {
            let t: ClassOrValueTypeSig = read_class_or_value_type(reader, offset)?;
            Some(TypeSig::ClassSig(Some(t)))
        },
        Some(ElementType::Var) => {
            let num: u32 = reader.try_read_compressed_u32_immut(offset)?;
            Some(TypeSig::GenericVar(GenericSig::new(true, num, 0)))
        },
        Some(ElementType::MVar) => {
            let num: u32 = reader.try_read_compressed_u32_immut(offset)?;
            Some(TypeSig::GenericMVar(GenericSig::new(false, num, 0)))
        },
        Some(ElementType::Array) => {
            let element: TypeSig = read_type_depth(reader, offset, d)?;
            read_array_tail(reader, offset, element)
        },
        Some(ElementType::GenericInst) => {
            let next_type: TypeSig = read_type_depth(reader, offset, d)?;
            let num: u32 = reader.try_read_compressed_u32_immut(offset)?;
            let generic_type: Option<ClassOrValueTypeSig> = match next_type {
                TypeSig::ValueTypeSig(t) => t,
                TypeSig::ClassSig(t) => t,
                _ => None,
            };
            let args: Vec<TypeSig> = read_types(reader, offset, num, d)?;
            Some(TypeSig::GenericInstSig(GenericInstSig::new(generic_type, args)))
        },
        Some(ElementType::ValueArray) => {
            let inner: TypeSig = read_type_depth(reader, offset, d)?;
            let num: u32 = reader.try_read_compressed_u32_immut(offset)?;
            Some(TypeSig::ValueArraySig(ValueArraySig::new(Some(inner), num)))
        },
        Some(ElementType::FnPtr) => {
            let sig: CallingConventionSig = read_sig_depth(reader, offset, d)?;
            Some(TypeSig::FnPtrSig(FnPtrSig::new(Some(sig))))
        },
        Some(ElementType::SZArray) => {
            let inner: TypeSig = read_type_depth(reader, offset, d)?;
            Some(TypeSig::SZArraySig(ArraySigBase::new(Some(inner), 0)))
        },
        Some(ElementType::CModReqd) => {
            let inner: TypeSig = read_type_depth(reader, offset, d)?;
            Some(TypeSig::CModReqdSig(NoLeafSig::new(Some(inner))))
        },
        Some(ElementType::CModOpt) => {
            let inner: TypeSig = read_type_depth(reader, offset, d)?;
            Some(TypeSig::CModOptSig(NoLeafSig::new(Some(inner))))
        },
        Some(ElementType::Module) => {
            let num: u32 = reader.try_read_compressed_u32_immut(offset)?;
            let inner: TypeSig = read_type_depth(reader, offset, d)?;
            Some(TypeSig::ModuleSig(ModuleSig::new(num, Some(inner))))
        },
        Some(ElementType::Sentinel) => Some(TypeSig::SentinelSig),
        Some(ElementType::Pinned) => {
            let inner: TypeSig = read_type_depth(reader, offset, d)?;
            Some(TypeSig::PinnedSig(NoLeafSig::new(Some(inner))))
        },
        _ => None,
    }
}

/// Reads the rest of a method signature whose calling-convention byte was `cc`.
#[verifier::loop_isolation(false)]
fn read_sig_internal(
    calling_convention: u8,
    reader: &DataReader,
    offset: &mut usize,
    depth: u32,
) -> (sig: Option<MethodSig>)
    ensures
        match sig {
            Some(m) => spec_method_sig(
                reader.bytes(),
                *old(offset) as int,
                calling_convention,
                depth as nat,
            ) == Some((m.view(), *final(offset) as int)),
            None => spec_method_sig(
                reader.bytes(),
                *old(offset) as int,
                calling_convention,
                depth as nat,
            ).is_none(),
        },
    decreases depth, 2nat, 0nat,
{
    let mut method_sig: MethodSig = MethodSig::new(calling_convention);
    if method_sig.base.base.get_generic() {
        let count: u32 = reader.try_read_compressed_u32_immut(offset)?;
        method_sig.base.gen_param_count = count;
    }
    let param_count: u32 = reader.try_read_compressed_u32_immut(offset)?;
    let ret: TypeSig = read_type_depth(reader, offset, depth)?;
    let ghost start = *offset as int;
    let mut parameters: Vec<TypeSig> = Vec::new();
    let mut is_sentinel: bool = false;
    let mut i: u32 = 0;
    assert(spec_type_views(parameters@) =~= Seq::<TypeSigView>::empty());
    while i < param_count
        invariant
            i <= param_count,
            spec_params(reader.bytes(), start, i as nat, depth as nat) == Some(
                (spec_type_views(parameters@), is_sentinel, *offset as int),
            ),
        decreases param_count - i,
    {
        let ghost before = parameters@;
        match read_type_depth(reader, offset, depth) {
            Some(TypeSig::SentinelSig) => {
                is_sentinel = true;
            },
            Some(type_sig) => {
                parameters.push(type_sig);
                assert(spec_type_views(parameters@) =~= spec_type_views(before).push(
                    type_sig.view(),
                ));
            },
            None => {
                proof {
                    lemma_params_fail(
                        reader.bytes(),
                        start,
                        (i + 1) as nat,
                        param_count as nat,
                        depth as nat,
                    );
                }
                return None;
            },
        }
        i += 1;
    }
    method_sig.base.ret_type = Some(ret);
    method_sig.base.parameters = parameters;
    method_sig.base.is_sentinel = is_sentinel;
    Some(method_sig)
}

/// Reads the signature at `offset`, nesting no deeper than `depth`.
fn read_sig_depth(reader: &DataReader, offset: &mut usize, depth: u32) -> (sig: Option<
    CallingConventionSig,
>)
    ensures
        match sig {
            Some(c) => spec_sig(reader.bytes(), *old(offset) as int, depth as nat) == Some(
                (c.view(), *final(offset) as int),
            ),
            None => spec_sig(reader.bytes(), *old(offset) as int, depth as nat).is_none(),
        },
    decreases depth, 3nat, 0nat,
{
    let calling_convention: u8 = match reader.read_u8_immut(offset) {
        Ok(cc) => cc,
        Err(_) => {
            return None;
        },
    };
    let kind: u8 = calling_convention & CC_MASK;
    if kind <= CC_VAR_ARG || kind == CC_UNMANAGED || kind == CC_NATIVE_VAR_ARG {
        let m: MethodSig = read_sig_internal(calling_convention, reader, offset, depth)?;
        Some(CallingConventionSig::MethodSig(m))
    } else if kind == CC_FIELD {
        let t: TypeSig = read_type_depth(reader, offset, depth)?;
        Some(CallingConventionSig::FieldSig(FieldSig::new(calling_convention, Some(t))))
    } else if kind == CC_LOCAL_SIG {
        let count: u32 = reader.try_read_compressed_u32_immut(offset)?;
        let locals: Vec<TypeSig> = read_types(reader, offset, count, depth)?;
        Some(
            CallingConventionSig::LocalSig(
                LocalSig { base: CallingConventionSigBase::new(calling_convention), locals },
            ),
        )
    } else if kind == CC_PROPERTY {
        let m: MethodSig = read_sig_internal(calling_convention, reader, offset, depth)?;
        Some(CallingConventionSig::PropertySig(m))
    } else {
        None
    }
}

impl TypeSig {
    /// Reads the type at `offset`, and moves `offset` behind it.
    pub fn read_type(reader: &DataReader, offset: &mut usize) -> (sig: Option<TypeSig>)
        ensures
            match sig {
                Some(t) => spec_type(reader.bytes(), *old(offset) as int, 32) == Some(
                    (t.view(), *final(offset) as int),
                ),
                None => spec_type(reader.bytes(), *old(offset) as int, 32).is_none(),
            },
    {
        read_type_depth(reader, offset, MAX_SIG_DEPTH)
    }

    /// Reads the type that the blob at `signature` of the `#Blob` heap holds.
    pub fn resolve_sig(metadata: &Metadata, signature: u32) -> (sig: Option<TypeSig>)
        ensures
            match sig {
                Some(t) => super::metadata::blob_stream::spec_blob_error(
                    metadata.blob_stream.bytes(),
                    signature as int,
                ).is_none() && spec_type(
                    super::metadata::blob_stream::spec_blob(
                        metadata.blob_stream.bytes(),
                        signature as int,
                    ),
                    0,
                    32,
                ).is_some() && spec_type(
                    super::metadata::blob_stream::spec_blob(
                        metadata.blob_stream.bytes(),
                        signature as int,
                    ),
                    0,
                    32,
                ).unwrap().0 == t.view(),
                None => super::metadata::blob_stream::spec_blob_error(
                    metadata.blob_stream.bytes(),
                    signature as int,
                ).is_some() || spec_type(
                    super::metadata::blob_stream::spec_blob(
                        metadata.blob_stream.bytes(),
                        signature as int,
                    ),
                    0,
                    32,
                ).is_none(),
            },
    {
        let reader: DataReader = match metadata.blob_stream.create_reader(signature) {
            Ok(reader) => reader,
            Err(_) => {
                return None;
            },
        };
        let mut offset: usize = 0;
        TypeSig::read_type(&reader, &mut offset)
    }
}

impl CallingConventionSig {
    /// Reads the signature at `offset`, and moves `offset` behind it.
    pub fn read_sig(reader: &DataReader, offset: &mut usize) -> (sig: Option<CallingConventionSig>)
        ensures
            match sig {
                Some(c) => spec_sig(reader.bytes(), *old(offset) as int, 32) == Some(
                    (c.view(), *final(offset) as int),
                ),
                None => spec_sig(reader.bytes(), *old(offset) as int, 32).is_none(),
            },
    {
        read_sig_depth(reader, offset, MAX_SIG_DEPTH)
    }

    /// Reads the signature that the blob at `signature` of the `#Blob` heap holds.
    /// `None` where there is no such blob or it holds no signature.
    pub fn read_metadata_sig(metadata: &Metadata, signature: u32) -> (sig: Option<
        CallingConventionSig,
    >)
        ensures
            match sig {
                Some(c) => super::metadata::blob_stream::spec_blob_error(
                    metadata.blob_stream.bytes(),
                    signature as int,
                ).is_none() && spec_blob_sig(
                    super::metadata::blob_stream::spec_blob(
                        metadata.blob_stream.bytes(),
                        signature as int,
                    ),
                ) == Some(c.view()),
                None => super::metadata::blob_stream::spec_blob_error(
                    metadata.blob_stream.bytes(),
                    signature as int,
                ).is_some() || spec_blob_sig(
                    super::metadata::blob_stream::spec_blob(
                        metadata.blob_stream.bytes(),
                        signature as int,
                    ),
                ).is_none(),
            },
    {
        let reader: DataReader = match metadata.blob_stream.create_reader(signature) {
            Ok(reader) => reader,
            Err(_) => {
                return None;
            },
        };
        let mut offset: usize = 0;
        CallingConventionSig::read_sig(&reader, &mut offset)
    }

    /// The same as `read_metadata_sig`.
    pub fn resolve_sig(metadata: &Metadata, signature: u32) -> (sig: Option<CallingConventionSig>)
        ensures
            match sig {
                Some(c) => super::metadata::blob_stream::spec_blob_error(
                    metadata.blob_stream.bytes(),
                    signature as int,
                ).is_none() && spec_blob_sig(
                    super::metadata::blob_stream::spec_blob(
                        metadata.blob_stream.bytes(),
                        signature as int,
                    ),
                ) == Some(c.view()),
                None => super::metadata::blob_stream::spec_blob_error(
                    metadata.blob_stream.bytes(),
                    signature as int,
                ).is_some() || spec_blob_sig(
                    super::metadata::blob_stream::spec_blob(
                        metadata.blob_stream.bytes(),
                        signature as int,
                    ),
                ).is_none(),
            },
    {
        CallingConventionSig::read_metadata_sig(metadata, signature)
    }
}


} // verus!
