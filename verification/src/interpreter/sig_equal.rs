use super::signature::{CallingConventionSig, MethodSig};
use super::type_sig::{
    spec_type_views, ClassOrValueTypeSig, GenericSig, NoLeafSig, TypeSig,
};
use vstd::prelude::*;

verus! {

fn bytes_same(a: &Vec<u8>, b: &Vec<u8>) -> (r: bool)
    ensures
        r == (a@ == b@),
{
    if a.len() != b.len() {
        return false;
    }
    let mut i: usize = 0;
    while i < a.len()
        invariant
            i <= a@.len(),
            a@.len() == b@.len(),
            forall|j: int| 0 <= j < i ==> a@[j] == b@[j],
        decreases a@.len() - i,
    {
        if a[i] != b[i] {
            return false;
        }
        i += 1;
    }
    assert(a@ =~= b@);
    true
}

fn sizes_same(a: &Vec<u32>, b: &Vec<u32>) -> (r: bool)
    ensures
        r == (a@ == b@),
{
    if a.len() != b.len() {
        return false;
    }
    let mut i: usize = 0;
    while i < a.len()
        invariant
            i <= a@.len(),
            a@.len() == b@.len(),
            forall|j: int| 0 <= j < i ==> a@[j] == b@[j],
        decreases a@.len() - i,
    {
        if a[i] != b[i] {
            return false;
        }
        i += 1;
    }
    assert(a@ =~= b@);
    true
}

fn bounds_same(a: &Vec<i32>, b: &Vec<i32>) -> (r: bool)
    ensures
        r == (a@ == b@),
{
    if a.len() != b.len() {
        return false;
    }
    let mut i: usize = 0;
    while i < a.len()
        invariant
            i <= a@.len(),
            a@.len() == b@.len(),
            forall|j: int| 0 <= j < i ==> a@[j] == b@[j],
        decreases a@.len() - i,
    {
        if a[i] != b[i] {
            return false;
        }
        i += 1;
    }
    assert(a@ =~= b@);
    true
}

fn open_type_same(a: &Option<ClassOrValueTypeSig>, b: &Option<ClassOrValueTypeSig>) -> (r: bool)
    ensures
        r == (*a == *b),
{
    match (a, b) {
        (Some(x), Some(y)) => x.base.token == y.base.token,
        (None, None) => true,
        _ => false,
    }
}

fn generic_same(a: &GenericSig, b: &GenericSig) -> (r: bool)
    ensures
        r == (*a == *b),
{
    a.is_type_var == b.is_type_var && a.number == b.number && a.param_provider
        == b.param_provider
}

fn no_leaf_same(a: &NoLeafSig, b: &NoLeafSig) -> (r: bool)
    ensures
        r == (a.view() == b.view()),
    decreases a,
{
    match (&a.next_sig, &b.next_sig) {
        (Some(x), Some(y)) => x.same(y),
        (None, None) => true,
        _ => false,
    }
}

fn option_type_same(a: &Option<TypeSig>, b: &Option<TypeSig>) -> (r: bool)
    ensures
        r == ((match a {
            Some(t) => Some(t.view()),
            None => None,
        }) == (match b {
            Some(t) => Some(t.view()),
            None => None,
        })),
    decreases a,
{
    match (a, b) {
        (Some(x), Some(y)) => x.same(y),
        (None, None) => true,
        _ => false,
    }
}

fn types_same(a: &Vec<TypeSig>, b: &Vec<TypeSig>) -> (r: bool)
    ensures
        r == (spec_type_views(a@) == spec_type_views(b@)),
    decreases a,
{
    if a.len() != b.len() {
        assert(spec_type_views(a@).len() != spec_type_views(b@).len());
        return false;
    }
    let mut i: usize = 0;
    while i < a.len()
        invariant
            i <= a@.len(),
            a@.len() == b@.len(),
            forall|j: int| 0 <= j < i ==> (#[trigger] a@[j]).view() == b@[j].view(),
        decreases a@.len() - i,
    {
        if !a[i].same(&b[i]) {
            assert(spec_type_views(a@)[i as int] == a@[i as int].view());
            assert(spec_type_views(b@)[i as int] == b@[i as int].view());
            return false;
        }
        i += 1;
    }
    assert(spec_type_views(a@) =~= spec_type_views(b@));
    true
}

impl TypeSig {
    /// True where the two types are structurally equal.
    pub fn same(&self, other: &TypeSig) -> (r: bool)
        ensures
            r == (self.view() == other.view()),
        decreases self,
    {
        match (self, other) {
            (TypeSig::CorLibTypeSig(a), TypeSig::CorLibTypeSig(b)) => a.code() == b.code(),
            (TypeSig::ValueTypeSig(a), TypeSig::ValueTypeSig(b)) => open_type_same(a, b),
            (TypeSig::ClassSig(a), TypeSig::ClassSig(b)) => open_type_same(a, b),
            (TypeSig::GenericVar(a), TypeSig::GenericVar(b)) => generic_same(a, b),
            (TypeSig::GenericMVar(a), TypeSig::GenericMVar(b)) => generic_same(a, b),
            (TypeSig::SentinelSig, TypeSig::SentinelSig) => true,
            (TypeSig::FnPtrSig(a), TypeSig::FnPtrSig(b)) => {
                match (&a.calling_convention_sig, &b.calling_convention_sig) {
                    (Some(x), Some(y)) => x.same(y),
                    (None, None) => true,
                    _ => false,
                }
            },
            (TypeSig::GenericInstSig(a), TypeSig::GenericInstSig(b)) => {
                open_type_same(&a.generic_type, &b.generic_type) && types_same(
                    &a.generic_args,
                    &b.generic_args,
                )
            },
            (TypeSig::PtrSig(a), TypeSig::PtrSig(b)) => no_leaf_same(a, b),
            (TypeSig::ByRefSig(a), TypeSig::ByRefSig(b)) => no_leaf_same(a, b),
            (TypeSig::ArraySig(a), TypeSig::ArraySig(b)) => {
                no_leaf_same(&a.base.base, &b.base.base) && a.base.rank == b.base.rank
                    && sizes_same(&a.sizes, &b.sizes) && bounds_same(
                    &a.lower_bounds,
                    &b.lower_bounds,
                )
            },
            (TypeSig::SZArraySig(a), TypeSig::SZArraySig(b)) => {
                no_leaf_same(&a.base, &b.base) && a.rank == b.rank
            },
            (TypeSig::CModReqdSig(a), TypeSig::CModReqdSig(b)) => no_leaf_same(a, b),
            (TypeSig::CModOptSig(a), TypeSig::CModOptSig(b)) => no_leaf_same(a, b),
            (TypeSig::PinnedSig(a), TypeSig::PinnedSig(b)) => no_leaf_same(a, b),
            (TypeSig::ValueArraySig(a), TypeSig::ValueArraySig(b)) => {
                no_leaf_same(&a.base, &b.base) && a.size == b.size
            },
            (TypeSig::ModuleSig(a), TypeSig::ModuleSig(b)) => {
                a.index == b.index && no_leaf_same(&a.base, &b.base)
            },
            _ => false,
        }
    }
}

impl MethodSig {
    /// True where the two method signatures are structurally equal.
    pub fn same(&self, other: &MethodSig) -> (r: bool)
        ensures
            r == (self.view() == other.view()),
        decreases self,
    {
        self.base.base.calling_convention == other.base.base.calling_convention && bytes_same(
            &self.base.base.extra_data,
            &other.base.base.extra_data,
        ) && option_type_same(&self.base.ret_type, &other.base.ret_type) && types_same(
            &self.base.parameters,
            &other.base.parameters,
        ) && self.base.gen_param_count == other.base.gen_param_count && self.base.is_sentinel
            == other.base.is_sentinel && self.origin_token == other.origin_token
    }
}

impl CallingConventionSig {
    /// True where the two signatures are structurally equal.
    pub fn same(&self, other: &CallingConventionSig) -> (r: bool)
        ensures
            r == (self.view() == other.view()),
        decreases self,
    {
        match (self, other) {
            (CallingConventionSig::FieldSig(a), CallingConventionSig::FieldSig(b)) => {
                a.base.calling_convention == b.base.calling_convention && bytes_same(
                    &a.base.extra_data,
                    &b.base.extra_data,
                ) && option_type_same(&a.type_sig, &b.type_sig)
            },
            (CallingConventionSig::MethodSig(a), CallingConventionSig::MethodSig(b)) => a.same(b),
            (CallingConventionSig::PropertySig(a), CallingConventionSig::PropertySig(b)) => a.same(
                b,
            ),
            (CallingConventionSig::LocalSig(a), CallingConventionSig::LocalSig(b)) => {
                a.base.calling_convention == b.base.calling_convention && bytes_same(
                    &a.base.extra_data,
                    &b.base.extra_data,
                ) && types_same(&a.locals, &b.locals)
            },
            _ => false,
        }
    }

    /// True where both signatures are missing, or both are there and structurally equal.
    pub fn same_option(a: &Option<CallingConventionSig>, b: &Option<CallingConventionSig>) -> (r:
        bool)
        ensures
            r == (spec_option_sig_view(*a) == spec_option_sig_view(*b)),
    {
        match (a, b) {
            (Some(x), Some(y)) => x.same(y),
            (None, None) => true,
            _ => false,
        }
    }
}

/// The view of a signature that may be missing.
pub open spec fn spec_option_sig_view(sig: Option<CallingConventionSig>) -> Option<
    super::signature::CallingConventionSigView,
> {
    match sig {
        Some(s) => Some(s.view()),
        None => None,
    }
}

} // verus!
