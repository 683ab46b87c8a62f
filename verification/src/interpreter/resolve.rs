use super::assembly::Assembly;
use super::assembly_name::AssemblyName;
use super::exported_type::{ExportedType, ExportedTypeImpl};
use super::fault::Fault;
use super::field::Field;
use super::il_type::{ILRefType, ILType, ILTypeView};
use super::metadata::md_token::{spec_rid, spec_table_type, MDToken};
use super::metadata::rid_list::RidList;
use super::metadata::root::spec_decode_kind;
use super::metadata::table_kind::MDType;
use super::method::Method;
use super::sig_equal::spec_option_sig_view;
use super::signature::CallingConventionSigView;
use super::type_sig::GenericInstSig;
use super::signature::CallingConventionSig;
use super::text::spec_full_name;
use super::type_sig::TypeSig;
use crate::hash_vec::HashVec;
use vstd::prelude::*;

verus! {

/// How many assemblies a forwarded type may lead through.
pub const MAX_FORWARD_HOPS: u32 = 16;

/// How many rows a token may lead through before it names a type or a method.
pub const MAX_TOKEN_HOPS: u32 = 8;

/// Why a token could not be resolved.
pub enum Stop {
    /// The assembly of this name is not loaded. Nothing was changed: once the
    /// assembly is there, the same step can be taken again.
    Load(AssemblyName),
    /// The program cannot go on.
    Fault(Fault),
}

/// The place, counted from zero, of the row that a token names.
pub fn row_index(token: u32) -> (index: Option<usize>)
    ensures
        match index {
            Some(i) => spec_rid(token) >= 1 && i == spec_rid(token) - 1,
            None => spec_rid(token) == 0,
        },
{
    let rid: u32 = MDToken::to_rid(token);
    if rid == 0 {
        None
    } else {
        Some((rid - 1) as usize)
    }
}

/// The place of the loaded assembly named `name`; asks for the assembly where it
/// is not loaded.
pub fn find_assembly(assemblies: &HashVec<String, Assembly>, name: &AssemblyName) -> (result:
    Result<usize, Stop>)
    ensures
        match result {
            Ok(index) => assemblies.spec_index_of(name.name@) == Some(index) && index
                < assemblies.spec_values().len(),
            Err(stop) => assemblies.spec_index_of(name.name@).is_none() && stop is Load
                && stop->Load_0.name@ == name.name@,
        },
{
    match assemblies.key_get_index(&name.name) {
        Some(index) => Ok(index),
        None => Err(Stop::Load(name.duplicate())),
    }
}

/// What resolving a token gives, as a mathematical value.
pub enum Found {
    /// The row at the first place, in the assembly at the second place.
    At(usize, usize),
    /// The assembly of this name is wanted.
    Load(Seq<char>),
    /// The program cannot go on.
    Fault(Fault),
}

/// What the result of resolving a token says.
pub open spec fn spec_found(result: Result<(usize, usize), Stop>) -> Found {
    match result {
        Ok(place) => Found::At(place.0, place.1),
        Err(Stop::Load(name)) => Found::Load(name.name@),
        Err(Stop::Fault(fault)) => Found::Fault(fault),
    }
}

/// Where the type named `full_name` stands: it is looked for in the assembly named
/// `name`, among the types that the assembly defines, then among those it exports;
/// an exported type that lives in another assembly is looked for there in turn,
/// through `hops` assemblies at most. An assembly that is not loaded is asked for.
pub open spec fn spec_seek_type(
    assemblies: &HashVec<String, Assembly>,
    name: Seq<char>,
    full_name: Seq<char>,
    hops: nat,
) -> Found
    decreases hops,
{
    match assemblies.spec_index_of(name) {
        None => Found::Load(name),
        Some(target) => if hops == 0 {
            Found::Fault(Fault::ResolutionFailure)
        } else {
            let assembly = assemblies.spec_values()[target as int];
            match assembly.type_defs.spec_index_of(full_name) {
                Some(type_def_index) => Found::At(type_def_index, target),
                None => match assembly.exported_types.spec_index_of(full_name) {
                    None => Found::Fault(Fault::ResolutionFailure),
                    Some(e) => match ExportedType::spec_implementation(
                        assembly.exported_types.spec_values()[e as int].implementation,
                    ) {
                        None => Found::Fault(Fault::InvalidToken),
                        Some(found) => if !(found.0 is AssemblyRef) {
                            Found::Fault(Fault::Unsupported)
                        } else if found.1 == 0 || found.1 > assembly.assembly_refs@.len() {
                            Found::Fault(Fault::InvalidIndex)
                        } else {
                            spec_seek_type(
                                assemblies,
                                assembly.assembly_refs@[found.1 - 1].assembly_name.name@,
                                full_name,
                                (hops - 1) as nat,
                            )
                        },
                    },
                },
            }
        },
    }
}

/// What `resolve_type_ref` gives: the type with the full name of the reference,
/// looked for from the assembly that the scope of the reference names.
pub open spec fn spec_resolve_type_ref(
    assemblies: &HashVec<String, Assembly>,
    assembly_index: usize,
    token: u32,
) -> Found {
    let list = assemblies.spec_values();
    let row = spec_rid(token) - 1;
    if assembly_index >= list.len() {
        Found::Fault(Fault::InvalidIndex)
    } else if spec_rid(token) == 0 {
        Found::Fault(Fault::InvalidToken)
    } else if row >= list[assembly_index as int].type_refs.spec_values().len() {
        Found::Fault(Fault::InvalidIndex)
    } else {
        let assembly = list[assembly_index as int];
        let type_ref = assembly.type_refs.spec_values()[row];
        match spec_decode_kind(MDType::ResolutionScope, type_ref.resolution_scope) {
            None => Found::Fault(Fault::InvalidToken),
            Some(scope) => if spec_table_type(scope) != 0x23 {
                Found::Fault(Fault::Unsupported)
            } else if spec_rid(scope) == 0 {
                Found::Fault(Fault::InvalidToken)
            } else if spec_rid(scope) - 1 >= assembly.assembly_refs@.len() {
                Found::Fault(Fault::InvalidIndex)
            } else {
                spec_seek_type(
                    assemblies,
                    assembly.assembly_refs@[spec_rid(scope) - 1].assembly_name.name@,
                    spec_full_name(type_ref.namespace@, type_ref.name@),
                    MAX_FORWARD_HOPS as nat,
                )
            },
        }
    }
}

/// The token of the open type of an instance of a generic type; the null token
/// where there is none.
pub open spec fn spec_open_token(sig: GenericInstSig) -> u32 {
    match sig.generic_type {
        Some(t) => t.base.token,
        None => 0,
    }
}

/// What `resolve_type_def_or_ref` gives, where a type specification may be
/// followed `hops` times: a null token names place zero of the same assembly, the
/// token of a type definition its own row, a type reference what it resolves to,
/// and a type specification that is an instance of a generic type its open type.
pub open spec fn spec_resolve_type(
    assemblies: &HashVec<String, Assembly>,
    assembly_index: usize,
    token: u32,
    hops: nat,
) -> Found
    decreases hops,
{
    let list = assemblies.spec_values();
    let row = spec_rid(token) - 1;
    if hops == 0 {
        Found::Fault(Fault::ResolutionFailure)
    } else if spec_rid(token) == 0 {
        Found::At(0, assembly_index)
    } else if spec_table_type(token) == 0x01 {
        spec_resolve_type_ref(assemblies, assembly_index, token)
    } else if spec_table_type(token) == 0x02 {
        Found::At(row as usize, assembly_index)
    } else if spec_table_type(token) == 0x1B {
        if assembly_index >= list.len() || row >= list[assembly_index as int].type_specs@.len() {
            Found::Fault(Fault::InvalidIndex)
        } else {
            match list[assembly_index as int].type_specs@[row].signature {
                Some(TypeSig::GenericInstSig(sig)) => spec_resolve_type(
                    assemblies,
                    assembly_index,
                    spec_open_token(sig),
                    (hops - 1) as nat,
                ),
                _ => Found::Fault(Fault::InvalidToken),
            }
        }
    } else {
        Found::Fault(Fault::InvalidToken)
    }
}

/// The place among `methods` of the first method, from place `from` of `list` on,
/// that has the name `name` and the signature `signature`.
pub open spec fn spec_first_method(
    methods: Seq<Method>,
    list: RidList,
    name: Seq<char>,
    signature: Option<CallingConventionSigView>,
    from: nat,
) -> Option<usize>
    decreases list.count - from,
{
    if from >= list.count {
        None
    } else {
        let rid = list.spec_get(from as u32);
        if rid != 0 && rid <= methods.len() && methods[rid - 1].name@ == name
            && spec_option_sig_view(methods[rid - 1].signature) == signature {
            Some((rid - 1) as usize)
        } else {
            spec_first_method(methods, list, name, signature, from + 1)
        }
    }
}

/// What `resolve_member_ref` gives: among the methods of the type that the
/// reference names, the first with the name and the signature of the reference.
pub open spec fn spec_resolve_member_ref(
    assemblies: &HashVec<String, Assembly>,
    assembly_index: usize,
    token: u32,
) -> Found {
    let list = assemblies.spec_values();
    let row = spec_rid(token) - 1;
    if assembly_index >= list.len() {
        Found::Fault(Fault::InvalidIndex)
    } else if spec_rid(token) == 0 {
        Found::Fault(Fault::InvalidToken)
    } else if row >= list[assembly_index as int].member_refs@.len() {
        Found::Fault(Fault::InvalidIndex)
    } else {
        let member_ref = list[assembly_index as int].member_refs@[row];
        let table = spec_table_type(member_ref.class);
        if table != 0x01 && table != 0x02 && table != 0x1B {
            Found::Fault(Fault::InvalidToken)
        } else {
            match spec_resolve_type(
                assemblies,
                assembly_index,
                member_ref.class,
                MAX_TOKEN_HOPS as nat,
            ) {
                Found::At(type_def_index, target) => if target >= list.len() || type_def_index
                    >= list[target as int].type_defs.spec_values().len() {
                    Found::Fault(Fault::InvalidIndex)
                } else {
                    match spec_first_method(
                        list[target as int].methods@,
                        list[target as int].type_defs.spec_values()[type_def_index as int].method_list,
                        member_ref.name@,
                        spec_option_sig_view(member_ref.signature),
                        0,
                    ) {
                        Some(method_index) => Found::At(method_index, target),
                        None => Found::Fault(Fault::ResolutionFailure),
                    }
                },
                other => other,
            }
        }
    }
}

/// What `get_method_index` gives, where a method specification may be followed
/// `hops` times: the token of a method names its own row, a member reference what
/// it resolves to, and a method specification the method it is an instance of.
pub open spec fn spec_method_place(
    assemblies: &HashVec<String, Assembly>,
    assembly_index: usize,
    token: u32,
    hops: nat,
) -> Found
    decreases hops,
{
    let list = assemblies.spec_values();
    let row = spec_rid(token) - 1;
    let table = spec_table_type(token);
    if hops == 0 {
        Found::Fault(Fault::ResolutionFailure)
    } else if table == 0x0A {
        spec_resolve_member_ref(assemblies, assembly_index, token)
    } else if table != 0x06 && table != 0x2B {
        Found::Fault(Fault::InvalidToken)
    } else if spec_rid(token) == 0 {
        Found::Fault(Fault::InvalidToken)
    } else if assembly_index >= list.len() {
        Found::Fault(Fault::InvalidIndex)
    } else if table == 0x06 {
        if row >= list[assembly_index as int].methods@.len() {
            Found::Fault(Fault::InvalidIndex)
        } else {
            Found::At(row as usize, assembly_index)
        }
    } else if row >= list[assembly_index as int].method_specs@.len() {
        Found::Fault(Fault::InvalidIndex)
    } else {
        spec_method_place(
            assemblies,
            assembly_index,
            list[assembly_index as int].method_specs@[row].method,
            (hops - 1) as nat,
        )
    }
}

/// What looking for a type and its ancestors gives, as a mathematical value.
pub enum Chain {
    /// The places of the type and of its ancestors, the type itself first: each
    /// the place of an assembly and the place of a type definition in it.
    Of(Seq<(usize, usize)>),
    /// The assembly of this name is wanted.
    Load(Seq<char>),
    /// The program cannot go on.
    Fault(Fault),
}

/// What the result of looking for a type and its ancestors says.
pub open spec fn spec_chain_of(result: Result<Vec<(usize, usize)>, Stop>) -> Chain {
    match result {
        Ok(chain) => Chain::Of(chain@),
        Err(Stop::Load(name)) => Chain::Load(name.name@),
        Err(Stop::Fault(fault)) => Chain::Fault(fault),
    }
}

/// The chain `rest` with the places `prefix` before it.
pub open spec fn spec_chain_after(prefix: Seq<(usize, usize)>, rest: Chain) -> Chain {
    match rest {
        Chain::Of(places) => Chain::Of(prefix + places),
        other => other,
    }
}

/// What `extends_chain` gives for a type with `hops` ancestors at most: no place
/// for the null token, else the place of the type and then those of the type that
/// it extends and of its ancestors.
pub open spec fn spec_extends_chain(
    assemblies: &HashVec<String, Assembly>,
    assembly_index: usize,
    token: u32,
    hops: nat,
) -> Chain
    decreases hops,
{
    let list = assemblies.spec_values();
    if hops == 0 {
        Chain::Fault(Fault::ResolutionFailure)
    } else if spec_rid(token) == 0 {
        Chain::Of(Seq::empty())
    } else {
        match spec_resolve_type(assemblies, assembly_index, token, MAX_TOKEN_HOPS as nat) {
            Found::At(type_def_index, target) => if target >= list.len() || type_def_index
                >= list[target as int].type_defs.spec_values().len() {
                Chain::Fault(Fault::InvalidIndex)
            } else {
                spec_chain_after(
                    seq![(target, type_def_index)],
                    spec_extends_chain(
                        assemblies,
                        target,
                        list[target as int].type_defs.spec_values()[type_def_index as int].extends,
                        (hops - 1) as nat,
                    ),
                )
            },
            Found::Load(name) => Chain::Load(name),
            Found::Fault(fault) => Chain::Fault(fault),
        }
    }
}

/// Resolves a type reference of the assembly at `assembly_index` to the place of a
/// type definition and the place of the assembly that holds it. The scope of the
/// reference must be an assembly reference. The type is looked up by its full name
/// among the types that the assembly defines, then among those it exports; an
/// exported type that lives in another assembly is looked up there in turn.
#[verifier::loop_isolation(false)]
pub fn resolve_type_ref(
    assemblies: &HashVec<String, Assembly>,
    assembly_index: usize,
    type_ref_token: u32,
) -> (result: Result<(usize, usize), Stop>)
    ensures
        match result {
            Ok((type_def_index, target)) => {
                &&& assembly_index < assemblies.spec_values().len()
                &&& spec_rid(type_ref_token) >= 1
                &&& spec_rid(type_ref_token) - 1 < assemblies.spec_values()[assembly_index as int].type_refs.spec_values().len()
                &&& target < assemblies.spec_values().len()
                &&& assemblies.spec_values()[target as int].type_defs.spec_index_of(
                    spec_full_name(
                        assemblies.spec_values()[assembly_index as int].type_refs.spec_values()[spec_rid(
                            type_ref_token,
                        ) - 1].namespace@,
                        assemblies.spec_values()[assembly_index as int].type_refs.spec_values()[spec_rid(
                            type_ref_token,
                        ) - 1].name@,
                    ),
                ) == Some(type_def_index)
                &&& type_def_index < assemblies.spec_values()[target as int].type_defs.spec_values().len()
            },
            Err(Stop::Load(name)) => assemblies.spec_index_of(name.name@).is_none(),
            Err(Stop::Fault(fault)) => true,
        },
        spec_found(result) == spec_resolve_type_ref(assemblies, assembly_index, type_ref_token),
{
    let assembly: &Assembly = match assemblies.index_get(assembly_index) {
        Some(a) => a,
        None => {
            return Err(Stop::Fault(Fault::InvalidIndex));
        },
    };
    let row: usize = match row_index(type_ref_token) {
        Some(row) => row,
        None => {
            return Err(Stop::Fault(Fault::InvalidToken));
        },
    };
    let type_ref = match assembly.type_refs.index_get(row) {
        Some(t) => t,
        None => {
            return Err(Stop::Fault(Fault::InvalidIndex));
        },
    };
    let scope: u32 = match assembly.metadata.resolve_resolution_scope(type_ref.resolution_scope) {
        Some(token) => token,
        None => {
            return Err(Stop::Fault(Fault::InvalidToken));
        },
    };
    if MDToken::to_table_type(scope) != 0x23 {
        return Err(Stop::Fault(Fault::Unsupported));
    }
    let ref_row: usize = match row_index(scope) {
        Some(row) => row,
        None => {
            return Err(Stop::Fault(Fault::InvalidToken));
        },
    };
    if ref_row >= assembly.assembly_refs.len() {
        return Err(Stop::Fault(Fault::InvalidIndex));
    }
    let full_name: String = type_ref.full_name();
    let ghost first = assembly.assembly_refs@[ref_row as int].assembly_name.name@;
    let ghost mut current = first;
    let mut target_index: usize = find_assembly(
        assemblies,
        &assembly.assembly_refs[ref_row].assembly_name,
    )?;
    let mut hops: u32 = 0;
    while hops < MAX_FORWARD_HOPS
        invariant
            hops <= MAX_FORWARD_HOPS,
            target_index < assemblies.spec_values().len(),
            assemblies.spec_index_of(current) == Some(target_index),
            spec_resolve_type_ref(assemblies, assembly_index, type_ref_token) == spec_seek_type(
                assemblies,
                current,
                full_name@,
                (MAX_FORWARD_HOPS - hops) as nat,
            ),
        decreases MAX_FORWARD_HOPS - hops,
    {
        let target: &Assembly = match assemblies.index_get(target_index) {
            Some(a) => a,
            None => {
                return Err(Stop::Fault(Fault::InvalidIndex));
            },
        };
        match target.type_defs.key_get_index(&full_name) {
            Some(type_def_index) => {
                return Ok((type_def_index, target_index));
            },
            None => {},
        }
        let exported: &ExportedType = match target.exported_types.key_get(&full_name) {
            Some(e) => e,
            None => {
                return Err(Stop::Fault(Fault::ResolutionFailure));
            },
        };
        let (kind, rid) = match ExportedType::implementation_of(exported.implementation) {
            Some(found) => found,
            None => {
                return Err(Stop::Fault(Fault::InvalidToken));
            },
        };
        match kind {
            ExportedTypeImpl::AssemblyRef => {
                if rid == 0 || rid as usize > target.assembly_refs.len() {
                    return Err(Stop::Fault(Fault::InvalidIndex));
                }
                proof {
                    let next = target.assembly_refs@[rid - 1].assembly_name.name@;
                    assert(spec_seek_type(
                        assemblies,
                        current,
                        full_name@,
                        (MAX_FORWARD_HOPS - hops) as nat,
                    ) == spec_seek_type(
                        assemblies,
                        next,
                        full_name@,
                        (MAX_FORWARD_HOPS - hops - 1) as nat,
                    ));
                    current = next;
                }
                target_index = find_assembly(
                    assemblies,
                    &target.assembly_refs[(rid - 1) as usize].assembly_name,
                )?;
            },
            _ => {
                return Err(Stop::Fault(Fault::Unsupported));
            },
        }
        hops += 1;
    }
    Err(Stop::Fault(Fault::ResolutionFailure))
}

/// Resolves a token of a type definition, a type reference or a type
/// specification, seen from the assembly at `assembly_index`, to the place of a
/// type definition and the place of the assembly that holds it. A null token
/// gives place zero of the same assembly. A type specification must be an
/// instance of a generic type, and stands for its open type.
#[verifier::loop_isolation(false)]
pub fn resolve_type_def_or_ref(
    assemblies: &HashVec<String, Assembly>,
    assembly_index: usize,
    type_def_or_ref_token: u32,
) -> (result: Result<(usize, usize), Stop>)
    ensures
        match result {
            Ok((type_def_index, target)) => {
                &&& spec_rid(type_def_or_ref_token) == 0 ==> type_def_index == 0 && target
                    == assembly_index
                &&& spec_rid(type_def_or_ref_token) != 0 && spec_table_type(
                    type_def_or_ref_token,
                ) == 0x02 ==> type_def_index == spec_rid(type_def_or_ref_token) - 1 && target
                    == assembly_index
                &&& spec_rid(type_def_or_ref_token) != 0 && spec_table_type(
                    type_def_or_ref_token,
                ) == 0x01 ==> target < assemblies.spec_values().len()
            },
            Err(Stop::Load(name)) => assemblies.spec_index_of(name.name@).is_none(),
            Err(Stop::Fault(fault)) => true,
        },
        spec_found(result) == spec_resolve_type(
            assemblies,
            assembly_index,
            type_def_or_ref_token,
            MAX_TOKEN_HOPS as nat,
        ),
{
    let mut token: u32 = type_def_or_ref_token;
    let mut hops: u32 = 0;
    while hops < MAX_TOKEN_HOPS
        invariant
            hops <= MAX_TOKEN_HOPS,
            spec_resolve_type(
                assemblies,
                assembly_index,
                type_def_or_ref_token,
                MAX_TOKEN_HOPS as nat,
            ) == spec_resolve_type(
                assemblies,
                assembly_index,
                token,
                (MAX_TOKEN_HOPS - hops) as nat,
            ),
            hops == 0 ==> token == type_def_or_ref_token,
            hops > 0 ==> spec_table_type(type_def_or_ref_token) == 0x1B && spec_rid(
                type_def_or_ref_token,
            ) != 0,
        decreases MAX_TOKEN_HOPS - hops,
    {
        let row: usize = match row_index(token) {
            Some(row) => row,
            None => {
                return Ok((0, assembly_index));
            },
        };
        let table: u32 = MDToken::to_table_type(token);
        if table == 0x01 {
            return resolve_type_ref(assemblies, assembly_index, token);
        } else if table == 0x02 {
            return Ok((row, assembly_index));
        } else if table == 0x1B {
            let assembly: &Assembly = match assemblies.index_get(assembly_index) {
                Some(a) => a,
                None => {
                    return Err(Stop::Fault(Fault::InvalidIndex));
                },
            };
            if row >= assembly.type_specs.len() {
                return Err(Stop::Fault(Fault::InvalidIndex));
            }
            match &assembly.type_specs[row].signature {
                Some(TypeSig::GenericInstSig(sig)) => {
                    token = sig.unwarp_token();
                },
                _ => {
                    return Err(Stop::Fault(Fault::InvalidToken));
                },
            }
        } else {
            return Err(Stop::Fault(Fault::InvalidToken));
        }
        hops += 1;
    }
    Err(Stop::Fault(Fault::ResolutionFailure))
}

/// Resolves a member reference of the assembly at `assembly_index` to the place of
/// a method and the place of the assembly that holds it: among the methods of the
/// type that the reference names, the first whose name and signature are those of
/// the reference.
#[verifier::loop_isolation(false)]
pub fn resolve_member_ref(
    assemblies: &HashVec<String, Assembly>,
    assembly_index: usize,
    member_ref_token: u32,
) -> (result: Result<(usize, usize), Stop>)
    ensures
        match result {
            Ok((method_index, target)) => {
                &&& assembly_index < assemblies.spec_values().len()
                &&& spec_rid(member_ref_token) >= 1
                &&& spec_rid(member_ref_token) - 1 < assemblies.spec_values()[assembly_index as int].member_refs@.len()
                &&& target < assemblies.spec_values().len()
                &&& method_index < assemblies.spec_values()[target as int].methods@.len()
                &&& assemblies.spec_values()[target as int].methods@[method_index as int].name@
                    == assemblies.spec_values()[assembly_index as int].member_refs@[spec_rid(
                    member_ref_token,
                ) - 1].name@
                &&& super::sig_equal::spec_option_sig_view(
                    assemblies.spec_values()[target as int].methods@[method_index as int].signature,
                ) == super::sig_equal::spec_option_sig_view(
                    assemblies.spec_values()[assembly_index as int].member_refs@[spec_rid(
                        member_ref_token,
                    ) - 1].signature,
                )
            },
            Err(Stop::Load(name)) => assemblies.spec_index_of(name.name@).is_none(),
            Err(Stop::Fault(fault)) => true,
        },
        spec_found(result) == spec_resolve_member_ref(assemblies, assembly_index, member_ref_token),
{
    let assembly: &Assembly = match assemblies.index_get(assembly_index) {
        Some(a) => a,
        None => {
            return Err(Stop::Fault(Fault::InvalidIndex));
        },
    };
    let row: usize = match row_index(member_ref_token) {
        Some(row) => row,
        None => {
            return Err(Stop::Fault(Fault::InvalidToken));
        },
    };
    if row >= assembly.member_refs.len() {
        return Err(Stop::Fault(Fault::InvalidIndex));
    }
    let member_ref = &assembly.member_refs[row];
    let class_table: u32 = MDToken::to_table_type(member_ref.class);
    if class_table != 0x01 && class_table != 0x02 && class_table != 0x1B {
        return Err(Stop::Fault(Fault::InvalidToken));
    }
    let (type_def_index, target_index) = resolve_type_def_or_ref(
        assemblies,
        assembly_index,
        member_ref.class,
    )?;
    let target: &Assembly = match assemblies.index_get(target_index) {
        Some(a) => a,
        None => {
            return Err(Stop::Fault(Fault::InvalidIndex));
        },
    };
    let dest_type = match target.type_defs.index_get(type_def_index) {
        Some(t) => t,
        None => {
            return Err(Stop::Fault(Fault::InvalidIndex));
        },
    };
    let count: u32 = dest_type.method_list.count;
    let mut i: u32 = 0;
    while i < count
        invariant
            i <= count,
            spec_first_method(
                target.methods@,
                dest_type.method_list,
                member_ref.name@,
                spec_option_sig_view(member_ref.signature),
                0,
            ) == spec_first_method(
                target.methods@,
                dest_type.method_list,
                member_ref.name@,
                spec_option_sig_view(member_ref.signature),
                i as nat,
            ),
        decreases count - i,
    {
        let rid: u32 = dest_type.method_list.get(i);
        if rid != 0 && (rid as usize) <= target.methods.len() {
            let dest_method = &target.methods[(rid - 1) as usize];
            if dest_method.name.eq(&member_ref.name) && CallingConventionSig::same_option(
                &dest_method.signature,
                &member_ref.signature,
            ) {
                return Ok(((rid - 1) as usize, target_index));
            }
        }
        i += 1;
    }
    Err(Stop::Fault(Fault::ResolutionFailure))
}

/// Resolves the token of a method, a member reference or a method specification,
/// seen from the assembly at `assembly_index`, to the place of a method and the
/// place of the assembly that holds it. A method specification stands for the
/// method it is an instance of.
#[verifier::loop_isolation(false)]
pub fn get_method_index(
    assemblies: &HashVec<String, Assembly>,
    assembly_index: usize,
    token: u32,
) -> (result: Result<(usize, usize), Stop>)
    ensures
        match result {
            Ok((method_index, target)) => {
                &&& target < assemblies.spec_values().len()
                &&& method_index < assemblies.spec_values()[target as int].methods@.len()
                &&& spec_table_type(token) == 0x06 ==> target == assembly_index && method_index
                    == spec_rid(token) - 1
            },
            Err(Stop::Load(name)) => assemblies.spec_index_of(name.name@).is_none(),
            Err(Stop::Fault(fault)) => true,
        },
        spec_found(result) == spec_method_place(
            assemblies,
            assembly_index,
            token,
            MAX_TOKEN_HOPS as nat,
        ),
{
    let mut current: u32 = token;
    let mut hops: u32 = 0;
    while hops < MAX_TOKEN_HOPS
        invariant
            hops <= MAX_TOKEN_HOPS,
            spec_method_place(assemblies, assembly_index, token, MAX_TOKEN_HOPS as nat)
                == spec_method_place(
                assemblies,
                assembly_index,
                current,
                (MAX_TOKEN_HOPS - hops) as nat,
            ),
            hops == 0 ==> current == token,
            hops > 0 ==> spec_table_type(token) == 0x2B,
        decreases MAX_TOKEN_HOPS - hops,
    {
        let table: u32 = MDToken::to_table_type(current);
        if table == 0x06 {
            let row: usize = match row_index(current) {
                Some(row) => row,
                None => {
                    return Err(Stop::Fault(Fault::InvalidToken));
                },
            };
            let assembly: &Assembly = match assemblies.index_get(assembly_index) {
                Some(a) => a,
                None => {
                    return Err(Stop::Fault(Fault::InvalidIndex));
                },
            };
            if row >= assembly.methods.len() {
                return Err(Stop::Fault(Fault::InvalidIndex));
            }
            return Ok((row, assembly_index));
        } else if table == 0x0A {
            return resolve_member_ref(assemblies, assembly_index, current);
        } else if table == 0x2B {
            let row: usize = match row_index(current) {
                Some(row) => row,
                None => {
                    return Err(Stop::Fault(Fault::InvalidToken));
                },
            };
            let assembly: &Assembly = match assemblies.index_get(assembly_index) {
                Some(a) => a,
                None => {
                    return Err(Stop::Fault(Fault::InvalidIndex));
                },
            };
            if row >= assembly.method_specs.len() {
                return Err(Stop::Fault(Fault::InvalidIndex));
            }
            current = assembly.method_specs[row].method;
        } else {
            return Err(Stop::Fault(Fault::InvalidToken));
        }
        hops += 1;
    }
    Err(Stop::Fault(Fault::ResolutionFailure))
}

/// How many ancestors a type may have.
pub const MAX_CHAIN: u32 = 64;

/// The places of the type that `type_token` names, seen from the assembly at
/// `assembly_index`, and of its ancestors, the type itself first. Each place is
/// that of an assembly and that of a type definition in it. A null token names no
/// type.
#[verifier::loop_isolation(false)]
pub fn extends_chain(
    assemblies: &HashVec<String, Assembly>,
    assembly_index: usize,
    type_token: u32,
) -> (result: Result<Vec<(usize, usize)>, Stop>)
    ensures
        match result {
            Ok(chain) => {
                &&& spec_rid(type_token) == 0 <==> chain@.len() == 0
                &&& forall|k: int|
                    0 <= k < chain@.len() ==> (#[trigger] chain@[k]).0 < assemblies.spec_values().len()
                        && chain@[k].1 < assemblies.spec_values()[chain@[k].0 as int].type_defs.spec_values().len()
                &&& spec_rid(type_token) != 0 && spec_table_type(type_token) == 0x02 ==> chain@[0]
                    == (assembly_index, (spec_rid(type_token) - 1) as usize)
            },
            Err(Stop::Load(name)) => assemblies.spec_index_of(name.name@).is_none(),
            Err(Stop::Fault(fault)) => true,
        },
        spec_chain_of(result) == spec_extends_chain(
            assemblies,
            assembly_index,
            type_token,
            MAX_CHAIN as nat,
        ),
{
    let mut chain: Vec<(usize, usize)> = Vec::new();
    let mut token: u32 = type_token;
    let mut current: usize = assembly_index;
    let mut hops: u32 = 0;
    assert(chain@ + Seq::<(usize, usize)>::empty() =~= chain@);
    while hops < MAX_CHAIN
        invariant
            hops <= MAX_CHAIN,
            spec_extends_chain(assemblies, assembly_index, type_token, MAX_CHAIN as nat)
                == spec_chain_after(
                chain@,
                spec_extends_chain(assemblies, current, token, (MAX_CHAIN - hops) as nat),
            ),
            hops == 0 ==> token == type_token && current == assembly_index && chain@.len() == 0,
            hops > 0 ==> chain@.len() > 0 && spec_rid(type_token) != 0,
            forall|k: int|
                0 <= k < chain@.len() ==> (#[trigger] chain@[k]).0 < assemblies.spec_values().len()
                    && chain@[k].1 < assemblies.spec_values()[chain@[k].0 as int].type_defs.spec_values().len(),
            chain@.len() > 0 && spec_table_type(type_token) == 0x02 ==> chain@[0] == (
                assembly_index,
                (spec_rid(type_token) - 1) as usize,
            ),
        decreases MAX_CHAIN - hops,
    {
        if MDToken::to_rid(token) == 0 {
            assert(chain@ + Seq::<(usize, usize)>::empty() =~= chain@);
            return Ok(chain);
        }
        let ghost before = chain@;
        let ghost rest = spec_extends_chain(
            assemblies,
            current,
            token,
            (MAX_CHAIN - hops) as nat,
        );
        let (type_def_index, target) = resolve_type_def_or_ref(assemblies, current, token)?;
        let assembly: &Assembly = match assemblies.index_get(target) {
            Some(a) => a,
            None => {
                return Err(Stop::Fault(Fault::InvalidIndex));
            },
        };
        let type_def = match assembly.type_defs.index_get(type_def_index) {
            Some(t) => t,
            None => {
                return Err(Stop::Fault(Fault::InvalidIndex));
            },
        };
        chain.push((target, type_def_index));
        token = type_def.extends;
        current = target;
        hops += 1;
        proof {
            let next = spec_extends_chain(assemblies, current, token, (MAX_CHAIN - hops) as nat);
            assert(rest == spec_chain_after(seq![(target, type_def_index)], next));
            if let Chain::Of(places) = next {
                assert(before + (seq![(target, type_def_index)] + places) =~= chain@ + places);
            }
        }
    }
    Err(Stop::Fault(Fault::ResolutionFailure))
}

/// The zero value of a field with the signature `signature`; the null reference
/// where the signature is missing or is not that of a field.
pub open spec fn spec_zero_of(signature: Option<CallingConventionSig>) -> ILTypeView {
    match signature {
        Some(CallingConventionSig::FieldSig(f)) => match f.type_sig {
            Some(t) => ILType::spec_zero(t.view()),
            None => ILTypeView::Ref(ILRefType::Null),
        },
        _ => ILTypeView::Ref(ILRefType::Null),
    }
}

/// The fields that `fields` holds: the row number of each with its value, in order.
pub open spec fn spec_slots(fields: &HashVec<u32, ILType>) -> Seq<(u32, ILTypeView)> {
    Seq::new(
        fields.spec_keys().len(),
        |j: int| (fields.spec_keys()[j], fields.spec_values()[j].view()),
    )
}

/// True where one of `slots` is that of the field with the row number `rid`.
pub open spec fn spec_has_slot(slots: Seq<(u32, ILTypeView)>, rid: u32) -> bool {
    exists|j: int| 0 <= j < slots.len() && (#[trigger] slots[j]).0 == rid
}

/// The fields `slots` after the field with the row number `rid` got the value
/// `value`: in the place it has where it is there already, else at the end.
pub open spec fn spec_put(slots: Seq<(u32, ILTypeView)>, rid: u32, value: ILTypeView) -> Seq<
    (u32, ILTypeView),
> {
    if spec_has_slot(slots, rid) {
        Seq::new(
            slots.len(),
            |j: int|
                if slots[j].0 == rid {
                    (rid, value)
                } else {
                    slots[j]
                },
        )
    } else {
        slots.push((rid, value))
    }
}

/// The fields `slots` with those of one type put behind them: of the first `upto`
/// row numbers of `list`, those that name a field of `fields` that is not static,
/// each with the zero value of its type.
pub open spec fn spec_type_fields(
    slots: Seq<(u32, ILTypeView)>,
    fields: Seq<Field>,
    list: RidList,
    upto: nat,
) -> Seq<(u32, ILTypeView)>
    decreases upto,
{
    if upto == 0 {
        slots
    } else {
        let before = spec_type_fields(slots, fields, list, (upto - 1) as nat);
        let rid = list.spec_get((upto - 1) as u32);
        if rid != 0 && rid <= fields.len() && fields[rid - 1].flags & 0x0010 == 0 {
            spec_put(before, rid, spec_zero_of(fields[rid - 1].signature))
        } else {
            before
        }
    }
}

/// The fields of a fresh object whose type and ancestors stand at the first `upto`
/// places of `chain`: the fields of each type in turn.
pub open spec fn spec_field_list(
    assemblies: &HashVec<String, Assembly>,
    chain: Seq<(usize, usize)>,
    upto: nat,
) -> Seq<(u32, ILTypeView)>
    decreases upto,
{
    let list = assemblies.spec_values();
    if upto == 0 {
        Seq::empty()
    } else {
        let before = spec_field_list(assemblies, chain, (upto - 1) as nat);
        let place = chain[upto - 1];
        if place.0 < list.len() && place.1 < list[place.0 as int].type_defs.spec_values().len() {
            spec_type_fields(
                before,
                list[place.0 as int].fields@,
                list[place.0 as int].type_defs.spec_values()[place.1 as int].field_list,
                list[place.0 as int].type_defs.spec_values()[place.1 as int].field_list.count as nat,
            )
        } else {
            before
        }
    }
}

/// True where every one of `values` is a primitive value or the null reference.
pub open spec fn spec_plain(values: Seq<ILType>) -> bool {
    forall|j: int|
        0 <= j < values.len() ==> (#[trigger] values[j]).view() is Val || values[j].view()
            == ILTypeView::Ref(ILRefType::Null)
}

/// Gives the field with the row number `rid` the value `value`.
fn put_field(fields: &mut HashVec<u32, ILType>, rid: u32, value: ILType)
    requires
        old(fields).spec_well_formed(),
    ensures
        final(fields).spec_well_formed(),
        spec_plain(old(fields).spec_values()) && (value.view() is Val || value.view()
            == ILTypeView::Ref(ILRefType::Null)) ==> spec_plain(final(fields).spec_values()),
        spec_slots(final(fields)) == spec_put(spec_slots(old(fields)), rid, value.view()),
{
    let ghost keys = fields.spec_keys();
    let ghost before = spec_slots(fields);
    let ghost v = value.view();
    fields.insert(rid, value);
    proof {
        match old(fields).spec_index_of(rid) {
            Some(i) => {
                if !keys.contains(rid) {
                    assert(old(fields).spec_index_of(rid).is_none());
                }
                let j = choose|j: int| 0 <= j < keys.len() && keys[j] == rid;
                assert(old(fields).spec_index_of(keys[j]) == Some(j as usize));
                assert(before[i as int].0 == rid);
                assert(spec_has_slot(before, rid));
                assert forall|k: int| 0 <= k < keys.len() && keys[k] == rid implies k == i by {
                    assert(old(fields).spec_index_of(keys[k]) == Some(k as usize));
                }
                assert(spec_slots(fields) =~= spec_put(before, rid, v));
            },
            None => {
                if spec_has_slot(before, rid) {
                    let j = choose|j: int| 0 <= j < before.len() && (#[trigger] before[j]).0 == rid;
                    assert(old(fields).spec_index_of(keys[j]) == Some(j as usize));
                }
                assert(spec_slots(fields) =~= spec_put(before, rid, v));
            },
        }
    }
}

/// The fields of a fresh object whose type and ancestors stand at the places
/// `chain`: for each type in turn, the fields of the type that are not static, by
/// their row numbers, each with the zero value of its type.
pub fn field_list(assemblies: &HashVec<String, Assembly>, chain: &Vec<(usize, usize)>) -> (fields:
    HashVec<u32, ILType>)
    ensures
        fields.spec_well_formed(),
        spec_slots(&fields) == spec_field_list(assemblies, chain@, chain@.len()),
        spec_plain(fields.spec_values()),
{
    let mut fields: HashVec<u32, ILType> = HashVec::new();
    assert(spec_slots(&fields) =~= Seq::empty());
    let mut k: usize = 0;
    while k < chain.len()
        invariant
            k <= chain@.len(),
            fields.spec_well_formed(),
            spec_plain(fields.spec_values()),
            spec_slots(&fields) == spec_field_list(assemblies, chain@, k as nat),
        decreases chain@.len() - k,
    {
        let (target, type_def_index) = chain[k];
        match assemblies.index_get(target) {
            Some(assembly) => match assembly.type_defs.index_get(type_def_index) {
                Some(type_def) => {
                    let count: u32 = type_def.field_list.count;
                    let ghost start = spec_slots(&fields);
                    let mut i: u32 = 0;
                    while i < count
                        invariant
                            i <= count,
                            fields.spec_well_formed(),
                            spec_plain(fields.spec_values()),
                            spec_slots(&fields) == spec_type_fields(
                                start,
                                assembly.fields@,
                                type_def.field_list,
                                i as nat,
                            ),
                        decreases count - i,
                    {
                        let rid: u32 = type_def.field_list.get(i);
                        if rid != 0 && rid as usize <= assembly.fields.len() {
                            let field = &assembly.fields[(rid - 1) as usize];
                            if !field.is_static() {
                                put_field(&mut fields, rid, zero_of(&field.signature));
                            }
                        }
                        i += 1;
                    }
                },
                None => {},
            },
            None => {},
        }
        k += 1;
    }
    fields
}

/// The zero value of a field with the signature `signature`.
pub fn zero_of(signature: &Option<CallingConventionSig>) -> (value: ILType)
    ensures
        value.view() == spec_zero_of(*signature),
        value.view() is Val || value.view() == ILTypeView::Ref(ILRefType::Null),
{
    match signature {
        Some(sig) => match sig {
            CallingConventionSig::FieldSig(_) => ILType::from_signature(sig),
            _ => ILType::Ref(ILRefType::Null),
        },
        None => ILType::Ref(ILRefType::Null),
    }
}

} // verus!
