use super::metadata::blob_stream::{spec_blob, spec_blob_error};
use super::metadata::root::Metadata;
use super::signature::{spec_blob_sig, spec_type, CallingConventionSigView};
use super::type_sig::{TypeSig, TypeSigView};
use super::text::{
    lemma_decimal_injective, lemma_decimal_not_empty, spec_decimal, spec_suffixed, suffixed,
};
use crate::hash_vec::HashVec;
use vstd::prelude::*;
use vstd::relations::injective_on;
use vstd::set_lib::{lemma_int_range, lemma_len_subset, lemma_map_size, set_int_range};

verus! {

/// The first place at or after `from` where `owners` holds a row number above `rid`;
/// the length of `owners` where there is none. A row `rid` of a child table belongs
/// to the parent row before that place.
pub open spec fn spec_first_above(owners: Seq<u32>, rid: int, from: int) -> int
    decreases owners.len() - from,
{
    if from < 0 || from >= owners.len() || owners[from] > rid {
        from
    } else {
        spec_first_above(owners, rid, from + 1)
    }
}

/// Where the search for row `rid` stopped, the search for the next row goes on.
pub proof fn lemma_first_above_step(owners: Seq<u32>, rid: int, stop: int)
    requires
        0 <= stop <= owners.len(),
        spec_first_above(owners, rid, 0) == stop,
    ensures
        spec_first_above(owners, rid + 1, 0) == spec_first_above(owners, rid + 1, stop),
{
    lemma_first_above_from(owners, rid, 0, stop);
}

proof fn lemma_first_above_from(owners: Seq<u32>, rid: int, from: int, stop: int)
    requires
        0 <= from <= stop <= owners.len(),
        spec_first_above(owners, rid, from) == stop,
    ensures
        spec_first_above(owners, rid + 1, from) == spec_first_above(owners, rid + 1, stop),
    decreases stop - from,
{
    if from < stop {
        lemma_first_above_from(owners, rid, from + 1, stop);
    }
}

/// One more than the last place before `stop` where `owners` holds a row number;
/// zero where there is none. A type without rows of its own holds zero.
pub open spec fn spec_last_owner(owners: Seq<u32>, stop: int) -> int
    decreases stop,
{
    if stop <= 0 || stop > owners.len() {
        0
    } else if owners[stop - 1] != 0 {
        stop
    } else {
        spec_last_owner(owners, stop - 1)
    }
}

/// One more than the place of the type that owns row `rid` of a child table,
/// where `owners` holds, for each type in order, the number of its first row:
/// the last type with rows of its own before the first type whose rows start
/// above `rid`. Zero where no type owns the row.
pub open spec fn spec_owner(owners: Seq<u32>, rid: int) -> int {
    spec_last_owner(owners, spec_first_above(owners, rid, 0))
}

/// Goes on from `from`, where the search for an earlier row stopped, to the first
/// place where `owners` holds a row number above `rid`, and keeps track of the
/// last place before it that holds a row number.
pub fn advance_owner(owners: &Vec<u32>, rid: u32, from: usize, from_owner: usize) -> (found: (
    usize,
    usize,
))
    requires
        from <= owners@.len(),
        from_owner == spec_last_owner(owners@, from as int),
        spec_first_above(owners@, rid as int, 0) == spec_first_above(
            owners@,
            rid as int,
            from as int,
        ),
    ensures
        found.0 == spec_first_above(owners@, rid as int, 0),
        found.0 <= owners@.len(),
        found.1 == spec_last_owner(owners@, found.0 as int),
        found.1 == spec_owner(owners@, rid as int),
        found.1 <= found.0,
        spec_first_above(owners@, rid + 1, 0) == spec_first_above(owners@, rid + 1, found.0 as int),
{
    let mut index: usize = from;
    let mut owner: usize = from_owner;
    proof {
        lemma_last_owner_bound(owners@, from as int);
    }
    while index < owners.len() && rid >= owners[index]
        invariant
            index <= owners@.len(),
            owner <= index,
            owner == spec_last_owner(owners@, index as int),
            spec_first_above(owners@, rid as int, 0) == spec_first_above(
                owners@,
                rid as int,
                index as int,
            ),
        decreases owners@.len() - index,
    {
        if owners[index] != 0 {
            owner = index + 1;
        }
        index += 1;
    }
    proof {
        lemma_first_above_step(owners@, rid as int, index as int);
    }
    (index, owner)
}

/// The last owner before a place stands before the place.
proof fn lemma_last_owner_bound(owners: Seq<u32>, stop: int)
    ensures
        0 <= spec_last_owner(owners, stop),
        stop >= 0 ==> spec_last_owner(owners, stop) <= stop,
    decreases stop,
{
    if stop > 0 && stop <= owners.len() && owners[stop - 1] == 0 {
        lemma_last_owner_bound(owners, stop - 1);
    }
}

/// The signature that the cell names in the `#Blob` heap, if it names one.
pub open spec fn spec_cell_sig(md: &Metadata, t: int, col: int, row: int) -> Option<
    CallingConventionSigView,
> {
    let offset = md.spec_cell(t, col, row) as int;
    if spec_blob_error(md.blob_stream.bytes(), offset).is_some() {
        None
    } else {
        spec_blob_sig(spec_blob(md.blob_stream.bytes(), offset))
    }
}

/// The type that the cell names in the `#Blob` heap, if it names one.
pub open spec fn spec_cell_type(md: &Metadata, t: int, col: int, row: int) -> Option<TypeSigView> {
    let offset = md.spec_cell(t, col, row) as int;
    if spec_blob_error(md.blob_stream.bytes(), offset).is_some() {
        None
    } else {
        match spec_type(spec_blob(md.blob_stream.bytes(), offset), 0, 32) {
            Some((t, end)) => Some(t),
            None => None,
        }
    }
}

/// The view of a type that may be missing.
pub open spec fn spec_option_type_view(sig: Option<TypeSig>) -> Option<TypeSigView> {
    match sig {
        Some(s) => Some(s.view()),
        None => None,
    }
}

/// `likely_stable::unlikely`: a hint for the compiler that hands its argument back.
pub assume_specification[ likely_stable::unlikely ](b: bool) -> (r: bool)
    ensures
        r == b,
;

/// True where `key` is the key under which a type named `full` is kept beside the
/// types with the keys `taken`: the name itself where it is free, else the name
/// with the least number, from one on, behind a backquote that makes it free.
pub open spec fn spec_unique_key(taken: Seq<Seq<char>>, full: Seq<char>, key: Seq<char>) -> bool {
    if !taken.contains(full) {
        key == full
    } else {
        exists|n: nat|
            1 <= n <= u32::MAX && key == #[trigger] spec_suffixed(full, n) && !taken.contains(key)
                && forall|m: nat| 1 <= m < n ==> taken.contains(#[trigger] spec_suffixed(full, m))
    }
}

/// True where no key can be made from `full` beside the keys `taken`: the name
/// and the name with every number behind it are taken.
pub open spec fn spec_no_free_key(taken: Seq<Seq<char>>, full: Seq<char>) -> bool {
    taken.contains(full) && forall|m: nat|
        1 <= m < u32::MAX ==> taken.contains(#[trigger] spec_suffixed(full, m))
}

/// The candidate keys for a type named `full`: the name itself at place zero, then
/// the name with the number of the place behind it.
pub open spec fn spec_candidate(full: Seq<char>, place: int) -> Seq<char> {
    if place == 0 {
        full
    } else {
        spec_suffixed(full, place as nat)
    }
}

/// Different places give different candidate keys.
proof fn lemma_candidates_differ(full: Seq<char>, a: int, b: int)
    requires
        0 <= a,
        0 <= b,
        spec_candidate(full, a) == spec_candidate(full, b),
    ensures
        a == b,
{
    lemma_decimal_not_empty(a as nat);
    lemma_decimal_not_empty(b as nat);
    if a != 0 && b != 0 {
        let x = spec_suffixed(full, a as nat);
        let y = spec_suffixed(full, b as nat);
        assert(x.subrange(full.len() as int + 1, x.len() as int) =~= spec_decimal(a as nat));
        assert(y.subrange(full.len() as int + 1, y.len() as int) =~= spec_decimal(b as nat));
        lemma_decimal_injective(a as nat, b as nat);
    } else if a != 0 {
        assert(spec_suffixed(full, a as nat).len() > full.len());
    } else if b != 0 {
        assert(spec_suffixed(full, b as nat).len() > full.len());
    }
}

/// Beside fewer keys than there are candidates, one candidate is free.
pub proof fn lemma_free_key(taken: Seq<Seq<char>>, full: Seq<char>)
    requires
        taken.len() < u32::MAX,
    ensures
        !spec_no_free_key(taken, full),
{
    if spec_no_free_key(taken, full) {
        let n = u32::MAX as int;
        let places = set_int_range(0, n);
        let key_at = |place: int| spec_candidate(full, place);
        lemma_int_range(0, n);
        assert(injective_on(key_at, places)) by {
            assert forall|a: int, b: int|
                places.contains(a) && places.contains(b) && #[trigger] key_at(a) == #[trigger] key_at(
                    b,
                ) implies a == b by {
                lemma_candidates_differ(full, a, b);
            }
        }
        let keys = places.map(key_at);
        lemma_map_size(places, keys, key_at);
        taken.lemma_cardinality_of_set();
        assert(keys.subset_of(taken.to_set())) by {
            assert forall|k: Seq<char>| keys.contains(k) implies taken.to_set().contains(k) by {
                let place = choose|place: int| places.contains(place) && k == key_at(place);
                if place != 0 {
                    assert(taken.contains(spec_suffixed(full, place as nat)));
                }
            }
        }
        lemma_len_subset(keys, taken.to_set());
    }
}

/// Puts `value` at the end of `index` under a key made from `full_name` that no
/// other value has. Returns false, and changes nothing, where every candidate is
/// taken; that does not happen beside fewer keys than there are candidates.
pub fn insert_unique<V>(index: &mut HashVec<String, V>, full_name: String, value: V) -> (done:
    bool)
    ensures
        final(index).spec_well_formed(),
        done == !spec_no_free_key(old(index).spec_keys(), full_name@),
        old(index).spec_keys().len() < u32::MAX ==> done,
        done ==> {
            &&& final(index).spec_values() == old(index).spec_values().push(value)
            &&& final(index).spec_keys().len() == old(index).spec_keys().len() + 1
            &&& final(index).spec_keys().subrange(0, old(index).spec_keys().len() as int) == old(index).spec_keys()
            &&& spec_unique_key(
                old(index).spec_keys(),
                full_name@,
                final(index).spec_keys()[old(index).spec_keys().len() as int],
            )
        },
        !done ==> final(index).spec_values() == old(index).spec_values() && final(index).spec_keys() == old(index).spec_keys(),
        forall|k: Seq<char>|
            old(index).spec_index_of(k).is_some() ==> final(index).spec_index_of(k) == old(index).spec_index_of(k),
{
    let ghost taken = index.spec_keys();
    let _ = index.len();
    proof {
        if taken.len() < u32::MAX {
            lemma_free_key(taken, full_name@);
        }
    }
    if !likely_stable::unlikely(index.contains(&full_name)) {
        index.insert(full_name, value);
        proof {
            assert(index.spec_keys().subrange(0, taken.len() as int) =~= taken);
        }
        return true;
    }
    let mut post_fix: u32 = 1;
    while post_fix < u32::MAX
        invariant
            1 <= post_fix <= u32::MAX,
            index.spec_keys() == taken,
            taken == old(index).spec_keys(),
            index.spec_values() == old(index).spec_values(),
            index.spec_well_formed(),
            taken.contains(full_name@),
            forall|k: Seq<char>| index.spec_index_of(k) == old(index).spec_index_of(k),
            forall|m: nat| 1 <= m < post_fix ==> taken.contains(#[trigger] spec_suffixed(full_name@, m)),
        decreases u32::MAX - post_fix,
    {
        let candidate: String = suffixed(&full_name, post_fix);
        if !index.contains(&candidate) {
            let ghost key = candidate@;
            index.insert(candidate, value);
            proof {
                assert(index.spec_keys().subrange(0, taken.len() as int) =~= taken);
                assert(index.spec_keys()[taken.len() as int] == key);
                assert(key == spec_suffixed(full_name@, post_fix as nat));
                assert(!taken.contains(key));
                assert(spec_unique_key(taken, full_name@, key));
            }
            return true;
        }
        post_fix += 1;
    }
    false
}

} // verus!
