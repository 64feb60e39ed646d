//! The registries' governing properties, stated over their views and
//! proved once for every input.

use crate::registry::spec_insert;
use vstd::prelude::*;

verus! {

/// Inserting a handle into a handle set is idempotent: a second insertion
/// of the same handle changes nothing, so a set that saw the same handle
/// twice has size 1.
pub proof fn lemma_insert_idempotent(handles: Set<u64>, system: u64)
    ensures
        handles.insert(system).insert(system) == handles.insert(system),
        Set::<u64>::empty().insert(system).insert(system).len() == 1,
{
    assert(handles.insert(system).insert(system) =~= handles.insert(system));
    assert(Set::<u64>::empty().insert(system).insert(system) =~= Set::<u64>::empty().insert(
        system,
    ));
}

/// For the untyped registry: a duplicate insertion under the same identity
/// leaves the whole registry view unchanged.
pub proof fn lemma_untyped_insert_idempotent(m: Map<u64, Set<u64>>, id: u64, system: u64)
    ensures
        spec_insert(spec_insert(m, id, system), id, system) == spec_insert(m, id, system),
{
    let once = spec_insert(m, id, system);
    assert(once[id].insert(system) =~= once[id]);
    assert(spec_insert(once, id, system) =~= once);
}

/// The handle set left by registering each handle of a sequence in turn,
/// starting from `s`.
pub open spec fn insert_all(handles: Seq<u64>, s: Set<u64>) -> Set<u64>
    decreases handles.len(),
{
    if handles.len() == 0 {
        s
    } else {
        insert_all(handles.drop_last(), s).insert(handles.last())
    }
}

/// Registering a run of handles adds exactly those handles to the set.
pub proof fn lemma_insert_all_union(handles: Seq<u64>, s: Set<u64>)
    ensures
        insert_all(handles, s) == s.union(handles.to_set()),
    decreases handles.len(),
{
    if handles.len() == 0 {
        assert(handles.to_set() =~= Set::<u64>::empty());
        assert(insert_all(handles, s) =~= s.union(handles.to_set()));
    } else {
        lemma_insert_all_union(handles.drop_last(), s);
        assert(handles =~= handles.drop_last().push(handles.last()));
        Seq::<u64>::lemma_push_to_set_commute(handles.drop_last(), handles.last());
        assert(s.union(handles.drop_last().to_set()).insert(handles.last()) =~= s.union(
            handles.to_set(),
        ));
    }
}

/// Registering any number of distinct handles for one schedule yields a
/// handle set holding exactly those handles, of size their number.  That a
/// replay then hands each member out exactly once is what the replay
/// contracts state of their result.
pub proof fn lemma_distinct_handles_fill_the_set(handles: Seq<u64>)
    requires
        handles.no_duplicates(),
    ensures
        insert_all(handles, Set::<u64>::empty()) == handles.to_set(),
        insert_all(handles, Set::<u64>::empty()).len() == handles.len(),
{
    lemma_insert_all_union(handles, Set::<u64>::empty());
    assert(Set::<u64>::empty().union(handles.to_set()) =~= handles.to_set());
    handles.unique_seq_to_set();
}

/// For the untyped registry: inserting a handle under an identity and then
/// looking that identity up finds a handle set that contains the handle.
pub proof fn lemma_insert_then_get(m: Map<u64, Set<u64>>, id: u64, system: u64)
    ensures
        spec_insert(m, id, system).contains_key(id),
        spec_insert(m, id, system)[id].contains(system),
{
}

/// For the untyped registry: identities are isolated.  An insertion under
/// one identity neither creates, removes nor changes the handle set of any
/// other identity.
pub proof fn lemma_insert_isolated(m: Map<u64, Set<u64>>, id: u64, other: u64, system: u64)
    requires
        id != other,
    ensures
        spec_insert(m, id, system).contains_key(other) == m.contains_key(other),
        m.contains_key(other) ==> spec_insert(m, id, system)[other] == m[other],
{
}

} // verus!
