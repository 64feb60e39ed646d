//! Registries that associate schedule labels with sets of system handles.

use crate::label::{InternedLabelRegistry, UntypedScheduleLabel};
use std::collections::HashMap;
use std::collections::HashSet;
use vstd::prelude::*;
use vstd::std_specs::hash::spec_hash_keys_iter;
use vstd::std_specs::iter::IteratorSpec;

verus! {

/// An opaque handle to a registered callable unit ("system").
///
/// The host scheduler can invoke a system by such a handle without the
/// caller holding the callable itself; here it is carried as the plain
/// integer the host uses to identify it.
#[derive(Clone, Copy, Debug, PartialEq, Eq, Hash, Structural)]
pub struct SystemId {
    id: u64,
}

impl View for SystemId {
    type V = u64;

    closed spec fn view(&self) -> u64 {
        self.id
    }
}

impl SystemId {
    /// Wraps a host-assigned system handle value.
    pub fn new(id: u64) -> (r: Self)
        ensures
            r@ == id,
    {
        SystemId { id }
    }

    /// The handle value this identifier carries.
    pub fn id(&self) -> (r: u64)
        ensures
            r == self@,
    {
        self.id
    }
}

/// The handle values of a sequence of system handles.
pub open spec fn handle_values(s: Seq<SystemId>) -> Seq<u64> {
    s.map_values(|h: SystemId| h@)
}

/// Collects the handles of a set into a vector: each member exactly once,
/// in no specified order.
fn collect_handles(systems: &HashSet<u64>) -> (r: Vec<SystemId>)
    ensures
        handle_values(r@).no_duplicates(),
        handle_values(r@).to_set() == systems@,
        r@.len() == systems@.len(),
{
    let mut r: Vec<SystemId> = Vec::new();
    for k in it: systems.iter()
        invariant
            it.seq() == spec_hash_keys_iter(systems).remaining(),
            r@.len() == it.index(),
            forall|i: int| 0 <= i < r@.len() ==> r@[i]@ == *it.seq()[i],
    {
        r.push(SystemId { id: *k });
    }
    proof {
        let s0 = spec_hash_keys_iter(systems).remaining();
        assert(handle_values(r@) =~= s0.unref());
        assert forall|i: int, j: int|
            0 <= i < j < s0.unref().len() implies s0.unref()[i] != s0.unref()[j] by {
            assert(s0[i] != s0[j]);
        }
        assert(handle_values(r@).to_set() =~= systems@);
    }
    r
}

/// A registry for one compile-time-known schedule: the set of system
/// handles registered for that schedule, for batch replay.
///
/// Its view is the set of handle values held.  Insertion is idempotent:
/// the set absorbs duplicate handles without error.
pub struct TypedScheduleRegistry {
    systems: HashSet<u64>,
}

impl View for TypedScheduleRegistry {
    type V = Set<u64>;

    closed spec fn view(&self) -> Set<u64> {
        self.systems@
    }
}

impl TypedScheduleRegistry {
    /// An empty registry.
    pub fn new() -> (r: Self)
        ensures
            r@ == Set::<u64>::empty(),
    {
        TypedScheduleRegistry { systems: HashSet::new() }
    }

    /// Adds a handle to the set; a duplicate handle is absorbed.
    pub fn insert(&mut self, system: SystemId)
        ensures
            final(self)@ == old(self)@.insert(system@),
    {
        self.systems.insert(system.id());
    }

    /// Whether a handle is registered.
    pub fn contains(&self, system: &SystemId) -> (b: bool)
        ensures
            b == self@.contains(system@),
    {
        self.systems.contains(&system.id())
    }

    /// How many distinct handles are registered.
    pub fn len(&self) -> (n: usize)
        ensures
            n == self@.len(),
    {
        self.systems.len()
    }

    /// The replay plan: every registered handle exactly once, in no
    /// specified order.  The caller hands each handle in turn to the host
    /// scheduler for immediate execution.
    pub fn replay_handles(&self) -> (r: Vec<SystemId>)
        ensures
            handle_values(r@).no_duplicates(),
            handle_values(r@).to_set() == self@,
            r@.len() == self@.len(),
    {
        collect_handles(&self.systems)
    }
}

impl Default for TypedScheduleRegistry {
    /// The default registry is the empty one.
    fn default() -> (r: Self)
        ensures
            r@ == Set::<u64>::empty(),
    {
        TypedScheduleRegistry::new()
    }
}

/// What inserting `system` under `id` does to an untyped registry's view:
/// the identity's handle set — empty on the identity's first use — absorbs
/// the handle, and no other identity's set changes.
pub open spec fn spec_insert(m: Map<u64, Set<u64>>, id: u64, system: u64) -> Map<u64, Set<u64>> {
    let prior = if m.contains_key(id) {
        m[id]
    } else {
        Set::<u64>::empty()
    };
    m.insert(id, prior.insert(system))
}

/// A type-erased schedule registry: one physical registry shared by many
/// distinct schedule identities.
///
/// Each identity is interned to a canonical label, and each label owns a
/// duplicate-free, unordered set of system handles.  The view is the
/// mapping from identity values to the handle-value sets registered for
/// them; the interning layer is invisible in the view, but its injectivity
/// is what keeps two distinct identities from ever sharing a handle set.
pub struct ScheduleRegistry {
    labels: InternedLabelRegistry,
    systems: HashMap<u64, HashSet<u64>>,
}

impl View for ScheduleRegistry {
    type V = Map<u64, Set<u64>>;

    closed spec fn view(&self) -> Map<u64, Set<u64>> {
        Map::new(
            |i: u64| self.labels@.contains_key(i),
            |i: u64| self.systems@[self.labels@[i]]@,
        )
    }
}

impl ScheduleRegistry {
    /// The registry is well formed: the interning table is, every interned
    /// label owns a handle set, and every handle set belongs to some
    /// interned identity.
    pub closed spec fn wf(self) -> bool {
        &&& self.labels.wf()
        &&& forall|i: u64| #[trigger]
            self.labels@.contains_key(i) ==> self.systems@.contains_key(self.labels@[i])
        &&& forall|l: u64| #[trigger]
            self.systems@.contains_key(l) ==> exists|i: u64|
                self.labels@.contains_key(i) && self.labels@[i] == l
    }

    /// An empty registry.
    pub fn new() -> (r: Self)
        ensures
            r.wf(),
            r@ == Map::<u64, Set<u64>>::empty(),
    {
        let r = ScheduleRegistry { labels: InternedLabelRegistry::new(), systems: HashMap::new() };
        proof {
            assert(r@ =~= Map::<u64, Set<u64>>::empty());
        }
        r
    }

    /// Registers a handle under a schedule identity: the identity's label
    /// is resolved (or created on first use), and its handle set absorbs
    /// the handle.  A duplicate handle leaves the set as it was, and no
    /// other identity's set is touched.
    pub fn insert(&mut self, label: &UntypedScheduleLabel, system: SystemId)
        requires
            old(self).wf(),
            old(self)@.dom().len() < u64::MAX,
        ensures
            final(self).wf(),
            final(self)@ == spec_insert(old(self)@, label@, system@),
    {
        let ghost m0 = self@;
        let ghost lab0 = self.labels@;
        let ghost sys0 = self.systems@;
        proof {
            assert(m0.dom() =~= lab0.dom());
        }
        let interned = self.labels.intern(label);
        let l = interned.value();
        let mut handles = match self.systems.remove(&l) {
            Some(s) => s,
            None => HashSet::new(),
        };
        proof {
            if lab0.contains_key(label@) {
                assert(sys0.contains_key(l));
                assert(handles@ == sys0[l]@);
            } else {
                assert(!sys0.contains_key(l)) by {
                    if sys0.contains_key(l) {
                        let i = choose|i: u64| lab0.contains_key(i) && lab0[i] == l;
                        assert(lab0.contains_key(i) && lab0[i] == l);
                        assert(lab0[i] != l);
                    }
                }
                assert(handles@ =~= Set::<u64>::empty());
            }
        }
        handles.insert(system.id());
        self.systems.insert(l, handles);
        proof {
            assert forall|i: u64| #[trigger]
                self.labels@.contains_key(i) implies self.systems@.contains_key(
                self.labels@[i],
            ) by {
                if i != label@ {
                    assert(lab0.contains_key(i) && self.labels@[i] == lab0[i]);
                }
            }
            assert forall|l2: u64| #[trigger] self.systems@.contains_key(l2) implies exists|
                i: u64,
            |
                self.labels@.contains_key(i) && self.labels@[i] == l2 by {
                if l2 == l {
                    assert(self.labels@.contains_key(label@) && self.labels@[label@] == l2);
                } else {
                    assert(sys0.contains_key(l2));
                    let i = choose|i: u64| lab0.contains_key(i) && lab0[i] == l2;
                    assert(self.labels@.contains_key(i) && self.labels@[i] == l2);
                }
            }
            assert(self@ =~= spec_insert(m0, label@, system@)) by {
                assert forall|i: u64| lab0.contains_key(i) && i != label@ implies self@[i] == m0[i] by {
                    assert(lab0[i] != l) by {
                        if lab0.contains_key(label@) {
                            old(self).labels.lemma_wf_injective();
                        }
                    }
                    assert(self.labels@[i] == lab0[i]);
                    assert(self.systems@[lab0[i]] == sys0[lab0[i]]);
                }
                assert(self@[label@] == handles@);
            }
        }
    }

    /// The handle set registered for an identity.
    ///
    /// In the pattern this registry serves, an identity is looked up only
    /// after startup registered it, so the lookup is partial: the caller
    /// owes an identity that was inserted before.  [`Self::try_get`] is the
    /// guarded variant for a caller that cannot owe that.
    pub fn get(&self, label: &UntypedScheduleLabel) -> (r: &HashSet<u64>)
        requires
            self.wf(),
            self@.contains_key(label@),
        ensures
            r@ == self@[label@],
    {
        let interned = self.labels.lookup(label).unwrap();
        self.systems.get(&interned.value()).unwrap()
    }

    /// The handle set registered for an identity, or `None` exactly when
    /// the identity was never inserted.
    pub fn try_get(&self, label: &UntypedScheduleLabel) -> (r: Option<&HashSet<u64>>)
        requires
            self.wf(),
        ensures
            match r {
                Some(s) => self@.contains_key(label@) && s@ == self@[label@],
                None => !self@.contains_key(label@),
            },
    {
        match self.labels.lookup(label) {
            Some(interned) => Some(self.systems.get(&interned.value()).unwrap()),
            None => None,
        }
    }

    /// Whether an identity has been inserted.
    pub fn contains_label(&self, label: &UntypedScheduleLabel) -> (b: bool)
        ensures
            b == self@.contains_key(label@),
    {
        self.labels.lookup(label).is_some()
    }

    /// How many distinct identities have handles registered.
    pub fn len(&self) -> (n: usize)
        ensures
            n == self@.dom().len(),
    {
        proof {
            assert(self@.dom() =~= self.labels@.dom());
        }
        self.labels.len()
    }

    /// The replay plan for one identity: every handle registered for it
    /// exactly once, in no specified order, and nothing for an identity
    /// never inserted.
    pub fn replay_handles(&self, label: &UntypedScheduleLabel) -> (r: Vec<SystemId>)
        requires
            self.wf(),
        ensures
            handle_values(r@).no_duplicates(),
            self@.contains_key(label@) ==> handle_values(r@).to_set() == self@[label@]
                && r@.len() == self@[label@].len(),
            !self@.contains_key(label@) ==> r@ == Seq::<SystemId>::empty(),
    {
        match self.try_get(label) {
            Some(handles) => collect_handles(handles),
            None => Vec::new(),
        }
    }
}

impl Default for ScheduleRegistry {
    /// The default registry is the empty one.
    fn default() -> (r: Self)
        ensures
            r.wf(),
            r@ == Map::<u64, Set<u64>>::empty(),
    {
        ScheduleRegistry::new()
    }
}

/// A small end-to-end exercise of the untyped registry: one handle
/// registered under one identity, looked up again, is the only member of
/// that identity's handle set.
pub fn test() -> (n: usize)
    ensures
        n == 1,
{
    let mut registry = ScheduleRegistry::default();
    let update = UntypedScheduleLabel::new(1);
    registry.insert(&update, SystemId::new(17));
    let systems = registry.get(&update);
    systems.len()
}

} // verus!
