//! Schedule identities and interned schedule labels.
//!
//! A schedule identity is a runtime-erased stand-in for a compile-time
//! schedule tag: a stable integer that two call sites agree on exactly when
//! they mean the same schedule.  Interning deduplicates repeated identities
//! into canonical labels, so that registries can key their storage by a
//! small dense value and compare labels cheaply.

use std::collections::HashMap;
use vstd::prelude::*;

verus! {

/// A runtime-erased schedule identity.
///
/// The host engine derives such an identity from a compile-time schedule
/// type; here it is carried as the plain integer the erasure produces.  Two
/// values are the same identity exactly when their integers are equal.
#[derive(Clone, Copy, Debug, PartialEq, Eq, Hash, Structural)]
pub struct UntypedScheduleLabel {
    id: u64,
}

impl View for UntypedScheduleLabel {
    type V = u64;

    closed spec fn view(&self) -> u64 {
        self.id
    }
}

impl UntypedScheduleLabel {
    /// Wraps a stable identity value.
    pub fn new(id: u64) -> (r: Self)
        ensures
            r@ == id,
    {
        UntypedScheduleLabel { id }
    }

    /// The identity value this label carries.
    pub fn id(&self) -> (r: u64)
        ensures
            r == self@,
    {
        self.id
    }
}

/// A canonical, interned form of a schedule label.
///
/// Interned labels are handed out by [`InternedLabelRegistry::intern`]; two
/// of them compare equal exactly when they came from the same schedule
/// identity.
#[derive(Clone, Copy, Debug, PartialEq, Eq, Hash, Structural)]
pub struct InternedScheduleLabel {
    value: u64,
}

impl View for InternedScheduleLabel {
    type V = u64;

    closed spec fn view(&self) -> u64 {
        self.value
    }
}

impl InternedScheduleLabel {
    /// The canonical value this interned label carries.
    pub fn value(&self) -> (r: u64)
        ensures
            r == self@,
    {
        self.value
    }
}

/// A mapping of identities to labels is injective: no two identities share
/// a label value.
pub open spec fn injective(m: Map<u64, u64>) -> bool {
    forall|i: u64, j: u64|
        #![trigger m[i], m[j]]
        m.contains_key(i) && m.contains_key(j) && m[i] == m[j] ==> i == j
}

/// An interning table from schedule identities to canonical labels.
///
/// The table assigns each identity a label on first sight and returns that
/// same label ever after; distinct identities never share a label.  Its
/// view is the mapping from identity values to label values built so far.
pub struct InternedLabelRegistry {
    table: HashMap<u64, u64>,
    next: u64,
}

impl View for InternedLabelRegistry {
    type V = Map<u64, u64>;

    closed spec fn view(&self) -> Map<u64, u64> {
        self.table@
    }
}

impl InternedLabelRegistry {
    /// The table is well formed: every assigned label lies below the fresh
    /// counter, the counter counts the assignments made, and no two
    /// identities share a label.
    pub closed spec fn wf(self) -> bool {
        &&& forall|i: u64| #[trigger] self.table@.contains_key(i) ==> self.table@[i] < self.next
        &&& self.next == self.table@.dom().len()
        &&& injective(self.table@)
    }

    /// A well-formed interning table never maps two identities to one
    /// label.
    pub proof fn lemma_wf_injective(self)
        requires
            self.wf(),
        ensures
            injective(self@),
    {
    }

    /// An empty interning table.
    pub fn new() -> (r: Self)
        ensures
            r.wf(),
            r@ == Map::<u64, u64>::empty(),
    {
        let r = InternedLabelRegistry { table: HashMap::new(), next: 0 };
        proof {
            assert(r.table@.dom() =~= Set::<u64>::empty());
        }
        r
    }

    /// Returns the canonical label for `label`, assigning a fresh one on
    /// first sight.  The same identity always receives the same label, and
    /// a newly assigned label differs from every label assigned before.
    pub fn intern(&mut self, label: &UntypedScheduleLabel) -> (r: InternedScheduleLabel)
        requires
            old(self).wf(),
            old(self)@.dom().len() < u64::MAX,
        ensures
            final(self).wf(),
            final(self)@ == old(self)@.insert(label@, r@),
            old(self)@.contains_key(label@) ==> r@ == old(self)@[label@],
            !old(self)@.contains_key(label@) ==> forall|i: u64|
                #[trigger] old(self)@.contains_key(i) ==> old(self)@[i] != r@,
    {
        match self.table.get(&label.id()) {
            Some(v) => {
                let r = InternedScheduleLabel { value: *v };
                proof {
                    assert(self.table@ =~= self.table@.insert(label@, r@));
                }
                r
            },
            None => {
                let v = self.next;
                self.next = self.next + 1;
                self.table.insert(label.id(), v);
                proof {
                    assert(self.table@.dom() =~= old(self).table@.dom().insert(label@));
                }
                InternedScheduleLabel { value: v }
            },
        }
    }

    /// Looks an identity up without assigning anything: `Some` with its
    /// canonical label exactly when the identity was interned before.
    pub fn lookup(&self, label: &UntypedScheduleLabel) -> (r: Option<InternedScheduleLabel>)
        ensures
            match r {
                Some(l) => self@.contains_key(label@) && l@ == self@[label@],
                None => !self@.contains_key(label@),
            },
    {
        match self.table.get(&label.id()) {
            Some(v) => Some(InternedScheduleLabel { value: *v }),
            None => None,
        }
    }

    /// How many distinct identities have been interned.
    pub fn len(&self) -> (n: usize)
        ensures
            n == self@.dom().len(),
    {
        self.table.len()
    }
}

impl Default for InternedLabelRegistry {
    /// The default table is the empty one.
    fn default() -> (r: Self)
        ensures
            r.wf(),
            r@ == Map::<u64, u64>::empty(),
    {
        InternedLabelRegistry::new()
    }
}

} // verus!
