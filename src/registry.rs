use vstd::prelude::*;
use crate::identity::CallIdentity;

verus! {

/// A call identity as a map key: the caller's and the method's characters.
pub type Key = (Seq<char>, Seq<char>);

/// What a call must do to obtain the histogram of its identity.
pub enum Step {
    /// The histogram exists: time the call into it.
    Ready,
    /// No histogram yet: create and register one, then hand it over.
    Create,
    /// An earlier registration for this identity failed and the registry
    /// remembers it: pass the call through unmeasured.
    Skip,
}

/// One registered histogram and the identity it measures.
pub struct Entry<H> {
    id: CallIdentity,
    histogram: H,
}

/// The mapping from call identities to their histograms. A histogram is
/// added at most once per identity and never removed. When built to remember
/// failures, an identity whose registration failed is not tried again.
pub struct Registry<H> {
    entries: Vec<Entry<H>>,
    failed: Vec<CallIdentity>,
    remember_failures: bool,
    histograms: Ghost<Map<Key, H>>,
}

impl<H> Registry<H> {
    /// The histograms held, by identity.
    pub closed spec fn view(&self) -> Map<Key, H> {
        self.histograms@
    }

    /// The identities whose registration failed and are remembered.
    pub closed spec fn failed_keys(&self) -> Set<Key> {
        Set::new(|k: Key| exists|i: int| 0 <= i < self.failed.len() && self.failed[i].key() == k)
    }

    /// Whether this registry remembers failed registrations.
    pub closed spec fn remembers_failures(&self) -> bool {
        self.remember_failures
    }

    /// The entries agree with the map, one entry per identity.
    pub closed spec fn wf(&self) -> bool {
        &&& forall|i: int|
            0 <= i < self.entries.len() ==> #[trigger] self.histograms@.contains_key(
                self.entries[i].id.key(),
            ) && self.histograms@[self.entries[i].id.key()] == self.entries[i].histogram
        &&& forall|k: Key| #[trigger]
            self.histograms@.contains_key(k) ==> exists|i: int|
                0 <= i < self.entries.len() && self.entries[i].id.key() == k
        &&& forall|i: int, j: int|
            0 <= i < j < self.entries.len() ==> self.entries[i].id.key()
                != self.entries[j].id.key()
        &&& self.remember_failures || self.failed.len() == 0
    }

    /// What `next_step` answers for an identity.
    pub open spec fn step_of(&self, k: Key) -> Step {
        step_in(self@, self.remembers_failures(), self.failed_keys(), k)
    }

    /// An empty registry; `remember_failures` chooses whether an identity
    /// whose registration failed is tried again on its next call.
    pub fn new(remember_failures: bool) -> (r: Self)
        ensures
            r.wf(),
            r@ == Map::<Key, H>::empty(),
            r.failed_keys() == Set::<Key>::empty(),
            r.remembers_failures() == remember_failures,
    {
        let r = Registry {
            entries: Vec::new(),
            failed: Vec::new(),
            remember_failures,
            histograms: Ghost(Map::empty()),
        };
        assert(r.failed_keys() =~= Set::<Key>::empty());
        r
    }

    /// The number of histograms held.
    pub fn len(&self) -> (r: usize)
        requires
            self.wf(),
        ensures
            r == self@.len(),
    {
        proof {
            self.lemma_len();
        }
        self.entries.len()
    }

    proof fn lemma_len(&self)
        requires
            self.wf(),
        ensures
            self.entries.len() == self@.len(),
    {
        let keys = Seq::new(self.entries.len() as nat, |i: int| self.entries[i].id.key());
        assert(keys.no_duplicates());
        assert(keys.to_set() =~= self@.dom()) by {
            assert forall|k: Key| self@.dom().contains(k) implies keys.to_set().contains(k) by {
                let i = choose|i: int| 0 <= i < self.entries.len() && self.entries[i].id.key() == k;
                assert(keys[i] == k);
            }
        }
        keys.unique_seq_to_set();
    }

    fn position(&self, id: &CallIdentity) -> (r: Option<usize>)
        requires
            self.wf(),
        ensures
            match r {
                Some(i) => i < self.entries.len() && self.entries[i as int].id.key() == id.key(),
                None => !self@.contains_key(id.key()),
            },
    {
        let mut i: usize = 0;
        while i < self.entries.len()
            invariant
                self.wf(),
                i <= self.entries.len(),
                forall|j: int| 0 <= j < i ==> self.entries[j].id.key() != id.key(),
            decreases self.entries.len() - i,
        {
            if self.entries[i].id.same_key(id) {
                return Some(i);
            }
            i = i + 1;
        }
        None
    }

    fn failed_before(&self, id: &CallIdentity) -> (r: bool)
        ensures
            r == self.failed_keys().contains(id.key()),
    {
        let mut i: usize = 0;
        while i < self.failed.len()
            invariant
                i <= self.failed.len(),
                forall|j: int| 0 <= j < i ==> self.failed[j].key() != id.key(),
            decreases self.failed.len() - i,
        {
            if self.failed[i].same_key(id) {
                return true;
            }
            i = i + 1;
        }
        false
    }

    /// Whether the identity has a histogram.
    pub fn contains(&self, id: &CallIdentity) -> (r: bool)
        requires
            self.wf(),
        ensures
            r == self@.contains_key(id.key()),
    {
        self.position(id).is_some()
    }

    /// The histogram of an identity, if it has one.
    pub fn get(&self, id: &CallIdentity) -> (r: Option<&H>)
        requires
            self.wf(),
        ensures
            match r {
                Some(h) => self@.contains_key(id.key()) && *h == self@[id.key()],
                None => !self@.contains_key(id.key()),
            },
    {
        match self.position(id) {
            Some(i) => Some(&self.entries[i].histogram),
            None => None,
        }
    }

    /// What a call for this identity must do: use the histogram that exists,
    /// create one, or skip measuring after a remembered failure.
    pub fn next_step(&self, id: &CallIdentity) -> (r: Step)
        requires
            self.wf(),
        ensures
            r == self.step_of(id.key()),
    {
        if self.contains(id) {
            Step::Ready
        } else if self.remember_failures && self.failed_before(id) {
            Step::Skip
        } else {
            Step::Create
        }
    }

    /// Adds the histogram created for an identity. The first histogram of an
    /// identity stays: when it already has one, nothing changes and the
    /// result is false.
    pub fn add(&mut self, id: CallIdentity, histogram: H) -> (r: bool)
        requires
            old(self).wf(),
        ensures
            final(self).wf(),
            r == !old(self)@.contains_key(id.key()),
            final(self)@ == added(old(self)@, id.key(), histogram),
            final(self).failed_keys() == old(self).failed_keys(),
            final(self).remembers_failures() == old(self).remembers_failures(),
    {
        if self.contains(&id) {
            return false;
        }
        let ghost k = id.key();
        let ghost before = self.entries@;
        self.histograms = Ghost(self.histograms@.insert(k, histogram));
        self.entries.push(Entry { id, histogram });
        proof {
            assert forall|q: Key| #[trigger] self.histograms@.contains_key(q) implies exists|i: int|
                0 <= i < self.entries.len() && self.entries[i].id.key() == q by {
                if q == k {
                    assert(self.entries[before.len() as int].id.key() == q);
                } else {
                    let i = choose|i: int| 0 <= i < before.len() && before[i].id.key() == q;
                    assert(self.entries[i].id.key() == q);
                }
            }
            assert forall|i: int|
                0 <= i < self.entries.len() implies #[trigger] self.histograms@.contains_key(
                self.entries[i].id.key(),
            ) && self.histograms@[self.entries[i].id.key()] == self.entries[i].histogram by {
                if i < before.len() {
                    assert(self.entries[i] == before[i]);
                    assert(old(self).histograms@.contains_key(before[i].id.key()));
                } else {
                    assert(self.entries[i].id.key() == k);
                }
            }
        }
        true
    }

    /// Notes that registering a histogram for an identity failed. A registry
    /// that remembers failures records the identity; the histograms never
    /// change.
    pub fn note_failure(&mut self, id: CallIdentity)
        requires
            old(self).wf(),
        ensures
            final(self).wf(),
            final(self)@ == old(self)@,
            final(self).remembers_failures() == old(self).remembers_failures(),
            final(self).failed_keys() == failure_noted(
                old(self).remembers_failures(),
                old(self).failed_keys(),
                id.key(),
            ),
    {
        if self.remember_failures {
            let ghost before = self.failed@;
            let ghost k = id.key();
            self.failed.push(id);
            proof {
                assert forall|q: Key| #[trigger] self.failed_keys().contains(q) == old(
                    self,
                ).failed_keys().insert(k).contains(q) by {
                    if old(self).failed_keys().contains(q) {
                        let i = choose|i: int| 0 <= i < before.len() && before[i].key() == q;
                        assert(self.failed[i].key() == q);
                    }
                    if q == k {
                        assert(self.failed[before.len() as int].key() == q);
                    }
                    if self.failed_keys().contains(q) && q != k {
                        let i = choose|i: int| 0 <= i < self.failed.len() && self.failed[i].key() == q;
                        assert(i < before.len());
                        assert(before[i].key() == q);
                    }
                }
                assert(self.failed_keys() =~= old(self).failed_keys().insert(k));
                assert(self.entries@ == old(self).entries@);
                assert(forall|q: Key| #[trigger]
                    self.histograms@.contains_key(q) ==> exists|i: int|
                        0 <= i < old(self).entries.len() && old(self).entries[i].id.key() == q);
                assert(forall|i: int, j: int|
                    0 <= i < j < self.entries.len() ==> self.entries[i].id.key()
                        != self.entries[j].id.key());
                assert(forall|i: int|
                    0 <= i < self.entries.len() ==> #[trigger] self.histograms@.contains_key(
                        self.entries[i].id.key()));
            }
        }
    }
}

/// The histograms after adding `h` for `k`: the first histogram of an
/// identity is kept.
pub open spec fn added<H>(m: Map<Key, H>, k: Key, h: H) -> Map<Key, H> {
    if m.contains_key(k) {
        m
    } else {
        m.insert(k, h)
    }
}

/// What a call for `k` must do, given the histograms, whether failures are
/// remembered, and the remembered failures.
pub open spec fn step_in<H>(m: Map<Key, H>, remember: bool, failed: Set<Key>, k: Key) -> Step {
    if m.contains_key(k) {
        Step::Ready
    } else if remember && failed.contains(k) {
        Step::Skip
    } else {
        Step::Create
    }
}

/// The remembered failures after a failed registration for `k`.
pub open spec fn failure_noted(remember: bool, failed: Set<Key>, k: Key) -> Set<Key> {
    if remember {
        failed.insert(k)
    } else {
        failed
    }
}

/// The remembered failures after `n` failed registrations for `k`.
pub open spec fn failures_noted(remember: bool, failed: Set<Key>, k: Key, n: nat) -> Set<Key>
    decreases n,
{
    if n == 0 {
        failed
    } else {
        failure_noted(remember, failures_noted(remember, failed, k, (n - 1) as nat), k)
    }
}

/// Failing again changes nothing: after any number of failed registrations
/// for an identity that has no histogram, the registry is as after the
/// first, and the identity's next call is either registered anew or, when
/// failures are remembered, passed through; never refused.
pub proof fn lemma_repeated_failures<H>(
    remember: bool,
    failed: Set<Key>,
    m: Map<Key, H>,
    k: Key,
    n: nat,
)
    requires
        n >= 1,
        !m.contains_key(k),
    ensures
        failures_noted(remember, failed, k, n) == failure_noted(remember, failed, k),
        step_in(m, remember, failures_noted(remember, failed, k, n), k) == if remember {
            Step::Skip
        } else {
            Step::Create
        },
    decreases n,
{
    if n > 1 {
        lemma_repeated_failures(remember, failed, m, k, (n - 1) as nat);
        if remember {
            assert(failed.insert(k).insert(k) =~= failed.insert(k));
        }
    } else {
        assert(failures_noted(remember, failed, k, 0) == failed);
    }
}

/// The histograms after each of `hs`, in turn, is offered for `k`.
pub open spec fn added_all<H>(m: Map<Key, H>, k: Key, hs: Seq<H>) -> Map<Key, H>
    decreases hs.len(),
{
    if hs.len() == 0 {
        m
    } else {
        added(added_all(m, k, hs.drop_last()), k, hs.last())
    }
}

/// However many histograms are offered for an identity that has none, the
/// identity ends with exactly one, the first, and no other identity changes.
pub proof fn lemma_single_creation<H>(m: Map<Key, H>, k: Key, hs: Seq<H>)
    requires
        !m.contains_key(k),
        hs.len() > 0,
    ensures
        added_all(m, k, hs) == m.insert(k, hs[0]),
    decreases hs.len(),
{
    if hs.len() > 1 {
        lemma_single_creation(m, k, hs.drop_last());
        assert(hs.drop_last()[0] == hs[0]);
    } else {
        assert(hs.drop_last().len() == 0);
        assert(added_all(m, k, hs.drop_last()) == m);
    }
}

/// Adding a histogram for one identity leaves every other identity as it
/// was: present with the same histogram, or absent.
pub proof fn lemma_key_isolation<H>(m: Map<Key, H>, k: Key, h: H, other: Key)
    requires
        other != k,
    ensures
        added(m, k, h).contains_key(other) == m.contains_key(other),
        m.contains_key(other) ==> added(m, k, h)[other] == m[other],
{
}

} // verus!
