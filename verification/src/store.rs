//! The single-slot-per-kind business-data store.
//!
//! Each value is stored under the identity of its payload kind; inserting a
//! value replaces any earlier value of the same kind (last write wins), and
//! a lookup for a kind that was never inserted yields nothing.

use std::sync::Arc;
use vstd::prelude::*;
use vstd::rwlock::RwLock;
use vstd::rwlock::RwLockPredicate;

verus! {

/// The identity under which a business-data value is stored.
///
/// The store keeps at most one slot per kind.
#[derive(Clone, Copy, PartialEq, Eq, Structural, Debug)]
pub enum DataKind {
    Unsigned32,
    Unsigned64,
    Signed64,
    Flag,
    Text,
}

/// A request-scoped business-data payload.
#[derive(Debug)]
pub enum DataValue {
    Unsigned32(u32),
    Unsigned64(u64),
    Signed64(i64),
    Flag(bool),
    Text(String),
}

impl DataValue {
    /// The kind that identifies this value's slot in the store.
    pub open spec fn kind(self) -> DataKind {
        match self {
            DataValue::Unsigned32(_) => DataKind::Unsigned32,
            DataValue::Unsigned64(_) => DataKind::Unsigned64,
            DataValue::Signed64(_) => DataKind::Signed64,
            DataValue::Flag(_) => DataKind::Flag,
            DataValue::Text(_) => DataKind::Text,
        }
    }

    /// Returns the kind that identifies this value's slot in the store.
    pub fn data_kind(&self) -> (k: DataKind)
        ensures
            k == self.kind(),
    {
        match self {
            DataValue::Unsigned32(_) => DataKind::Unsigned32,
            DataValue::Unsigned64(_) => DataKind::Unsigned64,
            DataValue::Signed64(_) => DataKind::Signed64,
            DataValue::Flag(_) => DataKind::Flag,
            DataValue::Text(_) => DataKind::Text,
        }
    }
}

impl Clone for DataValue {
    /// Cloning yields the same value.
    fn clone(&self) -> (r: Self)
        ensures
            r == *self,
    {
        match self {
            DataValue::Unsigned32(x) => DataValue::Unsigned32(*x),
            DataValue::Unsigned64(x) => DataValue::Unsigned64(*x),
            DataValue::Signed64(x) => DataValue::Signed64(*x),
            DataValue::Flag(x) => DataValue::Flag(*x),
            DataValue::Text(s) => DataValue::Text(s.clone()),
        }
    }
}

/// The first value in `s` whose kind is `k`, if any.
spec fn lookup(s: Seq<DataValue>, k: DataKind) -> Option<DataValue>
    decreases s.len(),
{
    if s.len() == 0 {
        None
    } else if s[0].kind() == k {
        Some(s[0])
    } else {
        lookup(s.drop_first(), k)
    }
}

/// A mapping from payload kinds to values, with one slot per kind.
pub struct StoreMap {
    slots: Vec<DataValue>,
}

impl StoreMap {
    /// Each kind occupies at most one slot.
    pub closed spec fn wf(self) -> bool {
        forall|i: int, j: int|
            #![trigger self.slots@[i].kind(), self.slots@[j].kind()]
            0 <= i < j < self.slots@.len() ==> self.slots@[i].kind() != self.slots@[j].kind()
    }

    /// The store as a mapping from kinds to the values they hold.
    pub closed spec fn model(self) -> Map<DataKind, DataValue> {
        Map::new(
            |k: DataKind| lookup(self.slots@, k) is Some,
            |k: DataKind| lookup(self.slots@, k).unwrap(),
        )
    }

    /// The value held for kind `k`, if any.
    pub open spec fn entry(self, k: DataKind) -> Option<DataValue> {
        if self.model().contains_key(k) {
            Some(self.model()[k])
        } else {
            None
        }
    }

    /// Creates a store with no entries.
    pub fn new() -> (r: Self)
        ensures
            r.wf(),
            r.model() == Map::<DataKind, DataValue>::empty(),
    {
        let r = StoreMap { slots: Vec::new() };
        proof {
            assert(r.model() =~= Map::<DataKind, DataValue>::empty());
        }
        r
    }

    /// Stores `v` under its own kind, replacing any earlier value of that
    /// kind and leaving every other slot unchanged.
    pub fn insert(&mut self, v: DataValue)
        requires
            old(self).wf(),
        ensures
            final(self).wf(),
            final(self).model() == old(self).model().insert(v.kind(), v),
    {
        let kv = v.data_kind();
        let found = find_kind(&self.slots, kv);
        let ghost s_old = self.slots@;
        match found {
            Some(i) => {
                self.slots.set(i, v);
                proof {
                    let s_new = self.slots@;
                    assert forall|a: int, b: int|
                        #![trigger s_new[a].kind(), s_new[b].kind()]
                        0 <= a < b < s_new.len() implies s_new[a].kind() != s_new[b].kind() by {
                        assert(s_new[a].kind() == s_old[a].kind());
                        assert(s_new[b].kind() == s_old[b].kind());
                    }
                    lemma_lookup_at(s_new, v.kind(), i as int);
                    assert forall|k: DataKind| k != v.kind() implies #[trigger] lookup(s_new, k)
                        == lookup(s_old, k) by {
                        lemma_lookup_update_same_kind(s_old, i as int, v, k);
                    }
                    assert(final(self).model() =~= old(self).model().insert(v.kind(), v));
                }
            }
            None => {
                self.slots.push(v);
                proof {
                    let s_new = self.slots@;
                    assert forall|a: int, b: int|
                        #![trigger s_new[a].kind(), s_new[b].kind()]
                        0 <= a < b < s_new.len() implies s_new[a].kind() != s_new[b].kind() by {
                        if b < s_old.len() {
                            assert(s_new[a].kind() == s_old[a].kind());
                            assert(s_new[b].kind() == s_old[b].kind());
                        } else {
                            assert(s_new[a].kind() == s_old[a].kind());
                            assert(s_new[b] == v);
                        }
                    }
                    assert forall|k: DataKind| #[trigger] lookup(s_new, k) == (if k == v.kind() {
                        Some(v)
                    } else {
                        lookup(s_old, k)
                    }) by {
                        lemma_lookup_push(s_old, v, k);
                    }
                    assert(final(self).model() =~= old(self).model().insert(v.kind(), v));
                }
            }
        }
    }

    /// Returns the value stored for kind `k`, or nothing if no value of that
    /// kind was ever inserted.
    pub fn get(&self, k: DataKind) -> (r: Option<DataValue>)
        ensures
            r == self.entry(k),
    {
        match find_kind(&self.slots, k) {
            Some(i) => {
                proof {
                    lemma_lookup_at(self.slots@, k, i as int);
                }
                Some(self.slots[i].clone())
            }
            None => {
                proof {
                    lemma_lookup_none(self.slots@, k);
                }
                None
            }
        }
    }
}

/// The index of the first slot of kind `k`, if any.
fn find_kind(slots: &Vec<DataValue>, k: DataKind) -> (r: Option<usize>)
    ensures
        match r {
            Some(i) => i < slots@.len() && slots@[i as int].kind() == k && forall|j: int|
                0 <= j < i ==> (#[trigger] slots@[j].kind()) != k,
            None => forall|j: int| 0 <= j < slots@.len() ==> (#[trigger] slots@[j].kind()) != k,
        },
{
    let n = slots.len();
    let mut i: usize = 0;
    while i < n
        invariant
            n == slots@.len(),
            i <= n,
            forall|j: int| 0 <= j < i ==> (#[trigger] slots@[j].kind()) != k,
        decreases n - i,
    {
        if slots[i].data_kind() == k {
            return Some(i);
        }
        i = i + 1;
    }
    None
}

/// Skipping a prefix in which no slot has kind `k` leaves the lookup result
/// unchanged.
proof fn lemma_lookup_skip(s: Seq<DataValue>, k: DataKind, i: int)
    requires
        0 <= i <= s.len(),
        forall|j: int| 0 <= j < i ==> (#[trigger] s[j].kind()) != k,
    ensures
        lookup(s, k) == lookup(s.skip(i), k),
    decreases i,
{
    if i > 0 {
        assert(s[0].kind() != k);
        lemma_lookup_skip(s.drop_first(), k, i - 1);
        assert(s.drop_first().skip(i - 1) =~= s.skip(i));
    } else {
        assert(s.skip(0) =~= s);
    }
}

/// If the slots before `i` miss kind `k` and slot `i` has kind `k`, the
/// lookup for `k` finds slot `i`.
proof fn lemma_lookup_at(s: Seq<DataValue>, k: DataKind, i: int)
    requires
        0 <= i < s.len(),
        s[i].kind() == k,
        forall|j: int| 0 <= j < i ==> (#[trigger] s[j].kind()) != k,
    ensures
        lookup(s, k) == Some(s[i]),
{
    lemma_lookup_skip(s, k, i);
    assert(s.skip(i)[0] == s[i]);
}

/// If no slot has kind `k`, the lookup for `k` finds nothing.
proof fn lemma_lookup_none(s: Seq<DataValue>, k: DataKind)
    requires
        forall|j: int| 0 <= j < s.len() ==> (#[trigger] s[j].kind()) != k,
    ensures
        lookup(s, k) is None,
{
    lemma_lookup_skip(s, k, s.len() as int);
    assert(s.skip(s.len() as int) =~= Seq::<DataValue>::empty());
}

/// Replacing slot `i` by a value of the same kind leaves lookups for every
/// other kind unchanged.
proof fn lemma_lookup_update_same_kind(s: Seq<DataValue>, i: int, v: DataValue, k: DataKind)
    requires
        0 <= i < s.len(),
        s[i].kind() == v.kind(),
        k != v.kind(),
    ensures
        lookup(s.update(i, v), k) == lookup(s, k),
    decreases i,
{
    let u = s.update(i, v);
    if i == 0 {
        assert(u[0] == v);
        assert(u.drop_first() =~= s.drop_first());
    } else {
        assert(u[0] == s[0]);
        if s[0].kind() == k {
        } else {
            lemma_lookup_update_same_kind(s.drop_first(), i - 1, v, k);
            assert(u.drop_first() =~= s.drop_first().update(i - 1, v));
        }
    }
}

/// Appending a value of a kind that no slot holds makes lookups for that
/// kind find it and leaves every other lookup unchanged.
proof fn lemma_lookup_push(s: Seq<DataValue>, v: DataValue, k: DataKind)
    requires
        forall|j: int| 0 <= j < s.len() ==> (#[trigger] s[j].kind()) != v.kind(),
    ensures
        lookup(s.push(v), k) == (if k == v.kind() {
            Some(v)
        } else {
            lookup(s, k)
        }),
    decreases s.len(),
{
    let p = s.push(v);
    if s.len() == 0 {
        assert(p[0] == v);
        assert(p.drop_first() =~= Seq::<DataValue>::empty());
        assert(lookup(p.drop_first(), k) is None);
        assert(lookup(s, k) is None);
    } else {
        assert(p[0] == s[0]);
        if s[0].kind() == k {
        } else {
            lemma_lookup_push(s.drop_first(), v, k);
            assert(p.drop_first() =~= s.drop_first().push(v));
        }
    }
}

/// A value found under kind `k` has kind `k`.
proof fn lemma_lookup_kind(s: Seq<DataValue>, k: DataKind)
    ensures
        lookup(s, k) matches Some(v) ==> v.kind() == k,
    decreases s.len(),
{
    if s.len() > 0 && s[0].kind() != k {
        lemma_lookup_kind(s.drop_first(), k);
    }
}

/// The store only ever holds a value under that value's own kind.
pub proof fn lemma_entry_kind(m: StoreMap, k: DataKind)
    ensures
        m.entry(k) matches Some(v) ==> v.kind() == k,
{
    lemma_lookup_kind(m.slots@, k);
}

/// The lock invariant of a lineage's shared business-data store: the store
/// inside the lock is well formed.
pub struct StorePred;

impl RwLockPredicate<StoreMap> for StorePred {
    open spec fn inv(self, s: StoreMap) -> bool {
        s.wf()
    }
}

/// A shared handle to one lineage's business-data store.
///
/// Every context of a lineage holds a clone of the same handle, so an
/// insert through any of them is visible through all of them. The store
/// behind the handle is guarded by a reader-writer lock whose invariant
/// keeps it well formed.
pub struct SharedStore {
    inner: Arc<RwLock<StoreMap, StorePred>>,
}

/// Relies on std's `Arc::clone`: the clone is another handle to the same
/// allocation, hence carries the same value.
#[verifier::external_body]
fn clone_store_handle(a: &Arc<RwLock<StoreMap, StorePred>>) -> (r: Arc<RwLock<StoreMap, StorePred>>)
    ensures
        r == *a,
{
    Arc::clone(a)
}

impl SharedStore {
    /// Creates the store of a fresh lineage, with no entries.
    pub fn new() -> SharedStore {
        SharedStore { inner: Arc::new(RwLock::new(StoreMap::new(), Ghost(StorePred))) }
    }

    /// Stores `v` under its own kind, replacing any earlier value of that
    /// kind; the change is visible through every handle of the lineage.
    pub fn insert(&self, v: DataValue) {
        let (mut s, handle) = self.inner.acquire_write();
        s.insert(v);
        handle.release_write(s);
    }

    /// Returns the value currently stored under kind `k`, if any; a returned
    /// value always has kind `k`.
    pub fn get(&self, k: DataKind) -> (r: Option<DataValue>)
        ensures
            r matches Some(v) ==> v.kind() == k,
    {
        let read = self.inner.acquire_read();
        let r = read.borrow().get(k);
        proof {
            lemma_entry_kind(read@, k);
        }
        read.release_read();
        r
    }
}

impl Clone for SharedStore {
    /// The clone is another handle to the same store.
    fn clone(&self) -> (r: Self)
        ensures
            r == *self,
    {
        SharedStore { inner: clone_store_handle(&self.inner) }
    }
}

/// Values of distinct kinds occupy independent slots: after storing a value
/// of one kind and then a value of another, each kind still yields its own
/// value.
pub proof fn lemma_distinct_kinds_independent(
    m: Map<DataKind, DataValue>,
    v1: DataValue,
    v2: DataValue,
)
    requires
        v1.kind() != v2.kind(),
    ensures
        m.insert(v1.kind(), v1).insert(v2.kind(), v2)[v1.kind()] == v1,
        m.insert(v1.kind(), v1).insert(v2.kind(), v2)[v2.kind()] == v2,
{
}

/// Storing two values of the same kind in sequence leaves only the second:
/// the slot for that kind holds the value stored last.
pub proof fn lemma_last_write_wins(m: Map<DataKind, DataValue>, v1: DataValue, v2: DataValue)
    requires
        v1.kind() == v2.kind(),
    ensures
        m.insert(v1.kind(), v1).insert(v2.kind(), v2) == m.insert(v2.kind(), v2),
{
    assert(m.insert(v1.kind(), v1).insert(v2.kind(), v2) =~= m.insert(v2.kind(), v2));
}

} // verus!
