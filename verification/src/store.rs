//! A keyed collection of records in insertion order, shared by the three
//! kinds of record.

use vstd::prelude::*;
use crate::error::Error;

verus! {

/// The mathematical value of a record: it names the identifier it is kept under.
pub trait Keyed {
    /// What identifies a record.
    type Key;

    spec fn key(&self) -> Self::Key;
}

/// A record that a store can hold.
pub trait Record: View + Sized where Self::V: Keyed<Key = u128> {
    /// The identifier of the record.
    fn key_value(&self) -> (k: u128)
        ensures
            k == self@.key(),
    ;

    /// A copy with the same value.
    fn duplicate(&self) -> (copy: Self)
        ensures
            copy@ == self@,
    ;
}

/// `i` is the first place in `s` that holds a record with identifier `k`.
pub open spec fn is_first<R: Keyed>(s: Seq<R>, k: R::Key, i: int) -> bool {
    &&& 0 <= i < s.len()
    &&& s[i].key() == k
    &&& forall|j: int| 0 <= j < i ==> (#[trigger] s[j]).key() != k
}

/// Some record of `s` has identifier `k`.
pub open spec fn has_key<R: Keyed>(s: Seq<R>, k: R::Key) -> bool {
    exists|i: int| 0 <= i < s.len() && (#[trigger] s[i]).key() == k
}

/// The first place of `k` in `s`, where there is one.
pub open spec fn position<R: Keyed>(s: Seq<R>, k: R::Key) -> int {
    choose|i: int| is_first(s, k, i)
}

/// The record stored under `k`, if any.
pub open spec fn lookup<R: Keyed>(s: Seq<R>, k: R::Key) -> Option<R> {
    if has_key(s, k) {
        Some(s[position(s, k)])
    } else {
        None
    }
}

/// `s` after `r` was stored: in the place of the record with the same
/// identifier, or at the end where there was none.
pub open spec fn inserted<R: Keyed>(s: Seq<R>, r: R) -> Seq<R> {
    if has_key(s, r.key()) {
        s.update(position(s, r.key()), r)
    } else {
        s.push(r)
    }
}

/// `s` without the record stored under `k`.
pub open spec fn removed<R: Keyed>(s: Seq<R>, k: R::Key) -> Seq<R> {
    if has_key(s, k) {
        s.remove(position(s, k))
    } else {
        s
    }
}

/// No identifier occurs twice in `s`.
pub open spec fn distinct_keys<R: Keyed>(s: Seq<R>) -> bool {
    forall|i: int, j: int| 0 <= i < j < s.len() ==> (#[trigger] s[i]).key() != (#[trigger] s[j]).key()
}

/// The records of `s` from place `skip` on, at most `take` of them.
pub open spec fn window<R>(s: Seq<R>, skip: nat, take: nat) -> Seq<R> {
    if skip >= s.len() {
        Seq::empty()
    } else if skip + take >= s.len() {
        s.subrange(skip as int, s.len() as int)
    } else {
        s.subrange(skip as int, (skip + take) as int)
    }
}

/// The values of a sequence of records.
pub open spec fn values<V: View>(s: Seq<V>) -> Seq<V::V> {
    s.map_values(|v: V| v@)
}

/// The records of `s`, each with the identifier it is filed under.
pub open spec fn saved<R: Keyed<Key = u128>>(s: Seq<R>) -> Seq<(u128, R)> {
    s.map_values(|r: R| (r.key(), r))
}

/// Each record of `entries` is filed under its own identifier.
pub open spec fn well_filed<R: Keyed<Key = u128>>(entries: Seq<(u128, R)>) -> bool {
    forall|i: int| 0 <= i < entries.len() ==> (#[trigger] entries[i]).0 == entries[i].1.key()
}

/// The store that a snapshot stands for, if it stands for one: no snapshot
/// stands for the empty store, and a snapshot whose records are filed under
/// their own identifiers for the store in which each was stored in turn.
pub open spec fn loaded<R: Keyed<Key = u128>>(snapshot: Option<Seq<(u128, R)>>) -> Option<Seq<R>> {
    match snapshot {
        None => Some(Seq::empty()),
        Some(entries) => if well_filed(entries) {
            Some(inserted_all(Seq::empty(), entries.map_values(|e: (u128, R)| e.1)))
        } else {
            None
        },
    }
}

/// The values of the entries of a snapshot.
pub open spec fn entry_values<V: View>(entries: Seq<(u128, V)>) -> Seq<(u128, V::V)> {
    entries.map_values(|e: (u128, V)| (e.0, e.1@))
}

/// Records in the order in which they were first stored.
#[derive(Debug)]
pub struct EntityStore<V> {
    pub records: Vec<V>,
}

impl<V: View> View for EntityStore<V> {
    type V = Seq<V::V>;

    open spec fn view(&self) -> Seq<V::V> {
        values(self.records@)
    }
}

impl<V: Record> EntityStore<V> where V::V: Keyed<Key = u128> {
    /// No identifier occurs twice.
    pub open spec fn wf(&self) -> bool {
        distinct_keys(self@)
    }

    /// A store that holds nothing.
    pub fn new() -> (store: Self)
        ensures
            store@ == Seq::<V::V>::empty(),
            store.wf(),
    {
        let store = EntityStore { records: Vec::new() };
        assert(store@ =~= Seq::<V::V>::empty());
        store
    }

    /// The number of records.
    pub fn len(&self) -> (n: usize)
        ensures
            n == self@.len(),
    {
        self.records.len()
    }

    /// The first place that holds a record with identifier `k`.
    pub fn find_index(&self, k: u128) -> (found: Option<usize>)
        ensures
            match found {
                Some(i) => is_first(self@, k, i as int) && has_key(self@, k) && position(self@, k) == i,
                None => !has_key(self@, k),
            },
    {
        let mut i: usize = 0;
        while i < self.records.len()
            invariant
                i <= self.records.len(),
                forall|j: int| 0 <= j < i ==> (#[trigger] self@[j]).key() != k,
            decreases self.records.len() - i,
        {
            if self.records[i].key_value() == k {
                assert(self@[i as int] == self.records@[i as int]@);
                assert(is_first(self@, k, i as int));
                return Some(i);
            }
            assert(self@[i as int] == self.records@[i as int]@);
            i += 1;
        }
        None
    }

    /// The record stored under `k`, if any.
    pub fn get(&self, k: u128) -> (found: Option<V>)
        ensures
            match found {
                Some(v) => lookup(self@, k) == Some(v@),
                None => lookup(self@, k).is_none(),
            },
    {
        match self.find_index(k) {
            Some(i) => Some(self.records[i].duplicate()),
            None => None,
        }
    }

    /// Stores `v` under its identifier: in the place of the record that had
    /// it, or at the end.
    pub fn insert(&mut self, v: V)
        ensures
            final(self)@ == inserted(old(self)@, v@),
            old(self).wf() ==> final(self).wf(),
    {
        match self.find_index(v.key_value()) {
            Some(i) => {
                self.records.set(i, v);
                assert(self@ =~= old(self)@.update(i as int, v@));
            },
            None => {
                self.records.push(v);
                assert(self@ =~= old(self)@.push(v@));
            },
        }
        proof {
            if old(self).wf() {
                lemma_inserted_distinct(old(self)@, v@);
            }
        }
    }

    /// Removes the record stored under `k`, if there is one.
    pub fn remove(&mut self, k: u128)
        ensures
            final(self)@ == removed(old(self)@, k),
            old(self).wf() ==> final(self).wf(),
    {
        match self.find_index(k) {
            Some(i) => {
                let _ = self.records.remove(i);
                assert(self@ =~= old(self)@.remove(i as int));
            },
            None => {},
        }
        proof {
            if old(self).wf() {
                lemma_removed_distinct(old(self)@, k);
            }
        }
    }

    /// Copies of the records from place `skip` on, at most `take` of them.
    pub fn page(&self, skip: usize, take: usize) -> (out: Vec<V>)
        ensures
            values(out@) == window(self@, skip as nat, take as nat),
    {
        let n = self.records.len();
        let mut out: Vec<V> = Vec::new();
        if skip >= n {
            assert(values(out@) =~= window(self@, skip as nat, take as nat));
            return out;
        }
        let end: usize = if take >= n - skip { n } else { skip + take };
        let mut i: usize = skip;
        while i < end
            invariant
                skip <= i <= end <= n,
                n == self.records.len(),
                out@.len() == i - skip,
                values(out@) == self@.subrange(skip as int, i as int),
            decreases end - i,
        {
            let copy = self.records[i].duplicate();
            assert(self@[i as int] == self.records@[i as int]@);
            let ghost before = out@;
            out.push(copy);
            assert forall|j: int| 0 <= j < out@.len() implies values(out@)[j] == self@.subrange(
                skip as int,
                i + 1,
            )[j] by {
                if j < before.len() {
                    assert(values(before)[j] == before[j]@);
                    assert(values(before)[j] == self@.subrange(skip as int, i as int)[j]);
                }
            }
            assert(values(out@) =~= self@.subrange(skip as int, i + 1));
            i += 1;
        }
        assert(values(out@) =~= window(self@, skip as nat, take as nat));
        out
    }

    /// Copies of all the records, in the order of the store.
    pub fn all(&self) -> (out: Vec<V>)
        ensures
            values(out@) == self@,
    {
        let n = self.records.len();
        let out = self.page(0, n);
        assert(values(out@) =~= self@);
        out
    }

    /// The snapshot of the store: a copy of each record with the identifier
    /// it is filed under, in the order of the store.
    pub fn snapshot(&self) -> (entries: Vec<(u128, V)>)
        ensures
            entry_values(entries@) == saved(self@),
    {
        let mut entries: Vec<(u128, V)> = Vec::new();
        let mut i: usize = 0;
        while i < self.records.len()
            invariant
                i <= self.records.len(),
                entries@.len() == i,
                forall|j: int|
                    0 <= j < i ==> (#[trigger] entries@[j]).0 == self@[j].key() && entries@[j].1@
                        == self@[j],
            decreases self.records.len() - i,
        {
            let copy = self.records[i].duplicate();
            assert(self@[i as int] == self.records@[i as int]@);
            entries.push((copy.key_value(), copy));
            i += 1;
        }
        assert(entry_values(entries@) =~= saved(self@));
        entries
    }

    /// The store that a snapshot stands for. Without a snapshot the store is
    /// empty. A snapshot with a record that is filed under another
    /// identifier than its own is refused.
    pub fn from_snapshot(snapshot: Option<&Vec<(u128, V)>>) -> (out: Result<Self, Error>)
        ensures
            match loaded(
                match snapshot {
                    Some(entries) => Some(entry_values(entries@)),
                    None => None,
                },
            ) {
                Some(s) => out is Ok && out->Ok_0@ == s && out->Ok_0.wf(),
                None => out matches Err(Error::Persistence(_)),
            },
    {
        let mut store = Self::new();
        let entries = match snapshot {
            Some(entries) => entries,
            None => {
                return Ok(store);
            },
        };
        let ghost filed = entry_values(entries@);
        let ghost given = filed.map_values(|e: (u128, V::V)| e.1);
        let mut i: usize = 0;
        assert(given.skip(0) =~= given);
        while i < entries.len()
            invariant
                i <= entries.len(),
                snapshot == Some(entries),
                filed == entry_values(entries@),
                given == filed.map_values(|e: (u128, V::V)| e.1),
                store.wf(),
                forall|j: int| 0 <= j < i ==> (#[trigger] filed[j]).0 == filed[j].1.key(),
                inserted_all(Seq::<V::V>::empty(), given) == inserted_all(
                    store@,
                    given.skip(i as int),
                ),
            decreases entries.len() - i,
        {
            let v = entries[i].1.duplicate();
            assert(filed[i as int] == (entries@[i as int].0, entries@[i as int].1@));
            if entries[i].0 != v.key_value() {
                assert(!well_filed(filed));
                return Err(
                    Error::Persistence(
                        "a record is filed under another identifier than its own".to_owned(),
                    ),
                );
            }
            assert(given.skip(i as int).first() == v@);
            assert(given.skip(i as int).drop_first() =~= given.skip(i + 1));
            store.insert(v);
            i += 1;
        }
        assert(well_filed(filed));
        Ok(store)
    }
}

/// `s` after each record of `rs` was stored in turn.
pub open spec fn inserted_all<R: Keyed>(s: Seq<R>, rs: Seq<R>) -> Seq<R>
    decreases rs.len(),
{
    if rs.len() == 0 {
        s
    } else {
        inserted_all(inserted(s, rs.first()), rs.drop_first())
    }
}

/// Where `k` occurs in `s`, its first place is a place of `s` that holds it.
pub proof fn lemma_position<R: Keyed>(s: Seq<R>, k: R::Key)
    requires
        has_key(s, k),
    ensures
        is_first(s, k, position(s, k)),
{
    let w = choose|i: int| 0 <= i < s.len() && (#[trigger] s[i]).key() == k;
    lemma_first_up_to(s, k, w);
}

proof fn lemma_first_up_to<R: Keyed>(s: Seq<R>, k: R::Key, w: int)
    requires
        0 <= w < s.len(),
        s[w].key() == k,
    ensures
        exists|i: int| is_first(s, k, i),
    decreases w,
{
    if exists|j: int| 0 <= j < w && (#[trigger] s[j]).key() == k {
        let j = choose|j: int| 0 <= j < w && (#[trigger] s[j]).key() == k;
        lemma_first_up_to(s, k, j);
    } else {
        assert(is_first(s, k, w));
    }
}

/// Storing a record keeps the identifiers distinct.
pub proof fn lemma_inserted_distinct<R: Keyed>(s: Seq<R>, r: R)
    requires
        distinct_keys(s),
    ensures
        distinct_keys(inserted(s, r)),
{
    if has_key(s, r.key()) {
        lemma_position(s, r.key());
    }
}

/// Removing a record keeps the identifiers distinct.
pub proof fn lemma_removed_distinct<R: Keyed>(s: Seq<R>, k: R::Key)
    requires
        distinct_keys(s),
    ensures
        distinct_keys(removed(s, k)),
{
    if has_key(s, k) {
        lemma_position(s, k);
    }
}

/// Two first places of one identifier are the same place.
proof fn lemma_first_unique<R: Keyed>(s: Seq<R>, k: R::Key, a: int, b: int)
    requires
        is_first(s, k, a),
        is_first(s, k, b),
    ensures
        a == b,
{
}

/// A record that was just stored is the one found under its identifier.
pub proof fn law_lookup_after_insert<R: Keyed>(s: Seq<R>, r: R)
    ensures
        lookup(inserted(s, r), r.key()) == Some(r),
{
    let k = r.key();
    let t = inserted(s, r);
    if has_key(s, k) {
        lemma_position(s, k);
        let p = position(s, k);
        assert(t[p] == r);
        assert forall|j: int| 0 <= j < p implies (#[trigger] t[j]).key() != k by {
            assert(t[j] == s[j]);
        }
        assert(is_first(t, k, p));
        lemma_position(t, k);
        lemma_first_unique(t, k, p, position(t, k));
    } else {
        let p = s.len() as int;
        assert(t[p] == r);
        assert forall|j: int| 0 <= j < p implies (#[trigger] t[j]).key() != k by {
            assert(t[j] == s[j]);
        }
        assert(is_first(t, k, p));
        lemma_position(t, k);
        lemma_first_unique(t, k, p, position(t, k));
    }
}

/// Storing a record changes nothing under any other identifier.
pub proof fn law_insert_keeps_others<R: Keyed>(s: Seq<R>, r: R, k: R::Key)
    requires
        k != r.key(),
    ensures
        has_key(inserted(s, r), k) == has_key(s, k),
        lookup(inserted(s, r), k) == lookup(s, k),
{
    let t = inserted(s, r);
    if has_key(s, r.key()) {
        lemma_position(s, r.key());
    }
    assert(t.len() >= s.len());
    assert forall|j: int| 0 <= j < s.len() && (#[trigger] s[j]).key() == k implies t[j] == s[j] by {}
    assert forall|j: int| 0 <= j < t.len() && (#[trigger] t[j]).key() == k implies j < s.len()
        && t[j] == s[j] by {}
    if has_key(s, k) {
        lemma_position(s, k);
        let q = position(s, k);
        assert(t[q] == s[q]);
        assert forall|j: int| 0 <= j < q implies (#[trigger] t[j]).key() != k by {
            if t[j].key() == k {
                assert(t[j] == s[j]);
            }
        }
        assert(is_first(t, k, q));
        lemma_position(t, k);
        lemma_first_unique(t, k, q, position(t, k));
    } else {
        if has_key(t, k) {
            let j = choose|j: int| 0 <= j < t.len() && (#[trigger] t[j]).key() == k;
            assert(s[j].key() == k);
        }
    }
}

/// After a record was removed nothing is found under its identifier, where
/// no identifier occurred twice.
pub proof fn law_lookup_after_remove<R: Keyed>(s: Seq<R>, k: R::Key)
    requires
        distinct_keys(s),
    ensures
        !has_key(removed(s, k), k),
        lookup(removed(s, k), k).is_none(),
{
    let t = removed(s, k);
    if has_key(s, k) {
        lemma_position(s, k);
        let p = position(s, k);
        if has_key(t, k) {
            let j = choose|j: int| 0 <= j < t.len() && (#[trigger] t[j]).key() == k;
            if j < p {
                assert(t[j] == s[j]);
            } else {
                assert(t[j] == s[j + 1]);
            }
        }
    }
}

/// Removing twice is removing once, where no identifier occurred twice; and
/// removing what is not there changes nothing.
pub proof fn law_remove_idempotent<R: Keyed>(s: Seq<R>, k: R::Key)
    ensures
        !has_key(s, k) ==> removed(s, k) == s,
        distinct_keys(s) ==> removed(removed(s, k), k) == removed(s, k),
{
    if distinct_keys(s) {
        law_lookup_after_remove(s, k);
    }
}

/// Removing a record changes nothing under any other identifier.
pub proof fn law_remove_keeps_others<R: Keyed>(s: Seq<R>, k: R::Key, other: R::Key)
    requires
        k != other,
    ensures
        has_key(removed(s, k), other) == has_key(s, other),
        lookup(removed(s, k), other) == lookup(s, other),
{
    let t = removed(s, k);
    if has_key(s, k) {
        lemma_position(s, k);
        let p = position(s, k);
        assert forall|j: int| 0 <= j < t.len() implies #[trigger] t[j] == (if j < p {
            s[j]
        } else {
            s[j + 1]
        }) by {}
        if has_key(s, other) {
            lemma_position(s, other);
            let q = position(s, other);
            let q2 = if q < p { q } else { q - 1 };
            assert(t[q2] == s[q]);
            assert forall|j: int| 0 <= j < q2 implies (#[trigger] t[j]).key() != other by {
                if j < p {
                    assert(t[j] == s[j]);
                } else {
                    assert(t[j] == s[j + 1]);
                }
            }
            assert(is_first(t, other, q2));
            lemma_position(t, other);
            lemma_first_unique(t, other, q2, position(t, other));
        } else {
            if has_key(t, other) {
                let j = choose|j: int| 0 <= j < t.len() && (#[trigger] t[j]).key() == other;
                if j < p {
                    assert(s[j].key() == other);
                } else {
                    assert(s[j + 1].key() == other);
                }
            }
        }
    }
}

/// Storing records that share no identifier, among themselves or with those
/// already stored, puts them behind these in their order.
pub proof fn lemma_inserted_all_appends<R: Keyed>(s: Seq<R>, rs: Seq<R>)
    requires
        distinct_keys(s + rs),
    ensures
        inserted_all(s, rs) == s + rs,
    decreases rs.len(),
{
    if rs.len() == 0 {
        assert(s + rs =~= s);
    } else {
        let r = rs.first();
        let all = s + rs;
        assert(all[s.len() as int] == r);
        if has_key(s, r.key()) {
            let i = choose|i: int| 0 <= i < s.len() && (#[trigger] s[i]).key() == r.key();
            assert(all[i] == s[i]);
        }
        assert(s.push(r) + rs.drop_first() =~= all);
        lemma_inserted_all_appends(s.push(r), rs.drop_first());
    }
}

/// Storing the records of a sequence with distinct identifiers in turn, from
/// nothing, gives that sequence.
pub proof fn law_rebuilt_from_listing<R: Keyed>(s: Seq<R>)
    requires
        distinct_keys(s),
    ensures
        inserted_all(Seq::<R>::empty(), s) == s,
{
    assert(Seq::<R>::empty() + s =~= s);
    lemma_inserted_all_appends(Seq::<R>::empty(), s);
}

/// A store with distinct identifiers is the store that its own snapshot
/// stands for.
pub proof fn law_loaded_from_saved<R: Keyed<Key = u128>>(s: Seq<R>)
    requires
        distinct_keys(s),
    ensures
        loaded(Some(saved(s))) == Some(s),
{
    assert(saved(s).map_values(|e: (u128, R)| e.1) =~= s);
    law_rebuilt_from_listing(s);
}

} // verus!
