//! The runtime's insertion-ordered array cell.
//!
//! A [`ZArray`] maps keys — non-negative integers or byte strings — to value
//! cells.  Keys are unique; iteration yields entries in the order of their
//! first insertion; overwriting a key keeps its original position.  The
//! next-auto-index counter is monotonic: it never hands out an index that an
//! explicit insertion has already used.

use vstd::prelude::*;

use crate::values::{Val, ValV};

verus! {

/// Mathematical model of an array key.
pub enum KeyV {
    /// An integer index key.
    Index(u64),
    /// A string key, seen as its characters.
    Str(Seq<char>),
}

/// A lookup key for an array cell.
#[derive(Debug)]
pub enum Key {
    /// An integer index key.
    Index(u64),
    /// A string key.
    Str(String),
}

impl View for Key {
    type V = KeyV;

    open spec fn view(&self) -> KeyV {
        match self {
            Key::Index(i) => KeyV::Index(*i),
            Key::Str(s) => KeyV::Str(s@),
        }
    }
}

/// A key for inserting into an array cell: a lookup key, or the request to
/// use the next free auto-index.
#[derive(Debug)]
pub enum InsertKey {
    /// Insert at the next free auto-index, as `$arr[] = $v` does.
    NextIndex,
    /// Insert at an explicit integer index.
    Index(u64),
    /// Insert at a string key.
    Str(String),
}

/// The key an array iterator hands out.
#[derive(Debug)]
pub enum IterKey {
    /// An integer index key.
    Index(u64),
    /// A string key.
    Str(String),
}

impl View for IterKey {
    type V = KeyV;

    open spec fn view(&self) -> KeyV {
        match self {
            IterKey::Index(i) => KeyV::Index(*i),
            IterKey::Str(s) => KeyV::Str(s@),
        }
    }
}

/// The model of a run of stored entries: each pair seen through its view,
/// in the stored order.
pub closed spec fn entries_view(s: Seq<(Key, Val)>) -> Seq<(KeyV, ValV)>
    decreases s,
{
    if s.len() == 0 {
        Seq::empty()
    } else {
        entries_view(s.drop_last()).push((s.last().0@, s.last().1@))
    }
}

/// `entries_view` is the pointwise view of the stored entries.
pub proof fn lemma_entries_view(s: Seq<(Key, Val)>)
    ensures
        entries_view(s).len() == s.len(),
        forall|i: int| 0 <= i < s.len() ==> entries_view(s)[i] == (s[i].0@, s[i].1@),
    decreases s,
{
    if s.len() > 0 {
        lemma_entries_view(s.drop_last());
    }
}

/// The pointwise reading of the view, available wherever a stored run is
/// named.
pub broadcast proof fn lemma_entries_view_pointwise(s: Seq<(Key, Val)>)
    ensures
        (#[trigger] entries_view(s)).len() == s.len(),
        forall|i: int| 0 <= i < s.len() ==> entries_view(s)[i] == (s[i].0@, s[i].1@),
{
    lemma_entries_view(s);
}

/// Updating one stored entry updates exactly that position of the view.
pub broadcast proof fn lemma_entries_view_update(s: Seq<(Key, Val)>, p: int, e: (Key, Val))
    requires
        0 <= p < s.len(),
    ensures
        #[trigger] entries_view(s.update(p, e)) == entries_view(s).update(p, (e.0@, e.1@)),
{
    lemma_entries_view(s);
    lemma_entries_view(s.update(p, e));
    assert(entries_view(s.update(p, e)) =~= entries_view(s).update(p, (e.0@, e.1@)));
}

/// Appending an entry and then overwriting the appended slot is appending
/// the overwriting entry.
pub broadcast proof fn lemma_push_update_last(
    s: Seq<(KeyV, ValV)>,
    x: (KeyV, ValV),
    y: (KeyV, ValV),
)
    ensures
        #[trigger] s.push(x).update(s.len() as int, y) == s.push(y),
{
    assert(s.push(x).update(s.len() as int, y) =~= s.push(y));
}

/// No two entries of the sequence carry the same key.
pub open spec fn distinct_keys(s: Seq<(KeyV, ValV)>) -> bool {
    forall|i: int, j: int| 0 <= i < j < s.len() ==> s[i].0 != s[j].0
}

/// Whether some entry of the sequence carries the key.
pub open spec fn has_key(s: Seq<(KeyV, ValV)>, k: KeyV) -> bool {
    exists|i: int| 0 <= i < s.len() && s[i].0 == k
}

/// The position of the entry carrying the key (meaningful when `has_key`
/// holds and the keys are distinct).
pub open spec fn key_pos(s: Seq<(KeyV, ValV)>, k: KeyV) -> int {
    choose|i: int| 0 <= i < s.len() && s[i].0 == k
}

/// The value stored under the key, if any.
pub open spec fn spec_get(s: Seq<(KeyV, ValV)>, k: KeyV) -> Option<ValV> {
    if has_key(s, k) {
        Some(s[key_pos(s, k)].1)
    } else {
        None
    }
}

/// Insertion: overwrite in place when the key is present — keeping the
/// entry's original position — and append otherwise.
pub open spec fn spec_insert(s: Seq<(KeyV, ValV)>, k: KeyV, v: ValV) -> Seq<(KeyV, ValV)> {
    if has_key(s, k) {
        s.update(key_pos(s, k), (k, v))
    } else {
        s.push((k, v))
    }
}

/// Removal: drop the entry carrying the key, if any, closing the gap.
pub open spec fn spec_remove(s: Seq<(KeyV, ValV)>, k: KeyV) -> Seq<(KeyV, ValV)> {
    if has_key(s, k) {
        s.remove(key_pos(s, k))
    } else {
        s
    }
}

/// Whether the next-auto-index counter has already passed the key: an
/// integer key must lie below the counter, except where the counter has
/// saturated at `u64::MAX`.
pub open spec fn index_key_passed(k: KeyV, next_index: u64) -> bool {
    match k {
        KeyV::Index(n) => n < next_index || (n == u64::MAX && next_index == u64::MAX),
        KeyV::Str(_) => true,
    }
}

/// An owned, insertion-ordered array cell.
#[derive(Debug)]
pub struct ZArray {
    pub(crate) entries: Vec<(Key, Val)>,
    pub(crate) next_index: u64,
}

impl View for ZArray {
    type V = Seq<(KeyV, ValV)>;

    closed spec fn view(&self) -> Seq<(KeyV, ValV)>
        decreases self,
    {
        entries_view(self.entries@)
    }
}

impl ZArray {
    /// Internal consistency: keys are unique, and every integer key has
    /// already been passed by the next-auto-index counter.
    pub closed spec fn wf(&self) -> bool {
        &&& distinct_keys(self@)
        &&& forall|i: int|
            0 <= i < self@.len() ==> index_key_passed(#[trigger] self@[i].0, self.next_index)
    }

    /// The next auto-index the array would hand out.
    pub closed spec fn spec_next_index(&self) -> u64 {
        self.next_index
    }

    /// A well-formed array has no two entries with one key: the bridge a
    /// caller needs to apply this module's laws to an array's view.
    pub proof fn lemma_wf_distinct(&self)
        requires
            self.wf(),
        ensures
            distinct_keys(self@),
    {
    }

    /// The other half of the closed invariant, bridged for callers: the
    /// next-auto-index counter has passed every integer key, so — below
    /// the saturation point — the slot the counter names is free, and
    /// successive auto-indices strictly increase.
    pub proof fn lemma_wf_next_index(&self)
        requires
            self.wf(),
        ensures
            forall|i: int|
                0 <= i < self@.len() ==> index_key_passed(
                    #[trigger] self@[i].0,
                    self.spec_next_index(),
                ),
            self.spec_next_index() < u64::MAX ==> !has_key(
                self@,
                KeyV::Index(self.spec_next_index()),
            ),
    {
        if self.spec_next_index() < u64::MAX && has_key(
            self@,
            KeyV::Index(self.spec_next_index()),
        ) {
            let w = choose|w: int|
                0 <= w < self@.len() && self@[w].0 == KeyV::Index(self.spec_next_index());
            assert(index_key_passed(self@[w].0, self.next_index));
        }
    }

    /// Creates an empty array cell.
    pub fn new() -> (r: ZArray)
        ensures
            r@ == Seq::<(KeyV, ValV)>::empty(),
            r.wf(),
            r.spec_next_index() == 0,
    {
        ZArray { entries: Vec::new(), next_index: 0 }
    }

    /// Creates an empty array cell, asking the table for room for `n`
    /// entries up front.  The table's actual allocation (a power of two) is
    /// internal to the engine and not observable here.
    pub fn with_capacity(n: usize) -> (r: ZArray)
        ensures
            r@ == Seq::<(KeyV, ValV)>::empty(),
            r.wf(),
            r.spec_next_index() == 0,
    {
        let _ = n;
        ZArray { entries: Vec::new(), next_index: 0 }
    }

    /// Number of entries.
    pub fn len(&self) -> (r: usize)
        ensures
            r == self@.len(),
    {
        proof {
            lemma_entries_view(self.entries@);
        }
        self.entries.len()
    }

    /// True when the array holds no entry.
    pub fn is_empty(&self) -> (r: bool)
        ensures
            r == (self@.len() == 0),
    {
        self.len() == 0
    }

    /// Finds the storage position of the key, scanning in storage order.
    fn find(&self, key: &Key) -> (r: Option<usize>)
        ensures
            match r {
                Some(i) => i < self@.len() && self@[i as int].0 == key@,
                None => !has_key(self@, key@),
            },
    {
        proof {
            lemma_entries_view(self.entries@);
        }
        let mut i: usize = 0;
        while i < self.entries.len()
            invariant
                i <= self.entries@.len(),
                entries_view(self.entries@).len() == self.entries@.len(),
                forall|j: int|
                    0 <= j < self.entries@.len() ==> entries_view(self.entries@)[j] == (
                    self.entries@[j].0@,
                    self.entries@[j].1@,
                ),
                forall|j: int| 0 <= j < i ==> self.entries@[j].0@ != key@,
            decreases self.entries@.len() - i,
        {
            if key_eq(&self.entries[i].0, key) {
                return Some(i);
            }
            i = i + 1;
        }
        None
    }

    /// Looks the key up.
    pub fn get(&self, key: &Key) -> (r: Option<&Val>)
        requires
            self.wf(),
        ensures
            match r {
                Some(v) => spec_get(self@, key@) == Some(v@),
                None => spec_get(self@, key@) is None,
            },
    {
        proof {
            lemma_entries_view(self.entries@);
        }
        match self.find(key) {
            Some(i) => {
                proof {
                    let p = key_pos(self@, key@);
                    assert(self@[p].0 == key@);
                    assert(p == i);
                }
                Some(&self.entries[i].1)
            },
            None => None,
        }
    }

    /// True when the key is present.
    pub fn key_exists(&self, key: &Key) -> (r: bool)
        ensures
            r == has_key(self@, key@),
    {
        self.find(key).is_some()
    }

    /// Adds or updates the entry under the key.  Overwriting keeps the
    /// entry's original position.  An explicit integer key drags the
    /// next-auto-index counter past itself; the counter saturates at
    /// `u64::MAX`, where — as in the engine — a next-index insertion that
    /// would reuse the saturated index is refused and leaves the array
    /// unchanged.
    pub fn insert(&mut self, key: InsertKey, value: Val)
        requires
            old(self).wf(),
        ensures
            final(self).wf(),
            match key {
                InsertKey::NextIndex => {
                    let k = KeyV::Index(old(self).spec_next_index());
                    if !has_key(old(self)@, k) {
                        &&& final(self)@ == spec_insert(old(self)@, k, value@)
                        &&& final(self).spec_next_index() == (if old(self).spec_next_index()
                            < u64::MAX {
                            (old(self).spec_next_index() + 1) as u64
                        } else {
                            u64::MAX
                        })
                    } else {
                        final(self)@ == old(self)@ && final(self).spec_next_index() == old(
                            self,
                        ).spec_next_index()
                    }
                },
                InsertKey::Index(i) => {
                    &&& final(self)@ == spec_insert(old(self)@, KeyV::Index(i), value@)
                    &&& final(self).spec_next_index() == (if i >= old(self).spec_next_index() {
                        if i < u64::MAX {
                            (i + 1) as u64
                        } else {
                            u64::MAX
                        }
                    } else {
                        old(self).spec_next_index()
                    })
                },
                InsertKey::Str(s) => final(self)@ == spec_insert(old(self)@, KeyV::Str(s@), value@)
                    && final(self).spec_next_index() == old(self).spec_next_index(),
            },
    {
        proof {
            lemma_entries_view(self.entries@);
        }
        match key {
            InsertKey::NextIndex => {
                let idx = self.next_index;
                let k = Key::Index(idx);
                if self.key_exists(&k) {
                    return ;
                }
                self.inner_put(k, value);
                if idx < u64::MAX {
                    self.next_index = idx + 1;
                }
                proof {
                    lemma_insert_distinct(old(self)@, KeyV::Index(idx), value@);
                    assert forall|j: int| 0 <= j < self@.len() implies index_key_passed(
                        #[trigger] self@[j].0,
                        self.next_index,
                    ) by {
                        if self@[j].0 != KeyV::Index(idx) {
                            assert(j < old(self)@.len() && self@[j].0 == old(self)@[j].0);
                            lemma_passed_monotone(self@[j].0, old(self).next_index, self.next_index);
                        }
                    }
                }
            },
            InsertKey::Index(i) => {
                self.inner_put(Key::Index(i), value);
                if i >= self.next_index {
                    self.next_index = if i < u64::MAX {
                        i + 1
                    } else {
                        u64::MAX
                    };
                }
                proof {
                    lemma_insert_distinct(old(self)@, KeyV::Index(i), value@);
                    assert forall|j: int| 0 <= j < self@.len() implies index_key_passed(
                        #[trigger] self@[j].0,
                        self.next_index,
                    ) by {
                        if self@[j].0 != KeyV::Index(i) {
                            assert(j < old(self)@.len() && self@[j].0 == old(self)@[j].0);
                            lemma_passed_monotone(self@[j].0, old(self).next_index, self.next_index);
                        }
                    }
                }
            },
            InsertKey::Str(s) => {
                self.inner_put(Key::Str(s), value);
                proof {
                    lemma_insert_distinct(old(self)@, KeyV::Str(s@), value@);
                    assert forall|j: int| 0 <= j < self@.len() implies index_key_passed(
                        #[trigger] self@[j].0,
                        self.next_index,
                    ) by {
                        if self@[j].0 != KeyV::Str(s@) {
                            assert(j < old(self)@.len() && self@[j].0 == old(self)@[j].0);
                        }
                    }
                }
            },
        }
    }

    /// Stores the value under the key: in place when present, appended
    /// otherwise.  Leaves the next-auto-index counter alone.
    fn inner_put(&mut self, key: Key, value: Val)
        requires
            distinct_keys(old(self)@),
        ensures
            final(self)@ == spec_insert(old(self)@, key@, value@),
            final(self).next_index == old(self).next_index,
    {
        proof {
            lemma_entries_view(self.entries@);
        }
        match self.find(&key) {
            Some(i) => {
                proof {
                    let p = key_pos(self@, key@);
                    assert(self@[p].0 == key@);
                }
                self.entries.set(i, (key, value));
                proof {
                    lemma_entries_view(self.entries@);
                    let kv = self.entries@[i as int].0@;
                    assert(self@ =~= spec_insert(old(self)@, kv, value@)) by {
                        assert(has_key(old(self)@, kv));
                        let p = key_pos(old(self)@, kv);
                        assert(old(self)@[p].0 == kv);
                        assert(old(self)@[i as int].0 == kv);
                        assert(p == i);
                    }
                }
            },
            None => {
                self.entries.push((key, value));
                proof {
                    lemma_entries_view(self.entries@);
                    assert(self@ =~= spec_insert(old(self)@, self.entries@.last().0@, value@));
                }
            },
        }
    }

    /// Removes the entry under the key; reports whether one was there.
    /// Later entries keep their relative order.
    pub fn remove(&mut self, key: &Key) -> (r: bool)
        requires
            old(self).wf(),
        ensures
            final(self).wf(),
            r == has_key(old(self)@, key@),
            final(self)@ == spec_remove(old(self)@, key@),
            final(self).spec_next_index() == old(self).spec_next_index(),
    {
        proof {
            lemma_entries_view(self.entries@);
        }
        match self.find(key) {
            Some(i) => {
                proof {
                    let p = key_pos(self@, key@);
                    assert(self@[p].0 == key@);
                }
                self.entries.remove(i);
                proof {
                    lemma_entries_view(self.entries@);
                    assert(self@ =~= spec_remove(old(self)@, key@)) by {
                        assert(has_key(old(self)@, key@));
                        let p = key_pos(old(self)@, key@);
                        assert(old(self)@[p].0 == key@);
                        assert(old(self)@[i as int].0 == key@);
                        assert(p == i);
                    }
                    lemma_remove_distinct(old(self)@, key@);
                    assert forall|j: int| 0 <= j < self@.len() implies index_key_passed(
                        #[trigger] self@[j].0,
                        self.next_index,
                    ) by {
                        assert(self@[j] == old(self)@[j] || self@[j] == old(self)@[j + 1]);
                    }
                }
                true
            },
            None => false,
        }
    }

    /// The entry at a storage position, in insertion order.
    pub fn nth(&self, i: usize) -> (r: Option<(&Key, &Val)>)
        ensures
            match r {
                Some(p) => i < self@.len() && self@[i as int] == (p.0@, p.1@),
                None => i >= self@.len(),
            },
    {
        proof {
            lemma_entries_view(self.entries@);
        }
        if i < self.entries.len() {
            let p = &self.entries[i];
            Some((&p.0, &p.1))
        } else {
            None
        }
    }

    /// Provides a cursor over the entries, starting at the first.
    pub fn iter(&self) -> (r: Iter)
        ensures
            r.pos == 0,
    {
        Iter { pos: 0 }
    }
}

/// A cursor over an array's entries in insertion order.  The cursor holds
/// only a position: mutating the array between steps leaves the walk
/// unspecified, as it does in the engine.
pub struct Iter {
    /// Position of the next entry to yield.
    pub pos: usize,
}

impl Iter {
    /// Yields the entry under the cursor and advances, or reports the end.
    pub fn next<'a>(&mut self, arr: &'a ZArray) -> (r: Option<(IterKey, &'a Val)>)
        ensures
            match r {
                Some(p) => {
                    &&& old(self).pos < arr@.len()
                    &&& arr@[old(self).pos as int] == (p.0@, p.1@)
                    &&& final(self).pos == old(self).pos + 1
                },
                None => old(self).pos >= arr@.len() && final(self).pos == old(self).pos,
            },
    {
        if self.pos >= arr.len() {
            return None;
        }
        match arr.nth(self.pos) {
            Some(p) => {
                self.pos = self.pos + 1;
                let key = match p.0 {
                    Key::Index(i) => IterKey::Index(*i),
                    Key::Str(s) => IterKey::Str(s.clone()),
                };
                Some((key, p.1))
            },
            None => None,
        }
    }
}

/// A view into one key's slot of an array: occupied at a storage position,
/// or vacant.
pub enum Entry {
    /// The key is present, at this storage position.
    Occupied(OccupiedEntry),
    /// The key is absent.
    Vacant,
}

/// The occupied case of [`Entry`]: the storage position the key sits at.
pub struct OccupiedEntry {
    /// Storage position of the entry, in insertion order.
    pub pos: usize,
}

impl ZArray {
    /// Describes the given key's slot: occupied — with its position — or
    /// vacant.
    pub fn entry(&self, key: &Key) -> (r: Entry)
        ensures
            match r {
                Entry::Occupied(o) => o.pos < self@.len() && self@[o.pos as int].0 == key@,
                Entry::Vacant => !has_key(self@, key@),
            },
    {
        match self.find(key) {
            Some(i) => Entry::Occupied(OccupiedEntry { pos: i }),
            None => Entry::Vacant,
        }
    }

    /// Ensures the key holds a value — keeping a present one, inserting
    /// the default otherwise — and hands the slot back for in-place
    /// mutation: both halves of the entry interface, without a second
    /// lookup on the vacant path.
    pub fn or_insert(&mut self, key: Key, default: Val) -> (v: &mut Val)
        requires
            old(self).wf(),
        ensures
            v@ == (if has_key(old(self)@, key@) {
                spec_get(old(self)@, key@).unwrap()
            } else {
                default@
            }),
            final(self)@ == spec_insert(old(self)@, key@, final(v)@),
            final(self).wf(),
            final(self).spec_next_index() == (if has_key(old(self)@, key@) {
                old(self).spec_next_index()
            } else {
                match key@ {
                    KeyV::Index(n) => if n >= old(self).spec_next_index() {
                        if n < u64::MAX {
                            (n + 1) as u64
                        } else {
                            u64::MAX
                        }
                    } else {
                        old(self).spec_next_index()
                    },
                    KeyV::Str(_) => old(self).spec_next_index(),
                }
            }),
    {
        broadcast use lemma_entries_view_update, lemma_push_update_last, lemma_entries_view_pointwise;

        let pos: usize = match self.find(&key) {
            Some(i) => {
                proof {
                    assert(has_key(self@, key@));
                    let p = key_pos(self@, key@);
                    assert(self@[p].0 == key@);
                    assert(p == i);
                }
                i
            },
            None => {
                let n = self.len();
                match key {
                    Key::Index(i) => self.insert(InsertKey::Index(i), default),
                    Key::Str(s) => self.insert(InsertKey::Str(s), default),
                }
                proof {
                    assert(self@ == old(self)@.push((key@, default@)));
                }
                n
            },
        };
        self.value_at_mut(pos)
    }

    /// Mutable access to one stored value, by its storage position: the
    /// occupied entry's mutate-in-place handle.  Keys and positions are
    /// untouched, so well-formedness survives whatever the caller writes.
    pub fn value_at_mut(&mut self, pos: usize) -> (v: &mut Val)
        requires
            pos < old(self)@.len(),
        ensures
            v@ == old(self)@[pos as int].1,
            final(self)@ == old(self)@.update(
                pos as int,
                (old(self)@[pos as int].0, final(v)@),
            ),
            final(self).spec_next_index() == old(self).spec_next_index(),
            old(self).wf() ==> final(self).wf(),
    {
        broadcast use lemma_entries_view_update, lemma_entries_view_pointwise;

        proof {
            lemma_entries_view(self.entries@);
        }
        let row = stored_entry_mut(&mut self.entries, pos);
        stored_value_mut(row)
    }
}

/// Mutable access to one stored entry of the run, with the view's reading
/// of the write stated alongside.
fn stored_entry_mut(entries: &mut Vec<(Key, Val)>, i: usize) -> (row: &mut (Key, Val))
    requires
        i < old(entries)@.len(),
    ensures
        *row == old(entries)@[i as int],
        final(entries)@ == old(entries)@.update(i as int, *final(row)),
        entries_view(final(entries)@) == entries_view(old(entries)@).update(
            i as int,
            ((*final(row)).0@, (*final(row)).1@),
        ),
{
    broadcast use lemma_entries_view_update;

    &mut entries[i]
}

/// Mutable access to the value half of a stored entry.
fn stored_value_mut(row: &mut (Key, Val)) -> (r: &mut Val)
    ensures
        *r == old(row).1,
        *final(row) == (old(row).0, *final(r)),
{
    &mut row.1
}

/// Duplicates a key.
pub fn key_clone(k: &Key) -> (r: Key)
    ensures
        r@ == k@,
{
    match k {
        Key::Index(i) => Key::Index(*i),
        Key::Str(s) => Key::Str(s.clone()),
    }
}

/// Duplicates an array cell structurally, entry by entry and in order: the
/// copy shares nothing mutable with the original, so writing into one
/// leaves the other untouched.
pub fn arr_clone(a: &ZArray) -> (r: ZArray)
    ensures
        r@ == a@,
        r.spec_next_index() == a.spec_next_index(),
        a.wf() ==> r.wf(),
    decreases a,
{
    proof {
        lemma_entries_view(a.entries@);
    }
    let n = a.entries.len();
    let mut entries: Vec<(Key, Val)> = Vec::new();
    let mut i: usize = 0;
    while i < n
        invariant
            n == a.entries@.len(),
            i <= n,
            entries@.len() == i,
            forall|j: int|
                0 <= j < i ==> (#[trigger] entries@[j].0@, entries@[j].1@) == (
                a.entries@[j].0@,
                a.entries@[j].1@,
            ),
        decreases n - i,
    {
        let k = key_clone(&a.entries[i].0);
        let v = crate::values::val_clone(&a.entries[i].1);
        entries.push((k, v));
        i = i + 1;
    }
    let r = ZArray { entries, next_index: a.next_index };
    proof {
        lemma_entries_view(r.entries@);
        assert(r@ =~= a@);
    }
    r
}

impl Clone for ZArray {
    /// See [`arr_clone`].
    fn clone(&self) -> (r: ZArray)
        ensures
            r@ == self@,
            r.spec_next_index() == self.spec_next_index(),
            self.wf() ==> r.wf(),
    {
        arr_clone(self)
    }
}

/// Key equality goes by content: index keys by value, string keys by their
/// characters.
pub fn key_eq(a: &Key, b: &Key) -> (r: bool)
    ensures
        r == (a@ == b@),
{
    match (a, b) {
        (Key::Index(x), Key::Index(y)) => *x == *y,
        (Key::Str(x), Key::Str(y)) => *x == *y,
        _ => false,
    }
}

/// Inserting keeps the keys distinct; every entry of the result is the new
/// pair or an old entry in its old position.
pub proof fn lemma_insert_distinct(s: Seq<(KeyV, ValV)>, k: KeyV, v: ValV)
    requires
        distinct_keys(s),
    ensures
        distinct_keys(spec_insert(s, k, v)),
        forall|i: int|
            0 <= i < spec_insert(s, k, v).len() ==> (#[trigger] spec_insert(s, k, v)[i].0) == k
                || (i < s.len() && spec_insert(s, k, v)[i] == s[i]),
{
    let t = spec_insert(s, k, v);
    if has_key(s, k) {
        let p = key_pos(s, k);
        assert(s[p].0 == k);
        assert forall|i: int, j: int| 0 <= i < j < t.len() implies t[i].0 != t[j].0 by {
            assert(s[i].0 != s[j].0);
        }
    } else {
        assert forall|i: int, j: int| 0 <= i < j < t.len() implies t[i].0 != t[j].0 by {
            if j < s.len() {
                assert(s[i].0 != s[j].0);
            } else {
                assert(t[j].0 == k);
                assert(t[i].0 == s[i].0);
            }
        }
    }
}

/// A saturating counter that has passed a key keeps it passed as it grows.
pub proof fn lemma_passed_monotone(k: KeyV, a: u64, b: u64)
    requires
        index_key_passed(k, a),
        a <= b,
    ensures
        index_key_passed(k, b),
{
}

/// Removing keeps the keys distinct: each remaining entry is an old entry,
/// in the old order.
pub proof fn lemma_remove_distinct(s: Seq<(KeyV, ValV)>, k: KeyV)
    requires
        distinct_keys(s),
    ensures
        distinct_keys(spec_remove(s, k)),
        forall|i: int|
            0 <= i < spec_remove(s, k).len() ==> (#[trigger] spec_remove(s, k)[i]) == s[i]
                || spec_remove(s, k)[i] == s[i + 1],
{
    let t = spec_remove(s, k);
    if has_key(s, k) {
        let p = key_pos(s, k);
        assert(s[p].0 == k);
        assert forall|i: int| 0 <= i < t.len() implies (#[trigger] t[i]) == s[i] || t[i] == s[i
            + 1] by {
            if i < p {
                assert(t[i] == s[i]);
            } else {
                assert(t[i] == s[i + 1]);
            }
        }
        assert forall|i: int, j: int| 0 <= i < j < t.len() implies t[i].0 != t[j].0 by {
            if j < p {
                assert(t[i] == s[i] && t[j] == s[j]);
            } else if i >= p {
                assert(t[i] == s[i + 1] && t[j] == s[j + 1]);
            } else {
                assert(t[i] == s[i] && t[j] == s[j + 1]);
            }
        }
    }
}

/// Looking a key up right after inserting it finds exactly the inserted
/// value.
pub proof fn lemma_insert_then_get(s: Seq<(KeyV, ValV)>, k: KeyV, v: ValV)
    requires
        distinct_keys(s),
    ensures
        spec_get(spec_insert(s, k, v), k) == Some(v),
{
    let t = spec_insert(s, k, v);
    if has_key(s, k) {
        let p = key_pos(s, k);
        assert(s[p].0 == k);
        assert(t[p].0 == k);
        assert(has_key(t, k));
        let q = key_pos(t, k);
        assert(t[q].0 == k);
        if q != p {
            assert(s[q].0 == k);
        }
    } else {
        assert(t[s.len() as int].0 == k);
        assert(has_key(t, k));
        let q = key_pos(t, k);
        if q != s.len() {
            assert(s[q].0 == k);
        }
    }
}

/// Looking a key up right after removing it finds nothing.
pub proof fn lemma_remove_then_get(s: Seq<(KeyV, ValV)>, k: KeyV)
    requires
        distinct_keys(s),
    ensures
        spec_get(spec_remove(s, k), k) is None,
{
    let t = spec_remove(s, k);
    if has_key(s, k) {
        let p = key_pos(s, k);
        assert(s[p].0 == k);
        if has_key(t, k) {
            let q = key_pos(t, k);
            assert(t[q].0 == k);
            if q < p {
                assert(s[q].0 == k);
            } else {
                assert(s[q + 1].0 == k);
            }
        }
    }
}

/// Inserting under one key leaves what any other key reads unchanged.
pub proof fn lemma_insert_other_key(s: Seq<(KeyV, ValV)>, k: KeyV, v: ValV, other: KeyV)
    requires
        distinct_keys(s),
        other != k,
    ensures
        spec_get(spec_insert(s, k, v), other) == spec_get(s, other),
{
    let t = spec_insert(s, k, v);
    if has_key(s, k) {
        let p = key_pos(s, k);
        assert(s[p].0 == k);
        if has_key(t, other) {
            let q = key_pos(t, other);
            assert(t[q].0 == other);
            assert(q != p);
            assert(s[q].0 == other);
            assert(has_key(s, other));
            let q2 = key_pos(s, other);
            assert(s[q2].0 == other);
            assert(q2 == q);
            assert(t[q].1 == s[q].1);
        } else {
            if has_key(s, other) {
                let q = key_pos(s, other);
                assert(s[q].0 == other);
                assert(q != p);
                assert(t[q].0 == other);
            }
        }
    } else {
        if has_key(t, other) {
            let q = key_pos(t, other);
            assert(t[q].0 == other);
            assert(q != s.len());
            assert(s[q].0 == other);
            assert(has_key(s, other));
            let q2 = key_pos(s, other);
            assert(s[q2].0 == other);
            assert(q2 == q);
        } else {
            if has_key(s, other) {
                let q = key_pos(s, other);
                assert(t[q].0 == other);
            }
        }
    }
}

/// Overwriting a present key keeps every entry's position and key; only the
/// value under that one key changes.
pub proof fn lemma_overwrite_keeps_order(s: Seq<(KeyV, ValV)>, k: KeyV, v: ValV)
    requires
        distinct_keys(s),
        has_key(s, k),
    ensures
        spec_insert(s, k, v).len() == s.len(),
        forall|i: int| 0 <= i < s.len() ==> spec_insert(s, k, v)[i].0 == s[i].0,
        forall|i: int|
            0 <= i < s.len() && s[i].0 != k ==> spec_insert(s, k, v)[i] == s[i],
        spec_get(spec_insert(s, k, v), k) == Some(v),
{
    let p = key_pos(s, k);
    assert(s[p].0 == k);
    lemma_insert_then_get(s, k, v);
}

} // verus!
