//! Documents: ordered maps from string keys to values. Keys are unique, a new key
//! goes last, an update keeps the key's place, a removal keeps the order of the
//! others.

use crate::value::{JsonModel, JsonValue};
use indexmap::IndexMap;
use vstd::prelude::*;

verus! {

/// One field of a document: its key and its value.
pub type Entry = (Seq<char>, JsonModel);

/// A document, held in an `indexmap::IndexMap`.
#[verifier::external_body]
pub struct JsonData {
    map: IndexMap<String, JsonValue>,
}

/// The fields of a document, in iteration order.
pub uninterp spec fn data_entries(d: JsonData) -> Seq<Entry>;

impl View for JsonData {
    type V = Seq<Entry>;

    open spec fn view(&self) -> Seq<Entry> {
        data_entries(*self)
    }
}

/// Whether some field has the key.
pub open spec fn contains_key(e: Seq<Entry>, k: Seq<char>) -> bool {
    exists|i: int| 0 <= i < e.len() && #[trigger] e[i].0 == k
}

/// `i` is the first position that holds the key.
pub open spec fn first_at(e: Seq<Entry>, k: Seq<char>, i: int) -> bool {
    0 <= i < e.len() && e[i].0 == k && forall|j: int| 0 <= j < i ==> #[trigger] e[j].0 != k
}

/// No two fields share a key.
pub open spec fn keys_unique(e: Seq<Entry>) -> bool {
    forall|i: int, j: int| 0 <= i < j < e.len() ==> #[trigger] e[i].0 != #[trigger] e[j].0
}

/// The position of the key, or -1 where no field has it.
pub open spec fn position_of(e: Seq<Entry>, k: Seq<char>) -> int
    decreases e.len(),
{
    if e.len() == 0 {
        -1
    } else {
        let p = position_of(e.drop_last(), k);
        if p >= 0 {
            p
        } else if e.last().0 == k {
            e.len() - 1
        } else {
            -1
        }
    }
}

/// The value under a key.
pub open spec fn lookup(e: Seq<Entry>, k: Seq<char>) -> Option<JsonModel> {
    let p = position_of(e, k);
    if p >= 0 {
        Some(e[p].1)
    } else {
        None
    }
}

/// The fields after `insert`: an existing key keeps its place and takes the value,
/// a new key goes last.
pub open spec fn inserted(e: Seq<Entry>, k: Seq<char>, v: JsonModel) -> Seq<Entry> {
    let p = position_of(e, k);
    if p >= 0 {
        e.update(p, (e[p].0, v))
    } else {
        e.push((k, v))
    }
}

/// The fields after `remove`: the key's field goes, the others keep their order.
pub open spec fn removed(e: Seq<Entry>, k: Seq<char>) -> Seq<Entry> {
    let p = position_of(e, k);
    if p >= 0 {
        e.remove(p)
    } else {
        e
    }
}

/// The keys, in order.
pub open spec fn keys_of(e: Seq<Entry>) -> Seq<Seq<char>> {
    e.map_values(|x: Entry| x.0)
}

/// `position_of` finds the first field with the key, and -1 exactly where there is none.
pub proof fn lemma_position_of(e: Seq<Entry>, k: Seq<char>)
    ensures
        position_of(e, k) >= 0 ==> first_at(e, k, position_of(e, k)),
        position_of(e, k) < 0 <==> !contains_key(e, k),
        position_of(e, k) >= -1,
    decreases e.len(),
{
    if e.len() > 0 {
        let d = e.drop_last();
        lemma_position_of(d, k);
        if position_of(d, k) >= 0 {
            assert(forall|j: int| 0 <= j < d.len() ==> d[j] == e[j]);
        } else {
            assert(forall|j: int| 0 <= j < d.len() ==> d[j] == e[j]);
            if contains_key(e, k) {
                let i = choose|i: int| 0 <= i < e.len() && #[trigger] e[i].0 == k;
                if i < d.len() {
                    assert(d[i].0 == k);
                }
            }
        }
    }
}

/// Where keys are unique, a field with the key is at its position.
pub proof fn lemma_unique_position(e: Seq<Entry>, k: Seq<char>, i: int)
    requires
        keys_unique(e),
        0 <= i < e.len(),
        e[i].0 == k,
    ensures
        position_of(e, k) == i,
{
    lemma_position_of(e, k);
    let p = position_of(e, k);
    assert(e[p].0 == k);
}

impl JsonData {
    /// Relies on `IndexMap::new`: an empty map.
    #[verifier::external_body]
    fn empty_map() -> (r: JsonData)
        ensures
            data_entries(r) == Seq::<Entry>::empty(),
    {
        JsonData { map: IndexMap::new() }
    }

    /// Relies on `IndexMap::len`: the number of entries.
    #[verifier::external_body]
    fn map_len(&self) -> (r: usize)
        ensures
            r == data_entries(*self).len(),
    {
        self.map.len()
    }

    /// Relies on `IndexMap::get_index_of`: the index of the key's entry, if any.
    /// The map holds each key once, so that index is also the first one.
    #[verifier::external_body]
    fn map_index_of(&self, key: &str) -> (r: Option<usize>)
        ensures
            match r {
                Some(i) => first_at(data_entries(*self), key@, i as int),
                None => !contains_key(data_entries(*self), key@),
            },
    {
        self.map.get_index_of(key)
    }

    /// Relies on `IndexMap::get_index`: the entry at a position.
    #[verifier::external_body]
    fn map_entry_at(&self, index: usize) -> (r: (&String, &JsonValue))
        requires
            index < data_entries(*self).len(),
        ensures
            r.0@ == data_entries(*self)[index as int].0,
            r.1@ == data_entries(*self)[index as int].1,
    {
        self.map.get_index(index).unwrap()
    }

    /// Relies on `IndexMut<usize>` of `IndexMap`: the value at a position, to be
    /// changed in place; the key and the other entries stay. The map holds each key
    /// once.
    #[verifier::external_body]
    fn map_value_at_mut(&mut self, index: usize) -> (r: &mut JsonValue)
        requires
            index < data_entries(*old(self)).len(),
        ensures
            keys_unique(data_entries(*old(self))),
            r@ == data_entries(*old(self))[index as int].1,
            data_entries(*final(self)) == data_entries(*old(self)).update(
                index as int,
                (data_entries(*old(self))[index as int].0, final(r)@),
            ),
    {
        &mut self.map[index]
    }

    /// Relies on `IndexMap::insert_full`: an existing key keeps its place and the
    /// value is replaced (the old one is returned); a new key is appended. Each key
    /// is held once.
    #[verifier::external_body]
    fn map_insert(&mut self, key: String, value: JsonValue) -> (r: (usize, Option<JsonValue>))
        ensures
            keys_unique(data_entries(*old(self))),
            keys_unique(data_entries(*final(self))),
            match r.1 {
                Some(previous) => {
                    &&& first_at(data_entries(*old(self)), key@, r.0 as int)
                    &&& previous@ == data_entries(*old(self))[r.0 as int].1
                    &&& data_entries(*final(self)) == data_entries(*old(self)).update(
                        r.0 as int,
                        (data_entries(*old(self))[r.0 as int].0, value@),
                    )
                },
                None => {
                    &&& !contains_key(data_entries(*old(self)), key@)
                    &&& r.0 == data_entries(*old(self)).len()
                    &&& data_entries(*final(self)) == data_entries(*old(self)).push((key@, value@))
                },
            },
    {
        self.map.insert_full(key, value)
    }

    /// Relies on `IndexMap::shift_remove_full`: the key's entry is removed and the
    /// entries after it move up one place, in order. The map holds each key once.
    #[verifier::external_body]
    fn map_shift_remove(&mut self, key: &str) -> (r: Option<(usize, JsonValue)>)
        ensures
            keys_unique(data_entries(*old(self))),
            match r {
                Some((i, v)) => {
                    &&& first_at(data_entries(*old(self)), key@, i as int)
                    &&& v@ == data_entries(*old(self))[i as int].1
                    &&& data_entries(*final(self)) == data_entries(*old(self)).remove(i as int)
                },
                None => {
                    &&& !contains_key(data_entries(*old(self)), key@)
                    &&& data_entries(*final(self)) == data_entries(*old(self))
                },
            },
    {
        self.map.shift_remove_full(key).map(|(i, _, v)| (i, v))
    }

    /// Relies on `Clone` of `IndexMap`: the same entries, in the same order, each
    /// value cloned (which keeps what it holds).
    #[verifier::external_body]
    fn map_clone(&self) -> (r: JsonData)
        ensures
            data_entries(r) == data_entries(*self),
    {
        JsonData { map: self.map.clone() }
    }
}

impl Clone for JsonData {
    fn clone(&self) -> (r: Self)
        ensures
            r@ == self@,
    {
        self.map_clone()
    }
}

} // verus!

verus! {

impl JsonData {
    /// An empty document.
    pub fn new() -> (r: JsonData)
        ensures
            r@ == Seq::<Entry>::empty(),
    {
        JsonData::empty_map()
    }

    /// The number of fields.
    pub fn len(&self) -> (r: usize)
        ensures
            r == self@.len(),
    {
        self.map_len()
    }

    /// Whether there are no fields.
    pub fn is_empty(&self) -> (r: bool)
        ensures
            r == (self@.len() == 0),
    {
        self.map_len() == 0
    }

    /// The position of the key's field.
    pub fn index_of(&self, key: &str) -> (r: Option<usize>)
        ensures
            match r {
                Some(i) => i == position_of(self@, key@),
                None => position_of(self@, key@) < 0,
            },
    {
        proof {
            lemma_position_of(self@, key@);
        }
        let r = self.map_index_of(key);
        proof {
            if let Some(i) = r {
                lemma_first_at_is_position(self@, key@, i as int);
            }
        }
        r
    }

    /// The value under the key.
    pub fn get(&self, key: &str) -> (r: Option<&JsonValue>)
        ensures
            match r {
                Some(v) => lookup(self@, key@) == Some(v@),
                None => lookup(self@, key@) is None,
            },
    {
        proof {
            lemma_position_of(self@, key@);
        }
        match self.index_of(key) {
            Some(i) => Some(self.map_entry_at(i).1),
            None => None,
        }
    }

    /// The key and the value of the field at a position.
    pub fn entry_at(&self, index: usize) -> (r: Option<(&String, &JsonValue)>)
        ensures
            index < self@.len() ==> (r matches Some((k, v)) && k@ == self@[index as int].0 && v@
                == self@[index as int].1),
            index >= self@.len() ==> r is None,
    {
        if index < self.map_len() {
            Some(self.map_entry_at(index))
        } else {
            None
        }
    }

    /// Sets the value under a key: an existing key keeps its place, a new one is
    /// appended. Returns the value the key had.
    pub fn insert(&mut self, key: String, value: JsonValue) -> (r: Option<JsonValue>)
        ensures
            final(self)@ == inserted(old(self)@, key@, value@),
            keys_unique(old(self)@),
            keys_unique(final(self)@),
            forall|i: int|
                0 <= i < old(self)@.len() && #[trigger] old(self)@[i].0 == key@ ==> final(self)@
                    == old(self)@.update(i, (old(self)@[i].0, value@)),
            !contains_key(old(self)@, key@) ==> final(self)@ == old(self)@.push((key@, value@)),
            match r {
                Some(p) => lookup(old(self)@, key@) == Some(p@),
                None => lookup(old(self)@, key@) is None,
            },
    {
        proof {
            lemma_position_of(old(self)@, key@);
        }
        let ghost k = key@;
        let ghost v = value@;
        let r = self.map_insert(key, value);
        proof {
            if r.1 is Some {
                lemma_first_at_is_position(old(self)@, k, r.0 as int);
            }
            assert forall|i: int|
                0 <= i < old(self)@.len() && #[trigger] old(self)@[i].0 == k implies self@
                    == old(self)@.update(i, (old(self)@[i].0, v)) by {
                lemma_unique_position(old(self)@, k, i);
            }
        }
        r.1
    }

    /// Removes the key's field; the others keep their order. Returns its value.
    pub fn remove(&mut self, key: &str) -> (r: Option<JsonValue>)
        ensures
            final(self)@ == removed(old(self)@, key@),
            keys_unique(old(self)@),
            keys_unique(final(self)@),
            forall|i: int|
                0 <= i < old(self)@.len() && #[trigger] old(self)@[i].0 == key@ ==> final(self)@
                    == old(self)@.remove(i),
            !contains_key(old(self)@, key@) ==> final(self)@ == old(self)@,
            match r {
                Some(p) => lookup(old(self)@, key@) == Some(p@),
                None => lookup(old(self)@, key@) is None,
            },
    {
        proof {
            lemma_position_of(old(self)@, key@);
        }
        let r = self.map_shift_remove(key);
        proof {
            if let Some((i, _)) = r {
                lemma_first_at_is_position(old(self)@, key@, i as int);
                lemma_remove_keeps_unique(old(self)@, i as int);
            }
            assert forall|i: int|
                0 <= i < old(self)@.len() && #[trigger] old(self)@[i].0 == key@ implies self@
                    == old(self)@.remove(i) by {
                lemma_unique_position(old(self)@, key@, i);
            }
        }
        match r {
            Some((_, v)) => Some(v),
            None => None,
        }
    }

    /// The value at a position, to be changed in place.
    pub(crate) fn value_at_mut(&mut self, index: usize) -> (r: &mut JsonValue)
        requires
            index < old(self)@.len(),
        ensures
            keys_unique(old(self)@),
            r@ == old(self)@[index as int].1,
            final(self)@ == old(self)@.update(index as int, (old(self)@[index as int].0, final(r)@)),
    {
        self.map_value_at_mut(index)
    }
}

/// The first position with the key is its position.
pub proof fn lemma_first_at_is_position(e: Seq<Entry>, k: Seq<char>, i: int)
    requires
        first_at(e, k, i),
    ensures
        position_of(e, k) == i,
{
    lemma_position_of(e, k);
    let p = position_of(e, k);
    assert(e[i].0 == k);
    if p < i {
        assert(e[p].0 != k);
    } else if p > i {
        assert(e[i].0 != k);
    }
}

/// Removing a field keeps the keys unique.
pub proof fn lemma_remove_keeps_unique(e: Seq<Entry>, i: int)
    requires
        keys_unique(e),
        0 <= i < e.len(),
    ensures
        keys_unique(e.remove(i)),
{
    let r = e.remove(i);
    assert forall|a: int, b: int| 0 <= a < b < r.len() implies #[trigger] r[a].0 != #[trigger] r[b].0 by {
        let a2 = if a < i { a } else { a + 1 };
        let b2 = if b < i { b } else { b + 1 };
        assert(r[a] == e[a2]);
        assert(r[b] == e[b2]);
    }
}

} // verus!

verus! {

/// One change to a document.
pub ghost enum DocumentEdit {
    Insert(Seq<char>, JsonModel),
    Remove(Seq<char>),
}

/// The fields after one change.
pub open spec fn apply_edit(e: Seq<Entry>, edit: DocumentEdit) -> Seq<Entry> {
    match edit {
        DocumentEdit::Insert(k, v) => inserted(e, k, v),
        DocumentEdit::Remove(k) => removed(e, k),
    }
}

/// The fields after a sequence of changes, made in order.
pub open spec fn apply_edits(e: Seq<Entry>, edits: Seq<DocumentEdit>) -> Seq<Entry>
    decreases edits.len(),
{
    if edits.len() == 0 {
        e
    } else {
        apply_edit(apply_edits(e, edits.drop_last()), edits.last())
    }
}

/// When a key was inserted: the index of the first insertion of the key since it
/// was last removed, or -1 where the key is not present after the changes.
pub open spec fn insertion_time(edits: Seq<DocumentEdit>, k: Seq<char>) -> int
    decreases edits.len(),
{
    if edits.len() == 0 {
        -1
    } else {
        let before = insertion_time(edits.drop_last(), k);
        match edits.last() {
            DocumentEdit::Insert(k2, _) => if k2 == k && before < 0 {
                edits.len() - 1
            } else {
                before
            },
            DocumentEdit::Remove(k2) => if k2 == k {
                -1
            } else {
                before
            },
        }
    }
}

/// Whatever inserts, updates and removals are made on an empty document, its keys
/// are unique, exactly the keys inserted and not removed since are present, and
/// they come in the order in which they were inserted: an update does not move a
/// key and a removal does not reorder the rest.
pub proof fn lemma_edits_keep_insertion_order(edits: Seq<DocumentEdit>)
    ensures
        keys_unique(apply_edits(Seq::empty(), edits)),
        forall|k: Seq<char>|
            contains_key(apply_edits(Seq::empty(), edits), k) <==> #[trigger] insertion_time(
                edits,
                k,
            ) >= 0,
        forall|i: int, j: int|
            0 <= i < j < apply_edits(Seq::empty(), edits).len() ==> insertion_time(
                edits,
                #[trigger] apply_edits(Seq::empty(), edits)[i].0,
            ) < insertion_time(edits, #[trigger] apply_edits(Seq::empty(), edits)[j].0),
    decreases edits.len(),
{
    lemma_insertion_time_bound(edits);
    if edits.len() > 0 {
        let prev = edits.drop_last();
        lemma_edits_keep_insertion_order(prev);
        lemma_insertion_time_bound(prev);
        let e0 = apply_edits(Seq::empty(), prev);
        let e = apply_edits(Seq::empty(), edits);
        match edits.last() {
            DocumentEdit::Insert(k, v) => {
                lemma_position_of(e0, k);
                let p = position_of(e0, k);
                if p >= 0 {
                    assert(e == e0.update(p, (e0[p].0, v)));
                    assert forall|x: Seq<char>| #[trigger]
                        insertion_time(edits, x) == insertion_time(prev, x) by {}
                    assert forall|x: Seq<char>|
                        contains_key(e, x) <==> contains_key(e0, x) by {
                        if contains_key(e0, x) {
                            let i = choose|i: int| 0 <= i < e0.len() && #[trigger] e0[i].0 == x;
                            assert(e[i].0 == x);
                        }
                        if contains_key(e, x) {
                            let i = choose|i: int| 0 <= i < e.len() && #[trigger] e[i].0 == x;
                            assert(e0[i].0 == x);
                        }
                    }
                } else {
                    assert(e == e0.push((k, v)));
                    assert(insertion_time(prev, k) < 0);
                    assert(insertion_time(edits, k) == edits.len() - 1);
                    assert forall|x: Seq<char>| x != k implies #[trigger] insertion_time(edits, x)
                        == insertion_time(prev, x) by {}
                    assert forall|x: Seq<char>|
                        contains_key(e, x) <==> #[trigger] insertion_time(edits, x) >= 0 by {
                        if x != k {
                            if contains_key(e0, x) {
                                let i = choose|i: int| 0 <= i < e0.len() && #[trigger] e0[i].0 == x;
                                assert(e[i].0 == x);
                            }
                            if contains_key(e, x) {
                                let i = choose|i: int| 0 <= i < e.len() && #[trigger] e[i].0 == x;
                                assert(e0[i].0 == x);
                            }
                        } else {
                            assert(e[e0.len() as int].0 == k);
                        }
                    }
                    assert forall|i: int, j: int| 0 <= i < j < e.len() implies #[trigger] e[i].0
                        != #[trigger] e[j].0 by {
                        if j == e0.len() {
                            assert(e0[i].0 == e[i].0);
                        } else {
                            assert(e0[i].0 == e[i].0 && e0[j].0 == e[j].0);
                        }
                    }
                    assert forall|i: int, j: int| 0 <= i < j < e.len() implies insertion_time(
                        edits,
                        #[trigger] e[i].0,
                    ) < insertion_time(edits, #[trigger] e[j].0) by {
                        assert(e0[i].0 == e[i].0);
                        assert(contains_key(e0, e0[i].0));
                        if j < e0.len() {
                            assert(e0[j].0 == e[j].0);
                            assert(e0[i].0 != k);
                            assert(contains_key(e0, e0[j].0));
                            assert(e0[j].0 != k);
                        } else {
                            assert(e0[i].0 != k);
                        }
                    }
                }
            },
            DocumentEdit::Remove(k) => {
                lemma_position_of(e0, k);
                let p = position_of(e0, k);
                if p >= 0 {
                    assert(e == e0.remove(p));
                    lemma_remove_keeps_unique(e0, p);
                    assert forall|x: Seq<char>| x != k implies #[trigger] insertion_time(edits, x)
                        == insertion_time(prev, x) by {}
                    assert(insertion_time(edits, k) == -1);
                    assert forall|x: Seq<char>|
                        contains_key(e, x) <==> #[trigger] insertion_time(edits, x) >= 0 by {
                        if contains_key(e, x) {
                            let i = choose|i: int| 0 <= i < e.len() && #[trigger] e[i].0 == x;
                            let i2 = if i < p { i } else { i + 1 };
                            assert(e0[i2].0 == x);
                            assert(i2 != p);
                            assert(x != k);
                        }
                        if x != k && contains_key(e0, x) {
                            let i = choose|i: int| 0 <= i < e0.len() && #[trigger] e0[i].0 == x;
                            assert(i != p);
                            let i2 = if i < p { i } else { i - 1 };
                            assert(e[i2].0 == x);
                        }
                    }
                    assert forall|i: int, j: int| 0 <= i < j < e.len() implies insertion_time(
                        edits,
                        #[trigger] e[i].0,
                    ) < insertion_time(edits, #[trigger] e[j].0) by {
                        let i2 = if i < p { i } else { i + 1 };
                        let j2 = if j < p { j } else { j + 1 };
                        assert(e[i] == e0[i2]);
                        assert(e[j] == e0[j2]);
                        assert(e0[i2].0 != k);
                        assert(e0[j2].0 != k);
                    }
                } else {
                    assert(e == e0);
                    assert forall|x: Seq<char>| x != k implies #[trigger] insertion_time(edits, x)
                        == insertion_time(prev, x) by {}
                    assert forall|x: Seq<char>|
                        contains_key(e, x) <==> #[trigger] insertion_time(edits, x) >= 0 by {
                        if x == k {
                            assert(insertion_time(edits, x) == -1);
                        }
                    }
                    assert forall|i: int, j: int| 0 <= i < j < e.len() implies insertion_time(
                        edits,
                        #[trigger] e[i].0,
                    ) < insertion_time(edits, #[trigger] e[j].0) by {
                        assert(contains_key(e0, e0[i].0));
                        assert(contains_key(e0, e0[j].0));
                    }
                }
            },
        }
    }
}

/// Insertion times are positions in the sequence of changes.
proof fn lemma_insertion_time_bound(edits: Seq<DocumentEdit>)
    ensures
        forall|k: Seq<char>|
            -1 <= #[trigger] insertion_time(edits, k) < edits.len(),
    decreases edits.len(),
{
    if edits.len() > 0 {
        lemma_insertion_time_bound(edits.drop_last());
        assert forall|k: Seq<char>| -1 <= #[trigger] insertion_time(edits, k) < edits.len() by {
            assert(-1 <= insertion_time(edits.drop_last(), k) < edits.len() - 1);
        }
    }
}

} // verus!
