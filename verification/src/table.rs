//! A table: at most one value per key, keys compared by what they stand for.

use vstd::prelude::*;

verus! {

/// A key of a table. Two keys are the same when their views are.
pub trait TableKey: View + Sized {
    fn same_key(&self, other: &Self) -> (same: bool)
        ensures
            same == (self@ == other@),
    ;

    fn copy_key(&self) -> (key: Self)
        ensures
            key == *self,
    ;
}

/// Rows of a key and a value, in the order in which the keys came; no key occurs twice.
pub struct Table<K: TableKey, V> {
    rows: Vec<(K, V)>,
}

/// No two rows have the same key.
pub open spec fn distinct_keys<K: TableKey, V>(rows: Seq<(K, V)>) -> bool {
    forall|i: int, j: int| 0 <= i < j < rows.len() ==> #[trigger] rows[i].0@ != #[trigger] rows[j].0@
}

/// Row `i` has key `k`.
pub open spec fn row_has<K: TableKey, V>(rows: Seq<(K, V)>, i: int, k: K::V) -> bool {
    0 <= i < rows.len() && rows[i].0@ == k
}

/// The rows as a map from keys to values.
pub open spec fn rows_map<K: TableKey, V>(rows: Seq<(K, V)>) -> Map<K::V, V> {
    Map::new(
        |k: K::V| exists|i: int| row_has(rows, i, k),
        |k: K::V| rows[choose|i: int| row_has(rows, i, k)].1,
    )
}

/// With distinct keys, each row is found in the map under its key.
pub proof fn lemma_row_in_map<K: TableKey, V>(rows: Seq<(K, V)>, i: int)
    requires
        distinct_keys(rows),
        0 <= i < rows.len(),
    ensures
        rows_map(rows).contains_key(rows[i].0@),
        rows_map(rows)[rows[i].0@] == rows[i].1,
{
    assert(row_has(rows, i, rows[i].0@));
    let j = choose|j: int| row_has(rows, j, rows[i].0@);
    assert(row_has(rows, j, rows[i].0@));
    assert(i == j);
}

/// Every key of the map stands in a row.
pub proof fn lemma_map_in_rows<K: TableKey, V>(rows: Seq<(K, V)>, k: K::V) -> (i: int)
    requires
        distinct_keys(rows),
        rows_map(rows).contains_key(k),
    ensures
        row_has(rows, i, k),
        rows_map(rows)[k] == rows[i].1,
{
    choose|i: int| row_has(rows, i, k)
}

proof fn lemma_push<K: TableKey, V>(rows: Seq<(K, V)>, key: K, value: V)
    requires
        distinct_keys(rows),
        !rows_map(rows).contains_key(key@),
    ensures
        distinct_keys(rows.push((key, value))),
        rows_map(rows.push((key, value))) =~= rows_map(rows).insert(key@, value),
{
    let after = rows.push((key, value));
    assert forall|i: int, j: int| 0 <= i < j < after.len() implies #[trigger] after[i].0@ != #[trigger] after[j].0@ by {
        if j == rows.len() {
            assert(row_has(rows, i, rows[i].0@));
        }
    }
    assert forall|k: K::V| #[trigger] rows_map(after).contains_key(k) == rows_map(rows).insert(key@, value).contains_key(k)
        && (rows_map(after).contains_key(k) ==> rows_map(after)[k] == rows_map(rows).insert(key@, value)[k]) by {
        if rows_map(after).contains_key(k) {
            let i = lemma_map_in_rows(after, k);
            if i < rows.len() {
                assert(row_has(rows, i, k));
                lemma_row_in_map(rows, i);
            }
        } else if rows_map(rows).contains_key(k) {
            let i = lemma_map_in_rows(rows, k);
            assert(row_has(after, i, k));
        } else if k == key@ {
            assert(row_has(after, rows.len() as int, k));
        }
    }
}

proof fn lemma_update<K: TableKey, V>(rows: Seq<(K, V)>, at: int, key: K, value: V)
    requires
        distinct_keys(rows),
        row_has(rows, at, key@),
    ensures
        distinct_keys(rows.update(at, (key, value))),
        rows_map(rows.update(at, (key, value))) =~= rows_map(rows).insert(key@, value),
{
    let after = rows.update(at, (key, value));
    assert forall|i: int, j: int| 0 <= i < j < after.len() implies #[trigger] after[i].0@ != #[trigger] after[j].0@ by {
        assert(rows[i].0@ != rows[j].0@);
    }
    assert forall|k: K::V| #[trigger] rows_map(after).contains_key(k) == rows_map(rows).insert(key@, value).contains_key(k)
        && (rows_map(after).contains_key(k) ==> rows_map(after)[k] == rows_map(rows).insert(key@, value)[k]) by {
        if rows_map(after).contains_key(k) {
            let i = lemma_map_in_rows(after, k);
            assert(row_has(rows, i, k));
            lemma_row_in_map(rows, i);
            if k == key@ {
                assert(i == at);
            } else {
                assert(i != at);
            }
        } else if rows_map(rows).contains_key(k) {
            let i = lemma_map_in_rows(rows, k);
            assert(row_has(after, i, k));
        } else if k == key@ {
            assert(row_has(after, at, k));
        }
    }
}

proof fn lemma_take_out<K: TableKey, V>(rows: Seq<(K, V)>, at: int)
    requires
        distinct_keys(rows),
        0 <= at < rows.len(),
    ensures
        distinct_keys(rows.remove(at)),
        rows_map(rows.remove(at)) =~= rows_map(rows).remove(rows[at].0@),
{
    let after = rows.remove(at);
    let gone = rows[at].0@;
    assert forall|i: int, j: int| 0 <= i < j < after.len() implies #[trigger] after[i].0@ != #[trigger] after[j].0@ by {
        let i0 = if i < at { i } else { i + 1 };
        let j0 = if j < at { j } else { j + 1 };
        assert(rows[i0].0@ != rows[j0].0@);
    }
    assert forall|k: K::V| #[trigger] rows_map(after).contains_key(k) == rows_map(rows).remove(gone).contains_key(k)
        && (rows_map(after).contains_key(k) ==> rows_map(after)[k] == rows_map(rows).remove(gone)[k]) by {
        if rows_map(after).contains_key(k) {
            let i = lemma_map_in_rows(after, k);
            let i0 = if i < at { i } else { i + 1 };
            assert(row_has(rows, i0, k));
            lemma_row_in_map(rows, i0);
            assert(rows[i0].0@ != gone);
        } else if rows_map(rows).remove(gone).contains_key(k) {
            let i = lemma_map_in_rows(rows, k);
            let i0 = if i < at { i } else { i - 1 };
            assert(i != at);
            assert(row_has(after, i0, k));
        }
    }
}

impl<K: TableKey, V> View for Table<K, V> {
    type V = Map<K::V, V>;

    closed spec fn view(&self) -> Map<K::V, V> {
        rows_map(self.rows@)
    }
}

impl<K: TableKey, V> Table<K, V> {
    /// The rows in order.
    pub closed spec fn spec_rows(&self) -> Seq<(K, V)> {
        self.rows@
    }

    #[verifier::type_invariant]
    spec fn keys_are_distinct(&self) -> bool {
        distinct_keys(self.rows@)
    }

    pub fn new() -> (table: Self)
        ensures
            table@ == Map::<K::V, V>::empty(),
            table.spec_rows().len() == 0,
    {
        let table = Table { rows: Vec::new() };
        proof {
            assert forall|k: K::V| !rows_map(table.rows@).contains_key(k) by {
                assert(!exists|i: int| row_has(table.rows@, i, k));
            }
            assert(table@ =~= Map::<K::V, V>::empty());
        }
        table
    }

    /// How the rows and the map belong together.
    pub fn rows(&self) -> (rows: &Vec<(K, V)>)
        ensures
            rows@ == self.spec_rows(),
            distinct_keys(rows@),
            self@ == rows_map(rows@),
    {
        proof {
            use_type_invariant(self);
        }
        &self.rows
    }

    fn position(&self, key: &K) -> (at: Option<usize>)
        ensures
            match at {
                Some(i) => row_has(self.rows@, i as int, key@),
                None => !self@.contains_key(key@),
            },
    {
        let mut i: usize = 0;
        while i < self.rows.len()
            invariant
                i <= self.rows@.len(),
                forall|j: int| 0 <= j < i ==> !row_has(self.rows@, j, key@),
            decreases self.rows@.len() - i,
        {
            if self.rows[i].0.same_key(key) {
                return Some(i);
            }
            i += 1;
        }
        None
    }

    pub fn get(&self, key: &K) -> (value: Option<&V>)
        ensures
            match value {
                Some(v) => self@.contains_key(key@) && *v == self@[key@],
                None => !self@.contains_key(key@),
            },
    {
        proof {
            use_type_invariant(self);
        }
        match self.position(key) {
            Some(i) => {
                proof {
                    lemma_row_in_map(self.rows@, i as int);
                }
                Some(&self.rows[i].1)
            },
            None => None,
        }
    }

    pub fn contains_key(&self, key: &K) -> (found: bool)
        ensures
            found == self@.contains_key(key@),
    {
        self.get(key).is_some()
    }

    /// Sets the value of a key, whether or not it had one.
    pub fn insert(&mut self, key: K, value: V)
        ensures
            final(self)@ == old(self)@.insert(key@, value),
    {
        proof {
            use_type_invariant(&*self);
        }
        let at = self.position(&key);
        let mut rows: Vec<(K, V)> = Vec::new();
        std::mem::swap(&mut rows, &mut self.rows);
        match at {
            Some(i) => {
                proof {
                    lemma_update(rows@, i as int, key, value);
                }
                rows.set(i, (key, value));
            },
            None => {
                proof {
                    lemma_push(rows@, key, value);
                }
                rows.push((key, value));
            },
        }
        self.rows = rows;
    }

    /// Takes a key and its value out.
    pub fn remove(&mut self, key: &K) -> (value: Option<V>)
        ensures
            final(self)@ == old(self)@.remove(key@),
            value == (if old(self)@.contains_key(key@) {
                Some(old(self)@[key@])
            } else {
                None
            }),
    {
        proof {
            use_type_invariant(&*self);
        }
        let at = self.position(key);
        let mut rows: Vec<(K, V)> = Vec::new();
        std::mem::swap(&mut rows, &mut self.rows);
        match at {
            Some(i) => {
                proof {
                    lemma_take_out(rows@, i as int);
                    lemma_row_in_map(rows@, i as int);
                }
                let (_, value) = rows.remove(i);
                self.rows = rows;
                Some(value)
            },
            None => {
                self.rows = rows;
                proof {
                    assert(self@ =~= old(self)@.remove(key@));
                }
                None
            },
        }
    }

    /// How many keys there are.
    pub fn len(&self) -> (n: usize)
        ensures
            n == self.spec_rows().len(),
            n == self@.dom().len(),
            self@.dom().finite(),
    {
        proof {
            use_type_invariant(self);
            let keys = Seq::new(self.rows@.len(), |i: int| self.rows@[i].0);
            assert forall|k: K::V| #[trigger] self@.dom().contains(k) <==> among(keys, k) by {
                if self@.dom().contains(k) {
                    let i = lemma_map_in_rows(self.rows@, k);
                    assert(keys[i]@ == k);
                }
                if among(keys, k) {
                    let i = choose|i: int| 0 <= i < keys.len() && #[trigger] keys[i]@ == k;
                    assert(row_has(self.rows@, i, k));
                }
            }
            assert forall|i: int, j: int| 0 <= i < j < keys.len() implies #[trigger] keys[i]@ != #[trigger] keys[j]@ by {
                assert(self.rows@[i].0@ != self.rows@[j].0@);
            }
            lemma_lists_len(keys, self@.dom());
        }
        self.rows.len()
    }
}

impl<K: TableKey, V> Table<K, V> {
    /// A table has finitely many keys.
    pub proof fn lemma_finite(&self)
        ensures
            self@.dom().finite(),
    {
        let keys = Seq::new(self.rows@.len(), |i: int| self.rows@[i].0@);
        vstd::seq_lib::seq_to_set_is_finite(keys);
        assert forall|k: K::V| self@.dom().contains(k) implies keys.to_set().contains(k) by {
            let i = choose|i: int| row_has(self.rows@, i, k);
            assert(keys[i] == k);
        }
        vstd::set_lib::lemma_len_subset(self@.dom(), keys.to_set());
    }
}

/// The keys are exactly those of the set, each once.
pub open spec fn lists<K: TableKey>(keys: Seq<K>, set: Set<K::V>) -> bool {
    &&& forall|i: int, j: int| 0 <= i < j < keys.len() ==> #[trigger] keys[i]@ != #[trigger] keys[j]@
    &&& forall|k: K::V| #[trigger] set.contains(k) <==> among(keys, k)
}

/// The key stands in the list.
pub open spec fn among<K: TableKey>(keys: Seq<K>, k: K::V) -> bool {
    exists|i: int| 0 <= i < keys.len() && #[trigger] keys[i]@ == k
}

/// A list of a set is as long as the set has members.
pub proof fn lemma_lists_len<K: TableKey>(keys: Seq<K>, set: Set<K::V>)
    requires
        lists(keys, set),
    ensures
        set.finite(),
        set.len() == keys.len(),
{
    let views = Seq::new(keys.len(), |i: int| keys[i]@);
    assert(views.no_duplicates());
    views.unique_seq_to_set();
    assert(views.to_set() =~= set) by {
        assert forall|k: K::V| views.to_set().contains(k) == set.contains(k) by {
            if set.contains(k) {
                let i = choose|i: int| 0 <= i < keys.len() && #[trigger] keys[i]@ == k;
                assert(views[i] == k);
            }
            if views.contains(k) {
                let i = choose|i: int| 0 <= i < views.len() && views[i] == k;
                assert(keys[i]@ == k);
            }
        }
    }
}

/// The keys of a map whose entries meet a condition.
pub open spec fn keys_meeting<A, B>(map: Map<A, B>, condition: spec_fn(A, B) -> bool) -> Set<A> {
    Set::new(|k: A| map.contains_key(k) && condition(k, map[k]))
}

/// The keys of the entries that meet a condition, in the order of the rows.
pub(crate) fn keys_where<K: TableKey, V, F: Fn(&K, &V) -> bool>(
    table: &Table<K, V>,
    test: F,
    Ghost(condition): Ghost<spec_fn(K::V, V) -> bool>,
) -> (keys: Vec<K>)
    requires
        forall|k: &K, v: &V| #[trigger] test.requires((k, v)),
        forall|k: &K, v: &V, met: bool| #[trigger] test.ensures((k, v), met) ==> met == condition(k@, *v),
    ensures
        lists(keys@, keys_meeting(table@, condition)),
        keys@.len() <= table.spec_rows().len(),
{
    let rows = table.rows();
    let mut keys: Vec<K> = Vec::new();
    let mut i: usize = 0;
    while i < rows.len()
        invariant
            i <= rows@.len(),
            keys@.len() <= i,
            distinct_keys(rows@),
            forall|k: &K, v: &V| #[trigger] test.requires((k, v)),
            forall|k: &K, v: &V, met: bool| #[trigger] test.ensures((k, v), met) ==> met == condition(k@, *v),
            forall|a: int, b: int| 0 <= a < b < keys@.len() ==> #[trigger] keys@[a]@ != #[trigger] keys@[b]@,
            forall|k: K::V| #[trigger] among(keys@, k) <==> found_before(rows@, i as int, condition, k),
        decreases rows@.len() - i,
    {
        let ghost before = keys@;
        let ghost next = rows@[i as int].0@;
        if test(&rows[i].0, &rows[i].1) {
            proof {
                assert(!among(before, next)) by {
                    if found_before(rows@, i as int, condition, next) {
                        let j = choose|j: int| 0 <= j < i && (#[trigger] rows@[j]).0@ == next && condition(next, rows@[j].1);
                        assert(rows@[j].0@ != rows@[i as int].0@);
                    }
                }
            }
            keys.push(rows[i].0.copy_key());
            proof {
                assert forall|a: int, b: int| 0 <= a < b < keys@.len() implies #[trigger] keys@[a]@ != #[trigger] keys@[b]@ by {
                    assert(before[a]@ == keys@[a]@);
                    if b < before.len() {
                        assert(before[b]@ == keys@[b]@);
                    }
                }
            }
        }
        proof {
            assert forall|k: K::V| #[trigger] among(keys@, k) <==> found_before(rows@, i + 1, condition, k) by {
                if among(keys@, k) {
                    let a = choose|a: int| 0 <= a < keys@.len() && #[trigger] keys@[a]@ == k;
                    if a < before.len() {
                        assert(before[a]@ == k);
                        assert(among(before, k));
                        assert(found_before(rows@, i as int, condition, k));
                        let j = choose|j: int| 0 <= j < i && (#[trigger] rows@[j]).0@ == k && condition(k, rows@[j].1);
                        assert(rows@[j].0@ == k);
                    } else {
                        assert(rows@[i as int].0@ == k);
                    }
                }
                if found_before(rows@, i + 1, condition, k) {
                    let j = choose|j: int| 0 <= j < i + 1 && (#[trigger] rows@[j]).0@ == k && condition(k, rows@[j].1);
                    if j < i {
                        assert(found_before(rows@, i as int, condition, k));
                        assert(among(before, k));
                        let a = choose|a: int| 0 <= a < before.len() && #[trigger] before[a]@ == k;
                        assert(keys@[a]@ == k);
                    } else {
                        assert(keys@[before.len() as int]@ == k);
                    }
                }
            }
        }
        i += 1;
    }
    proof {
        assert forall|k: K::V| #[trigger] keys_meeting(table@, condition).contains(k) <==> among(keys@, k) by {
            if keys_meeting(table@, condition).contains(k) {
                let j = lemma_map_in_rows(rows@, k);
                assert(rows@[j].0@ == k);
                assert(found_before(rows@, rows@.len() as int, condition, k));
            }
            if among(keys@, k) {
                assert(found_before(rows@, rows@.len() as int, condition, k));
                let j = choose|j: int| 0 <= j < rows@.len() && (#[trigger] rows@[j]).0@ == k && condition(k, rows@[j].1);
                lemma_row_in_map(rows@, j);
            }
        }
    }
    keys
}

/// One of the first `n` rows has the key and meets the condition.
spec fn found_before<K: TableKey, V>(
    rows: Seq<(K, V)>,
    n: int,
    condition: spec_fn(K::V, V) -> bool,
    k: K::V,
) -> bool {
    exists|j: int| 0 <= j < n && (#[trigger] rows[j]).0@ == k && condition(k, rows[j].1)
}

/// Takes the listed keys out of a table.
pub(crate) fn remove_all<K: TableKey, V>(table: &mut Table<K, V>, keys: &Vec<K>)
    ensures
        final(table)@ == old(table)@.restrict(Set::new(|k: K::V| !among(keys@, k))),
{
    let ghost before = table@;
    let mut i: usize = 0;
    proof {
        assert(table@ =~= before.restrict(Set::new(|k: K::V| !among(keys@.take(0), k))));
    }
    while i < keys.len()
        invariant
            i <= keys@.len(),
            table@ == before.restrict(Set::new(|k: K::V| !among(keys@.take(i as int), k))),
        decreases keys@.len() - i,
    {
        let ghost held = table@;
        table.remove(&keys[i]);
        proof {
            let taken = keys@.take(i as int);
            let more = keys@.take(i + 1);
            assert forall|k: K::V| #[trigger] among(more, k) <==> among(taken, k) || k == keys@[i as int]@ by {
                if among(more, k) {
                    let j = choose|j: int| 0 <= j < more.len() && #[trigger] more[j]@ == k;
                    if j < i {
                        assert(taken[j]@ == k);
                    }
                }
                if among(taken, k) {
                    let j = choose|j: int| 0 <= j < taken.len() && #[trigger] taken[j]@ == k;
                    assert(more[j]@ == k);
                }
                if k == keys@[i as int]@ {
                    assert(more[i as int]@ == k);
                }
            }
            assert(table@ =~= before.restrict(Set::new(|k: K::V| !among(more, k))));
        }
        i += 1;
    }
    proof {
        assert(keys@.take(keys@.len() as int) =~= keys@);
    }
}

/// Moves the listed keys with their values from one table to another.
pub(crate) fn move_all<K: TableKey, V>(from: &mut Table<K, V>, to: &mut Table<K, V>, keys: &Vec<K>)
    ensures
        final(from)@ == old(from)@.restrict(Set::new(|k: K::V| !among(keys@, k))),
        final(to)@ == old(to)@.union_prefer_right(old(from)@.restrict(Set::new(|k: K::V| among(keys@, k)))),
{
    let ghost source = from@;
    let ghost target = to@;
    let mut i: usize = 0;
    proof {
        assert(from@ =~= source.restrict(Set::new(|k: K::V| !among(keys@.take(0), k))));
        assert(to@ =~= target.union_prefer_right(source.restrict(Set::new(|k: K::V| among(keys@.take(0), k)))));
    }
    while i < keys.len()
        invariant
            i <= keys@.len(),
            from@ == source.restrict(Set::new(|k: K::V| !among(keys@.take(i as int), k))),
            to@ == target.union_prefer_right(source.restrict(Set::new(|k: K::V| among(keys@.take(i as int), k)))),
        decreases keys@.len() - i,
    {
        let ghost left = from@;
        let ghost moved = to@;
        match from.remove(&keys[i]) {
            Some(value) => {
                to.insert(keys[i].copy_key(), value);
            },
            None => {},
        }
        proof {
            let taken = keys@.take(i as int);
            let more = keys@.take(i + 1);
            assert forall|k: K::V| #[trigger] among(more, k) <==> among(taken, k) || k == keys@[i as int]@ by {
                if among(more, k) {
                    let j = choose|j: int| 0 <= j < more.len() && #[trigger] more[j]@ == k;
                    if j < i {
                        assert(taken[j]@ == k);
                    }
                }
                if among(taken, k) {
                    let j = choose|j: int| 0 <= j < taken.len() && #[trigger] taken[j]@ == k;
                    assert(more[j]@ == k);
                }
                if k == keys@[i as int]@ {
                    assert(more[i as int]@ == k);
                }
            }
            assert(from@ =~= source.restrict(Set::new(|k: K::V| !among(more, k))));
            assert(to@ =~= target.union_prefer_right(source.restrict(Set::new(|k: K::V| among(more, k)))));
        }
        i += 1;
    }
    proof {
        assert(keys@.take(keys@.len() as int) =~= keys@);
    }
}

/// What stands in a list of a set is in the set.
pub proof fn lemma_listed<K: TableKey>(keys: Seq<K>, set: Set<K::V>, i: int)
    requires
        lists(keys, set),
        0 <= i < keys.len(),
    ensures
        set.contains(keys[i]@),
{
    assert(among(keys, keys[i]@));
}

} // verus!
