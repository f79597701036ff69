//! A map from strings to values whose entries stand in the order of their keys.
use vstd::prelude::*;
use vstd::seq_lib::seq_to_set_is_finite;
use crate::text::{
    before, before_irreflexive, before_total, before_transitive, place, same, texts, Place,
};

verus! {

/// One key with its value.
#[derive(Debug)]
pub struct Entry<V> {
    pub key: String,
    pub value: V,
}

/// Entries in the order of their keys, each key once.
#[derive(Debug)]
pub struct Table<V> {
    entries: Vec<Entry<V>>,
}

/// Keys in strictly ascending order.
pub open spec fn ascending(keys: Seq<Seq<char>>) -> bool {
    forall|i: int, j: int| 0 <= i < j < keys.len() ==> before(#[trigger] keys[i], #[trigger] keys[j])
}

impl<V> Table<V> {
    /// The entries in their order.
    pub closed spec fn rows(self) -> Seq<Entry<V>> {
        self.entries@
    }

    /// The keys in their order.
    pub open spec fn keys(self) -> Seq<Seq<char>> {
        self.rows().map_values(|e: Entry<V>| e.key@)
    }

    #[verifier::type_invariant]
    spec fn in_order(self) -> bool {
        ascending(self.keys())
    }
}

/// The values of entries by their keys.
pub open spec fn rows_map<V>(rows: Seq<Entry<V>>) -> Map<Seq<char>, V> {
    Map::new(
        |key: Seq<char>| exists|i: int| 0 <= i < rows.len() && #[trigger] rows[i].key@ == key,
        |key: Seq<char>|
            rows[choose|i: int| 0 <= i < rows.len() && #[trigger] rows[i].key@ == key].value,
    )
}

impl<V> View for Table<V> {
    type V = Map<Seq<char>, V>;

    open spec fn view(&self) -> Map<Seq<char>, V> {
        rows_map(self.rows())
    }
}

/// The keys of a table are those that its entries hold, and there are finitely many of them.
pub proof fn rows_hold_the_keys<V>(rows: Seq<Entry<V>>)
    ensures
        rows_map(rows).dom() == rows.map_values(|e: Entry<V>| e.key@).to_set(),
        rows_map(rows).dom().finite(),
{
    let keys = rows.map_values(|e: Entry<V>| e.key@);
    assert forall|k: Seq<char>| rows_map(rows).dom().contains(k) == keys.to_set().contains(k) by {
        if rows_map(rows).dom().contains(k) {
            let i = choose|i: int| 0 <= i < rows.len() && #[trigger] rows[i].key@ == k;
            assert(keys[i] == k);
        }
        if keys.to_set().contains(k) {
            let i = choose|i: int| 0 <= i < keys.len() && keys[i] == k;
            assert(rows[i].key@ == k);
        }
    }
    assert(rows_map(rows).dom() =~= keys.to_set());
    seq_to_set_is_finite(keys);
}

/// Keys in ascending order are pairwise different, so that each row holds the value of its key.
pub proof fn rows_hold_their_values<V>(rows: Seq<Entry<V>>)
    requires
        ascending(rows.map_values(|e: Entry<V>| e.key@)),
    ensures
        forall|i: int|
            0 <= i < rows.len() ==> rows_map(rows).contains_key(#[trigger] rows[i].key@)
                && rows_map(rows)[rows[i].key@] == rows[i].value,
        forall|i: int, j: int|
            0 <= i < rows.len() && 0 <= j < rows.len() && #[trigger] rows[i].key@
                == #[trigger] rows[j].key@ ==> i == j,
{
    let keys = rows.map_values(|e: Entry<V>| e.key@);
    assert forall|i: int, j: int|
        0 <= i < rows.len() && 0 <= j < rows.len() && #[trigger] rows[i].key@
            == #[trigger] rows[j].key@ implies i == j by {
        before_irreflexive(rows[i].key@);
        if i < j {
            assert(before(keys[i], keys[j]));
        } else if j < i {
            assert(before(keys[j], keys[i]));
        }
    }
}

/// Keys in their order, each once.
pub open spec fn listed(keys: Set<Seq<char>>) -> Seq<Seq<char>> {
    choose|order: Seq<Seq<char>>| ascending(order) && #[trigger] order.to_set() == keys
}

/// There is one order for keys.
pub proof fn ascending_is_listed(order: Seq<Seq<char>>)
    requires
        ascending(order),
    ensures
        listed(order.to_set()) == order,
{
    assert(order.to_set() == order.to_set());
    one_order(order, listed(order.to_set()));
}

proof fn one_order(a: Seq<Seq<char>>, b: Seq<Seq<char>>)
    requires
        ascending(a),
        ascending(b),
        a.to_set() == b.to_set(),
    ensures
        a == b,
    decreases a.len(),
{
    if a.len() == 0 {
        if b.len() > 0 {
            assert(b.to_set().contains(b[0]));
        }
        assert(a =~= b);
    } else {
        assert(a.to_set().contains(a[0]));
        let j = choose|j: int| 0 <= j < b.len() && b[j] == a[0];
        assert(b.to_set().contains(b[0]));
        let i = choose|i: int| 0 <= i < a.len() && a[i] == b[0];
        if i > 0 && j > 0 {
            assert(before(a[0], a[i]));
            assert(before(b[0], b[j]));
            before_transitive(a[0], b[0], a[0]);
            before_irreflexive(a[0]);
        }
        assert(a[0] == b[0]);
        let c = a.drop_first();
        let d = b.drop_first();
        assert forall|k: Seq<char>| c.to_set().contains(k) == d.to_set().contains(k) by {
            if c.to_set().contains(k) {
                let x = choose|x: int| 0 <= x < c.len() && c[x] == k;
                assert(a[x + 1] == k);
                assert(before(a[0], a[x + 1]));
                before_irreflexive(k);
                assert(a.to_set().contains(k));
                let y = choose|y: int| 0 <= y < b.len() && b[y] == k;
                assert(d[y - 1] == k);
            }
            if d.to_set().contains(k) {
                let y = choose|y: int| 0 <= y < d.len() && d[y] == k;
                assert(b[y + 1] == k);
                assert(before(b[0], b[y + 1]));
                before_irreflexive(k);
                assert(b.to_set().contains(k));
                let x = choose|x: int| 0 <= x < a.len() && a[x] == k;
                assert(c[x - 1] == k);
            }
        }
        assert(c.to_set() =~= d.to_set());
        assert forall|x: int, y: int| 0 <= x < y < c.len() implies before(
            #[trigger] c[x],
            #[trigger] c[y],
        ) by {
            assert(before(a[x + 1], a[y + 1]));
        }
        assert forall|x: int, y: int| 0 <= x < y < d.len() implies before(
            #[trigger] d[x],
            #[trigger] d[y],
        ) by {
            assert(before(b[x + 1], b[y + 1]));
        }
        one_order(c, d);
        assert(a =~= seq![a[0]] + c);
        assert(b =~= seq![b[0]] + d);
    }
}

/// Finitely many keys can be put in order.
pub proof fn listed_holds_the_keys(keys: Set<Seq<char>>)
    requires
        keys.finite(),
    ensures
        ascending(listed(keys)),
        listed(keys).to_set() == keys,
{
    let order = put_in_order(keys);
    assert(order.to_set() == keys);
}

proof fn put_in_order(keys: Set<Seq<char>>) -> (order: Seq<Seq<char>>)
    requires
        keys.finite(),
    ensures
        ascending(order),
        order.to_set() == keys,
    decreases keys.len(),
{
    if keys.len() == 0 {
        assert(Seq::<Seq<char>>::empty().to_set() =~= keys);
        Seq::empty()
    } else {
        let key = keys.choose();
        let rest = put_in_order(keys.remove(key));
        let order = put_between(rest, key);
        assert(order.to_set() =~= keys);
        order
    }
}

proof fn put_between(order: Seq<Seq<char>>, key: Seq<char>) -> (r: Seq<Seq<char>>)
    requires
        ascending(order),
        !order.to_set().contains(key),
    ensures
        ascending(r),
        forall|k: Seq<char>| #[trigger]
            r.to_set().contains(k) <==> order.to_set().contains(k) || k == key,
    decreases order.len(),
{
    if order.len() == 0 {
        let r = seq![key];
        assert(r[0] == key);
        r
    } else {
        assert(order.to_set().contains(order[0]));
        before_total(key, order[0]);
        let (head, tail) = if before(key, order[0]) {
            (key, order)
        } else {
            let rest = order.drop_first();
            assert forall|x: int, y: int| 0 <= x < y < rest.len() implies before(
                #[trigger] rest[x],
                #[trigger] rest[y],
            ) by {
                assert(before(order[x + 1], order[y + 1]));
            }
            assert(!rest.to_set().contains(key)) by {
                if rest.to_set().contains(key) {
                    let i = choose|i: int| 0 <= i < rest.len() && rest[i] == key;
                    assert(order[i + 1] == key);
                    assert(order.to_set().contains(key));
                }
            }
            (order[0], put_between(rest, key))
        };
        let r = seq![head] + tail;
        assert forall|k: Seq<char>| #[trigger] r.to_set().contains(k) <==> order.to_set().contains(k)
            || k == key by {
            if r.to_set().contains(k) {
                let i = choose|i: int| 0 <= i < r.len() && r[i] == k;
                if i > 0 {
                    assert(tail[i - 1] == k);
                    assert(tail.to_set().contains(k));
                    if head == order[0] && order.drop_first().to_set().contains(k) {
                        let rest = order.drop_first();
                        let j = choose|j: int| 0 <= j < rest.len() && rest[j] == k;
                        assert(order[j + 1] == k);
                    }
                }
            }
            if order.to_set().contains(k) || k == key {
                if k != head {
                    if before(key, order[0]) {
                        assert(tail.to_set().contains(k));
                    } else {
                        if k != key {
                            let j = choose|j: int| 0 <= j < order.len() && order[j] == k;
                            assert(order.drop_first()[j - 1] == k);
                            assert(order.drop_first().to_set().contains(k));
                        }
                        assert(tail.to_set().contains(k));
                    }
                    let i = choose|i: int| 0 <= i < tail.len() && tail[i] == k;
                    assert(r[i + 1] == k);
                } else {
                    assert(r[0] == k);
                }
            }
        }
        assert forall|x: int, y: int| 0 <= x < y < r.len() implies before(
            #[trigger] r[x],
            #[trigger] r[y],
        ) by {
            assert(r[y] == tail[y - 1]);
            if x > 0 {
                assert(before(tail[x - 1], tail[y - 1]));
            } else {
                let k = tail[y - 1];
                assert(tail.to_set().contains(k));
                if before(key, order[0]) {
                    if y - 1 > 0 {
                        assert(before(order[0], order[y - 1]));
                        before_transitive(key, order[0], order[y - 1]);
                    }
                } else if k != key {
                    let rest = order.drop_first();
                    assert(rest.to_set().contains(k));
                    let j = choose|j: int| 0 <= j < rest.len() && rest[j] == k;
                    assert(before(order[0], order[j + 1]));
                }
            }
        }
        r
    }
}

/// What the values of a map say.
pub open spec fn values_seen<V: View>(values: Map<Seq<char>, V>) -> Map<Seq<char>, V::V> {
    values.map_values(|v: V| v@)
}

/// Giving a key a value gives it what that value says.
pub proof fn values_seen_insert<V: View>(values: Map<Seq<char>, V>, key: Seq<char>, value: V)
    ensures
        values_seen(values.insert(key, value)) == values_seen(values).insert(key, value@),
{
    assert(values_seen(values.insert(key, value)) =~= values_seen(values).insert(key, value@));
}

// ---------------------------------------------------------------------------------------------
// The first key with a fault

/// The key is the first one with a fault.
pub open spec fn is_first_fault<E>(
    keys: Set<Seq<char>>,
    fault: spec_fn(Seq<char>) -> Option<E>,
    key: Seq<char>,
) -> bool {
    &&& keys.contains(key)
    &&& fault(key) is Some
    &&& forall|other: Seq<char>| #[trigger]
        keys.contains(other) && before(other, key) ==> fault(other) is None
}

/// The fault of the first key that has one.
pub open spec fn first_fault<E>(
    keys: Set<Seq<char>>,
    fault: spec_fn(Seq<char>) -> Option<E>,
) -> Option<E> {
    if exists|key: Seq<char>| is_first_fault(keys, fault, key) {
        fault(choose|key: Seq<char>| is_first_fault(keys, fault, key))
    } else {
        None
    }
}

/// Only one key is the first one with a fault.
pub proof fn first_fault_is<E>(
    keys: Set<Seq<char>>,
    fault: spec_fn(Seq<char>) -> Option<E>,
    key: Seq<char>,
)
    requires
        is_first_fault(keys, fault, key),
    ensures
        first_fault(keys, fault) == fault(key),
{
    let other = choose|key: Seq<char>| is_first_fault(keys, fault, key);
    before_total(key, other);
}

/// Some key is the first one with a fault, where one has a fault.
pub proof fn first_fault_exists<E>(
    keys: Set<Seq<char>>,
    fault: spec_fn(Seq<char>) -> Option<E>,
    key: Seq<char>,
)
    requires
        keys.finite(),
        keys.contains(key),
        fault(key) is Some,
    ensures
        first_fault(keys, fault) is Some,
    decreases keys.filter(|k: Seq<char>| before(k, key) && fault(k) is Some).len(),
{
    let earlier = keys.filter(|k: Seq<char>| before(k, key) && fault(k) is Some);
    if is_first_fault(keys, fault, key) {
        first_fault_is(keys, fault, key);
    } else {
        let k = choose|k: Seq<char>| #[trigger]
            keys.contains(k) && before(k, key) && fault(k) is Some;
        let sooner = keys.filter(|j: Seq<char>| before(j, k) && fault(j) is Some);
        assert(earlier.contains(k));
        before_irreflexive(k);
        assert forall|j: Seq<char>| sooner.contains(j) implies earlier.remove(k).contains(j) by {
            before_transitive(j, k, key);
        }
        vstd::set_lib::lemma_len_subset(sooner, earlier.remove(k));
        first_fault_exists(keys, fault, k);
    }
}

/// Keys that were looked at in order: a fault behind keys without one is the first.
pub proof fn first_in_order<E>(
    order: Seq<Seq<char>>,
    fault: spec_fn(Seq<char>) -> Option<E>,
    i: int,
)
    requires
        ascending(order),
        0 <= i <= order.len(),
        forall|j: int| 0 <= j < i ==> fault(#[trigger] order[j]) is None,
        i < order.len() ==> fault(order[i]) is Some,
    ensures
        first_fault(order.to_set(), fault) == (if i < order.len() {
            fault(order[i])
        } else {
            None
        }),
{
    let keys = order.to_set();
    if i < order.len() {
        assert forall|other: Seq<char>| #[trigger]
            keys.contains(other) && before(other, order[i]) implies fault(other) is None by {
            let j = choose|j: int| 0 <= j < order.len() && order[j] == other;
            before_irreflexive(other);
            if j > i {
                assert(before(order[i], order[j]));
                before_transitive(other, order[i], other);
            }
        }
        assert(order.contains(order[i]));
        first_fault_is(keys, fault, order[i]);
    } else {
        assert forall|key: Seq<char>| !is_first_fault(keys, fault, key) by {
            if keys.contains(key) {
                let j = choose|j: int| 0 <= j < order.len() && order[j] == key;
                assert(fault(order[j]) is None);
            }
        }
    }
}

impl<V> Table<V> {
    /// A table without entries.
    pub fn new() -> (r: Self)
        ensures
            r.rows() == Seq::<Entry<V>>::empty(),
            r@ == Map::<Seq<char>, V>::empty(),
    {
        let r = Table { entries: Vec::new() };
        assert(r@ =~= Map::<Seq<char>, V>::empty());
        r
    }

    /// The number of entries.
    pub fn len(&self) -> (n: usize)
        ensures
            n == self.rows().len(),
    {
        self.entries.len()
    }

    /// The entry at a position.
    pub fn row(&self, i: usize) -> (r: &Entry<V>)
        requires
            i < self.rows().len(),
        ensures
            *r == self.rows()[i as int],
            self@.contains_key(r.key@),
            self@[r.key@] == r.value,
    {
        proof {
            use_type_invariant(self);
            rows_hold_their_values(self.rows());
        }
        &self.entries[i]
    }

    /// The keys, in ascending order.
    pub fn key_list(&self) -> (r: Vec<String>)
        ensures
            texts(r@) == self.keys(),
            texts(r@) == listed(self@.dom()),
            ascending(texts(r@)),
            texts(r@).to_set() == self@.dom(),
    {
        proof {
            use_type_invariant(self);
            rows_hold_the_keys(self.rows());
        }
        let mut r: Vec<String> = Vec::new();
        let mut i: usize = 0;
        while i < self.entries.len()
            invariant
                i <= self.rows().len(),
                texts(r@) == self.keys().take(i as int),
            decreases self.rows().len() - i,
        {
            let ghost so_far = r@;
            r.push(self.entries[i].key.clone());
            assert(texts(r@) =~= texts(so_far).push(self.keys()[i as int]));
            i += 1;
            assert(texts(r@) =~= self.keys().take(i as int));
        }
        assert(texts(r@) =~= self.keys());
        proof {
            ascending_is_listed(texts(r@));
        }
        r
    }

    /// The first position whose key does not come before `key`.
    fn slot(&self, key: &str) -> (i: usize)
        ensures
            i <= self.rows().len(),
            forall|j: int| 0 <= j < i ==> before((#[trigger] self.rows()[j]).key@, key@),
            forall|j: int|
                i <= j < self.rows().len() ==> (#[trigger] self.rows()[j]).key@ == key@ || before(
                    key@,
                    self.rows()[j].key@,
                ),
            i < self.rows().len() && self.rows()[i as int].key@ != key@ ==> !self@.contains_key(key@),
            i == self.rows().len() ==> !self@.contains_key(key@),
    {
        let mut i: usize = 0;
        while i < self.entries.len() && place(self.entries[i].key.as_str(), key) == Place::Before
            invariant
                i <= self.rows().len(),
                forall|j: int| 0 <= j < i ==> before((#[trigger] self.rows()[j]).key@, key@),
            decreases self.rows().len() - i,
        {
            i += 1;
        }
        proof {
            use_type_invariant(self);
            let keys = self.keys();
            assert forall|j: int| i <= j < self.rows().len() implies (
            #[trigger] self.rows()[j]).key@ == key@ || before(key@, self.rows()[j].key@) by {
                before_total(self.rows()[i as int].key@, key@);
                if i < j {
                    assert(before(keys[i as int], keys[j]));
                    if before(key@, keys[i as int]) {
                        before_transitive(key@, keys[i as int], keys[j]);
                    }
                }
            }
            if self@.contains_key(key@) {
                let k = choose|k: int|
                    0 <= k < self.rows().len() && #[trigger] self.rows()[k].key@ == key@;
                before_irreflexive(key@);
                if i < k {
                    assert(before(keys[i as int], keys[k]));
                    before_total(keys[i as int], key@);
                    if before(key@, keys[i as int]) {
                        before_transitive(key@, keys[i as int], key@);
                    }
                }
            }
        }
        i
    }

    /// Whether a key is present.
    pub fn has(&self, key: &str) -> (r: bool)
        ensures
            r == self@.contains_key(key@),
    {
        let i = self.slot(key);
        if i < self.entries.len() && same(self.entries[i].key.as_str(), key) {
            assert(self.rows()[i as int].key@ == key@);
            true
        } else {
            false
        }
    }

    /// The value of a key.
    pub fn get(&self, key: &str) -> (r: Option<&V>)
        ensures
            r is Some <==> self@.contains_key(key@),
            r matches Some(v) ==> *v == self@[key@],
    {
        proof {
            use_type_invariant(self);
            rows_hold_their_values(self.rows());
        }
        let i = self.slot(key);
        if i < self.entries.len() && same(self.entries[i].key.as_str(), key) {
            assert(self.rows()[i as int].key@ == key@);
            Some(&self.entries[i].value)
        } else {
            None
        }
    }

    /// Gives a key a value, in place of the one it had.
    pub fn insert(&mut self, key: String, value: V)
        ensures
            final(self)@ == old(self)@.insert(key@, value),
            old(self)@.contains_key(key@) ==> final(self).keys() == old(self).keys(),
    {
        let i = self.slot(key.as_str());
        proof {
            use_type_invariant(&*self);
            rows_hold_their_values(self.rows());
        }
        let ghost before_rows = self.rows();
        let ghost before_map = self@;
        let present = i < self.entries.len() && same(self.entries[i].key.as_str(), key.as_str());
        let mut entries: Vec<Entry<V>> = Vec::new();
        std::mem::swap(&mut entries, &mut self.entries);
        let ghost the_key = key@;
        let ghost the_value = value;
        if present {
            assert(before_rows[i as int].key@ == the_key);
            let entry = Entry { key, value };
            entries[i] = entry;
            proof {
                let keys = entries@.map_values(|e: Entry<V>| e.key@);
                assert(keys =~= before_rows.map_values(|e: Entry<V>| e.key@));
                rows_hold_their_values(entries@);
            }
        } else {
            let entry = Entry { key, value };
            entries.insert(i, entry);
            proof {
                let old_keys = before_rows.map_values(|e: Entry<V>| e.key@);
                let keys = entries@.map_values(|e: Entry<V>| e.key@);
                assert forall|a: int, b: int| 0 <= a < b < keys.len() implies before(
                    #[trigger] keys[a],
                    #[trigger] keys[b],
                ) by {
                    let oa = if a < i { a } else { a - 1 };
                    let ob = if b < i { b } else { b - 1 };
                    if a != i && b != i {
                        assert(before(old_keys[oa], old_keys[ob]));
                    } else if a == i {
                        assert(before_rows[ob].key@ != the_key) by {
                            if before_rows[ob].key@ == the_key {
                                assert(before_map.contains_key(the_key));
                            }
                        }
                    } else {
                        assert(before(before_rows[oa].key@, the_key));
                    }
                }
                rows_hold_their_values(entries@);
            }
        }
        proof {
            let rows = entries@;
            let target = before_map.insert(the_key, the_value);
            assert forall|k: Seq<char>| rows_map(rows).contains_key(k) == target.contains_key(k) by {
                if target.contains_key(k) {
                    if k == the_key {
                        assert(rows[i as int].key@ == k);
                    } else {
                        let j = choose|j: int|
                            0 <= j < before_rows.len() && #[trigger] before_rows[j].key@ == k;
                        if present || j < i {
                            assert(rows[j].key@ == k);
                        } else {
                            assert(rows[j + 1].key@ == k);
                        }
                    }
                }
                if rows_map(rows).contains_key(k) {
                    let j = choose|j: int| 0 <= j < rows.len() && #[trigger] rows[j].key@ == k;
                    if j != i {
                        if present || j < i {
                            assert(before_rows[j].key@ == k);
                        } else {
                            assert(before_rows[j - 1].key@ == k);
                        }
                    }
                }
            }
            assert forall|k: Seq<char>| #[trigger]
                rows_map(rows).contains_key(k) implies rows_map(rows)[k] == target[k] by {
                let j = choose|j: int| 0 <= j < rows.len() && #[trigger] rows[j].key@ == k;
                if j == i {
                    assert(rows[i as int].key@ == the_key);
                } else if present || j < i {
                    assert(before_rows[j].key@ == k);
                } else {
                    assert(before_rows[j - 1].key@ == k);
                }
            }
            assert(rows_map(rows) =~= target);
        }
        self.entries = entries;
        proof {
            if present {
                assert(self.keys() =~= before_rows.map_values(|e: Entry<V>| e.key@));
            }
        }
    }
}

} // verus!
