//! The typed key-value store a trading machine carries across ticks.

use vstd::prelude::*;
use crate::decimal::Decimal;

verus! {

/// No two entries share a key.
spec fn keys_distinct<V>(items: Seq<(String, V)>) -> bool {
    forall|i: int, j: int|
        0 <= i < j < items.len() ==> (#[trigger] items[i]).0@ != (#[trigger] items[j]).0@
}

/// Some entry has the key `key`.
spec fn holds_key<V>(items: Seq<(String, V)>, key: Seq<char>) -> bool {
    exists|i: int| 0 <= i < items.len() && (#[trigger] items[i]).0@ == key
}

/// Where the entry with the key `key` stands.
spec fn position_of<V>(items: Seq<(String, V)>, key: Seq<char>) -> int {
    choose|i: int| 0 <= i < items.len() && (#[trigger] items[i]).0@ == key
}

/// The mapping that the entries stand for.
spec fn as_map<V>(items: Seq<(String, V)>) -> Map<Seq<char>, V> {
    Map::new(|k: Seq<char>| holds_key(items, k), |k: Seq<char>| items[position_of(items, k)].1)
}

/// With distinct keys, the entry at `i` is the one its key maps to.
proof fn lemma_entry_maps<V>(items: Seq<(String, V)>, i: int)
    requires
        keys_distinct(items),
        0 <= i < items.len(),
    ensures
        holds_key(items, items[i].0@),
        position_of(items, items[i].0@) == i,
        as_map(items).contains_key(items[i].0@),
        as_map(items)[items[i].0@] == items[i].1,
{
    let k = items[i].0@;
    let p = position_of(items, k);
    assert(0 <= p < items.len() && items[p].0@ == k);
    if p < i {
        assert(items[p].0@ != items[i].0@);
    } else if i < p {
        assert(items[i].0@ != items[p].0@);
    }
}

/// A key that no entry has is not mapped.
proof fn lemma_absent<V>(items: Seq<(String, V)>, key: Seq<char>)
    requires
        forall|i: int| 0 <= i < items.len() ==> (#[trigger] items[i]).0@ != key,
    ensures
        !as_map(items).contains_key(key),
{
}

/// Where `key` stands among `items`, if it stands there.
fn find_key<V>(items: &Vec<(String, V)>, key: &String) -> (found: Option<usize>)
    ensures
        match found {
            Some(i) => i < items@.len() && items@[i as int].0@ == key@,
            None => forall|i: int| 0 <= i < items@.len() ==> (#[trigger] items@[i]).0@ != key@,
        },
{
    let mut i: usize = 0;
    while i < items.len()
        invariant
            i <= items@.len(),
            forall|k: int| 0 <= k < i ==> (#[trigger] items@[k]).0@ != key@,
        decreases items@.len() - i,
    {
        if items[i].0 == *key {
            return Some(i);
        }
        i = i + 1;
    }
    None
}

/// A mapping from text keys to values of one kind. Keys are unique; the order
/// of the entries carries no meaning.
#[derive(Debug)]
pub struct ValueTable<V> {
    items: Vec<(String, V)>,
}

impl<V> View for ValueTable<V> {
    type V = Map<Seq<char>, V>;

    closed spec fn view(&self) -> Map<Seq<char>, V> {
        as_map(self.items@)
    }
}

impl<V> ValueTable<V> {
    #[verifier::type_invariant]
    closed spec fn keys_are_unique(&self) -> bool {
        keys_distinct(self.items@)
    }

    /// How many entries the table holds.
    pub closed spec fn count(&self) -> nat {
        self.items@.len()
    }

    /// The entries in the order in which the table walks them: every mapped
    /// key once, with its value.
    pub closed spec fn entries(&self) -> Seq<(String, V)> {
        self.items@
    }

    /// The key of the entry at `index`.
    pub closed spec fn key_of(&self, index: int) -> Seq<char> {
        self.items@[index].0@
    }

    /// An empty table.
    pub fn new() -> (table: ValueTable<V>)
        ensures
            table@ == Map::<Seq<char>, V>::empty(),
            table.count() == 0,
    {
        let table = ValueTable { items: Vec::new() };
        assert(table@ =~= Map::<Seq<char>, V>::empty());
        table
    }

    /// Maps `key` to `value`, in place of whatever `key` was mapped to.
    pub fn insert(&mut self, key: String, value: V)
        ensures
            final(self)@ == old(self)@.insert(key@, value),
    {
        proof {
            use_type_invariant(&*self);
        }
        let mut items: Vec<(String, V)> = Vec::new();
        std::mem::swap(&mut items, &mut self.items);
        let ghost before = items@;
        let ghost k = key@;
        match find_key(&items, &key) {
            Some(i) => {
                items.set(i, (key, value));
                proof {
                    let after = items@;
                    assert(keys_distinct(after)) by {
                        assert forall|a: int, b: int| 0 <= a < b < after.len() implies (
                        #[trigger] after[a]).0@ != (#[trigger] after[b]).0@ by {
                            assert(before[a].0@ != before[b].0@);
                        }
                    }
                    assert forall|q: Seq<char>| #[trigger]
                        as_map(after).contains_key(q) <==> as_map(before).insert(
                            k,
                            value,
                        ).contains_key(q) by {
                        if holds_key(after, q) {
                            let p = position_of(after, q);
                            assert(before[p].0@ == q);
                        }
                        if holds_key(before, q) {
                            let p = position_of(before, q);
                            assert(after[p].0@ == q);
                        }
                        if q == k {
                            assert(after[i as int].0@ == q);
                        }
                    }
                    assert forall|q: Seq<char>| #[trigger]
                        as_map(after).contains_key(q) implies as_map(after)[q] == as_map(
                        before,
                    ).insert(k, value)[q] by {
                        let p = position_of(after, q);
                        lemma_entry_maps(after, p);
                        if p != i {
                            assert(before[p].0@ == q);
                            lemma_entry_maps(before, p);
                        }
                    }
                    assert(as_map(after) =~= as_map(before).insert(k, value));
                }
            },
            None => {
                items.push((key, value));
                proof {
                    let after = items@;
                    let n = before.len() as int;
                    assert(keys_distinct(after)) by {
                        assert forall|a: int, b: int| 0 <= a < b < after.len() implies (
                        #[trigger] after[a]).0@ != (#[trigger] after[b]).0@ by {
                            if b < n {
                                assert(before[a].0@ != before[b].0@);
                            } else {
                                assert(before[a].0@ != k);
                            }
                        }
                    }
                    assert forall|q: Seq<char>| #[trigger]
                        as_map(after).contains_key(q) <==> as_map(before).insert(
                            k,
                            value,
                        ).contains_key(q) by {
                        if holds_key(after, q) {
                            let p = position_of(after, q);
                            if p < n {
                                assert(before[p].0@ == q);
                            }
                        }
                        if holds_key(before, q) {
                            let p = position_of(before, q);
                            assert(after[p].0@ == q);
                        }
                        if q == k {
                            assert(after[n].0@ == q);
                        }
                    }
                    assert forall|q: Seq<char>| #[trigger]
                        as_map(after).contains_key(q) implies as_map(after)[q] == as_map(
                        before,
                    ).insert(k, value)[q] by {
                        let p = position_of(after, q);
                        lemma_entry_maps(after, p);
                        if p < n {
                            assert(before[p].0@ == q);
                            lemma_entry_maps(before, p);
                        }
                    }
                    assert(as_map(after) =~= as_map(before).insert(k, value));
                }
            },
        }
        self.items = items;
    }

    /// The value `key` is mapped to.
    pub fn get(&self, key: &str) -> (value: Option<&V>)
        ensures
            value == if self@.contains_key(key@) {
                Some(&self@[key@])
            } else {
                None
            },
    {
        proof {
            use_type_invariant(self);
        }
        let owned = key.to_owned();
        match find_key(&self.items, &owned) {
            Some(i) => {
                proof {
                    lemma_entry_maps(self.items@, i as int);
                }
                Some(&self.items[i].1)
            },
            None => {
                proof {
                    lemma_absent(self.items@, key@);
                }
                None
            },
        }
    }

    /// True when `key` is mapped.
    pub fn contains_key(&self, key: &str) -> (present: bool)
        ensures
            present == self@.contains_key(key@),
    {
        self.get(key).is_some()
    }

    /// Unmaps `key` and hands back what it was mapped to.
    pub fn remove(&mut self, key: &str) -> (value: Option<V>)
        ensures
            final(self)@ == old(self)@.remove(key@),
            value == if old(self)@.contains_key(key@) {
                Some(old(self)@[key@])
            } else {
                None
            },
    {
        proof {
            use_type_invariant(&*self);
        }
        let mut items: Vec<(String, V)> = Vec::new();
        std::mem::swap(&mut items, &mut self.items);
        let ghost before = items@;
        let ghost k = key@;
        let owned = key.to_owned();
        let value = match find_key(&items, &owned) {
            Some(i) => {
                proof {
                    lemma_entry_maps(before, i as int);
                }
                let entry = items.remove(i);
                proof {
                    let after = items@;
                    assert forall|a: int| 0 <= a < after.len() implies #[trigger] after[a]
                        == before[if a < i {
                        a
                    } else {
                        a + 1
                    }] by {}
                    assert(keys_distinct(after)) by {
                        assert forall|a: int, b: int| 0 <= a < b < after.len() implies (
                        #[trigger] after[a]).0@ != (#[trigger] after[b]).0@ by {
                            let a0 = if a < i {
                                a
                            } else {
                                a + 1
                            };
                            let b0 = if b < i {
                                b
                            } else {
                                b + 1
                            };
                            assert(before[a0].0@ != before[b0].0@);
                        }
                    }
                    assert forall|q: Seq<char>| #[trigger]
                        as_map(after).contains_key(q) <==> as_map(before).remove(k).contains_key(
                            q,
                        ) by {
                        if holds_key(after, q) {
                            let p = position_of(after, q);
                            let p0 = if p < i {
                                p
                            } else {
                                p + 1
                            };
                            assert(before[p0].0@ == q);
                            if q == k {
                                if p0 < i {
                                    assert(before[p0].0@ != before[i as int].0@);
                                } else {
                                    assert(before[i as int].0@ != before[p0].0@);
                                }
                            }
                        }
                        if holds_key(before, q) && q != k {
                            let p = position_of(before, q);
                            let p1 = if p < i {
                                p
                            } else {
                                p - 1
                            };
                            assert(after[p1].0@ == q);
                        }
                    }
                    assert forall|q: Seq<char>| #[trigger]
                        as_map(after).contains_key(q) implies as_map(after)[q] == as_map(
                        before,
                    ).remove(k)[q] by {
                        let p = position_of(after, q);
                        lemma_entry_maps(after, p);
                        let p0 = if p < i {
                            p
                        } else {
                            p + 1
                        };
                        assert(before[p0].0@ == q);
                        lemma_entry_maps(before, p0);
                    }
                    assert(as_map(after) =~= as_map(before).remove(k));
                }
                Some(entry.1)
            },
            None => {
                proof {
                    lemma_absent(before, k);
                    assert(as_map(before) =~= as_map(before).remove(k));
                }
                None
            },
        };
        self.items = items;
        value
    }

    /// How many keys are mapped. Every mapped key stands at exactly one
    /// index below that number.
    pub fn len(&self) -> (n: usize)
        ensures
            n == self.count(),
            (n == 0) == (self@ == Map::<Seq<char>, V>::empty()),
            forall|k: Seq<char>| #[trigger]
                self@.contains_key(k) ==> 0 <= self.index_of(k) < n && self.key_of(
                    self.index_of(k),
                ) == k,
            forall|i: int, j: int|
                0 <= i < j < n ==> #[trigger] self.key_of(i) != #[trigger] self.key_of(j),
    {
        proof {
            use_type_invariant(self);
            if self.items@.len() == 0 {
                assert(self@ =~= Map::<Seq<char>, V>::empty());
            } else {
                lemma_entry_maps(self.items@, 0);
            }
        }
        self.items.len()
    }

    /// The index at which the mapped key `key` stands.
    pub closed spec fn index_of(&self, key: Seq<char>) -> int {
        position_of(self.items@, key)
    }

    /// True when no key is mapped.
    pub fn is_empty(&self) -> (empty: bool)
        ensures
            empty == (self@ == Map::<Seq<char>, V>::empty()),
    {
        self.len() == 0
    }

    /// Unmaps every key.
    pub fn clear(&mut self)
        ensures
            final(self)@ == Map::<Seq<char>, V>::empty(),
    {
        self.items = Vec::new();
        assert(self@ =~= Map::<Seq<char>, V>::empty());
    }

    /// An iterator over the entries. Every mapped key comes once, with its
    /// value; the order carries no meaning.
    pub fn iter(&self) -> (entries: std::slice::Iter<'_, (String, V)>)
        ensures
            vstd::std_specs::iter::IteratorSpec::remaining(&entries) == self.entries().as_ref(),
            self.entries().len() == self.count(),
            forall|i: int|
                0 <= i < self.count() ==> (#[trigger] self.entries()[i]).0@ == self.key_of(i)
                    && self@.contains_key(self.key_of(i)) && self@[self.key_of(i)]
                    == self.entries()[i].1,
    {
        broadcast use vstd::std_specs::slice::axiom_spec_slice_iter;

        proof {
            use_type_invariant(self);
            assert forall|i: int| 0 <= i < self.items@.len() implies self@.contains_key(
                (#[trigger] self.items@[i]).0@,
            ) && self@[self.items@[i].0@] == self.items@[i].1 by {
                lemma_entry_maps(self.items@, i);
            }
        }
        self.items.as_slice().iter()
    }

    /// The entry at `index`, for walking the table; every mapped key stands
    /// at exactly one index below `len()`.
    pub fn entry(&self, index: usize) -> (entry: Option<(&String, &V)>)
        ensures
            entry is Some <==> index < self.count(),
            entry is Some ==> entry.unwrap().0@ == self.key_of(index as int)
                && self@.contains_key(entry.unwrap().0@)
                && self@[entry.unwrap().0@] == *entry.unwrap().1,
    {
        if index < self.items.len() {
            proof {
                use_type_invariant(self);
                lemma_entry_maps(self.items@, index as int);
            }
            Some((&self.items[index].0, &self.items[index].1))
        } else {
            None
        }
    }
}

impl<V: Copy> ValueTable<V> {
    /// A copy with the same mapping.
    pub fn duplicate(&self) -> (copy: ValueTable<V>)
        ensures
            copy@ == self@,
            copy.count() == self.count(),
    {
        proof {
            use_type_invariant(self);
        }
        let n = self.items.len();
        let mut items: Vec<(String, V)> = Vec::new();
        let mut i: usize = 0;
        while i < n
            invariant
                i <= n,
                n == self.items@.len(),
                items@ == self.items@.subrange(0, i as int),
            decreases n - i,
        {
            items.push((self.items[i].0.clone(), self.items[i].1));
            assert(items@ =~= self.items@.subrange(0, i + 1));
            i = i + 1;
        }
        assert(items@ =~= self.items@);
        ValueTable { items }
    }
}

impl ValueTable<String> {
    /// A copy with the same mapping.
    pub fn duplicate_text(&self) -> (copy: ValueTable<String>)
        ensures
            copy@ == self@,
            copy.count() == self.count(),
    {
        proof {
            use_type_invariant(self);
        }
        let n = self.items.len();
        let mut items: Vec<(String, String)> = Vec::new();
        let mut i: usize = 0;
        while i < n
            invariant
                i <= n,
                n == self.items@.len(),
                items@ == self.items@.subrange(0, i as int),
            decreases n - i,
        {
            items.push((self.items[i].0.clone(), self.items[i].1.clone()));
            assert(items@ =~= self.items@.subrange(0, i + 1));
            i = i + 1;
        }
        assert(items@ =~= self.items@);
        ValueTable { items }
    }
}

/// The key under which the latest close is kept.
pub open spec fn latest_price_key() -> Seq<char> {
    "latest_price"@
}

/// The key under which the latest bar's time is kept.
pub open spec fn latest_timestamp_key() -> Seq<char> {
    "latest_timestamp"@
}

/// Values of four kinds under text keys. Keys are unique within a kind, and
/// the same key may be used in several kinds.
#[derive(Debug)]
pub struct Context {
    pub strings: ValueTable<String>,
    pub numbers: ValueTable<Decimal>,
    pub integers: ValueTable<i64>,
    pub booleans: ValueTable<bool>,
}

/// What a [`Context`] holds: one mapping for each kind of value.
pub struct ContextView {
    pub strings: Map<Seq<char>, String>,
    pub numbers: Map<Seq<char>, Decimal>,
    pub integers: Map<Seq<char>, i64>,
    pub booleans: Map<Seq<char>, bool>,
}

impl ContextView {
    /// The context with nothing in it.
    pub open spec fn blank() -> ContextView {
        ContextView {
            strings: Map::empty(),
            numbers: Map::empty(),
            integers: Map::empty(),
            booleans: Map::empty(),
        }
    }

    /// The context after a bar's close and time are recorded.
    pub open spec fn with_latest(self, price: Decimal, timestamp: i64) -> ContextView {
        ContextView {
            numbers: self.numbers.insert(latest_price_key(), price),
            integers: self.integers.insert(latest_timestamp_key(), timestamp),
            ..self
        }
    }
}

impl View for Context {
    type V = ContextView;

    open spec fn view(&self) -> ContextView {
        ContextView {
            strings: self.strings@,
            numbers: self.numbers@,
            integers: self.integers@,
            booleans: self.booleans@,
        }
    }
}

/// A kind of value that a [`Context`] can hold.
pub trait ContextValue: Sized {
    /// The mapping of this kind inside `ctx`.
    spec fn table_in(ctx: &Context) -> Map<Seq<char>, Self>;

    /// The mappings of the other kinds are the same in `before` and `after`.
    spec fn others_kept(before: &Context, after: &Context) -> bool;

    /// Maps `key` to a copy of `self` in the mapping of this kind.
    fn insert_into(&self, key: &str, ctx: &mut Context)
        ensures
            Self::table_in(final(ctx)) == Self::table_in(old(ctx)).insert(key@, *self),
            Self::others_kept(old(ctx), final(ctx)),
    ;

    /// What `key` is mapped to in the mapping of this kind.
    fn get_from<'a>(key: &str, ctx: &'a Context) -> (value: Option<&'a Self>)
        ensures
            value == if Self::table_in(ctx).contains_key(key@) {
                Some(&Self::table_in(ctx)[key@])
            } else {
                None
            },
    ;

    /// Unmaps `key` in the mapping of this kind.
    fn remove_from(key: &str, ctx: &mut Context) -> (value: Option<Self>)
        ensures
            Self::table_in(final(ctx)) == Self::table_in(old(ctx)).remove(key@),
            Self::others_kept(old(ctx), final(ctx)),
            value == if Self::table_in(old(ctx)).contains_key(key@) {
                Some(Self::table_in(old(ctx))[key@])
            } else {
                None
            },
    ;
}

impl ContextValue for String {
    open spec fn table_in(ctx: &Context) -> Map<Seq<char>, String> {
        ctx.strings@
    }

    open spec fn others_kept(before: &Context, after: &Context) -> bool {
        &&& after.numbers@ == before.numbers@
        &&& after.integers@ == before.integers@
        &&& after.booleans@ == before.booleans@
    }

    fn insert_into(&self, key: &str, ctx: &mut Context) {
        ctx.strings.insert(key.to_owned(), self.clone());
    }

    fn get_from<'a>(key: &str, ctx: &'a Context) -> (value: Option<&'a String>) {
        ctx.strings.get(key)
    }

    fn remove_from(key: &str, ctx: &mut Context) -> (value: Option<String>) {
        ctx.strings.remove(key)
    }
}

impl ContextValue for Decimal {
    open spec fn table_in(ctx: &Context) -> Map<Seq<char>, Decimal> {
        ctx.numbers@
    }

    open spec fn others_kept(before: &Context, after: &Context) -> bool {
        &&& after.strings@ == before.strings@
        &&& after.integers@ == before.integers@
        &&& after.booleans@ == before.booleans@
    }

    fn insert_into(&self, key: &str, ctx: &mut Context) {
        ctx.numbers.insert(key.to_owned(), *self);
    }

    fn get_from<'a>(key: &str, ctx: &'a Context) -> (value: Option<&'a Decimal>) {
        ctx.numbers.get(key)
    }

    fn remove_from(key: &str, ctx: &mut Context) -> (value: Option<Decimal>) {
        ctx.numbers.remove(key)
    }
}

impl ContextValue for i64 {
    open spec fn table_in(ctx: &Context) -> Map<Seq<char>, i64> {
        ctx.integers@
    }

    open spec fn others_kept(before: &Context, after: &Context) -> bool {
        &&& after.strings@ == before.strings@
        &&& after.numbers@ == before.numbers@
        &&& after.booleans@ == before.booleans@
    }

    fn insert_into(&self, key: &str, ctx: &mut Context) {
        ctx.integers.insert(key.to_owned(), *self);
    }

    fn get_from<'a>(key: &str, ctx: &'a Context) -> (value: Option<&'a i64>) {
        ctx.integers.get(key)
    }

    fn remove_from(key: &str, ctx: &mut Context) -> (value: Option<i64>) {
        ctx.integers.remove(key)
    }
}

impl ContextValue for bool {
    open spec fn table_in(ctx: &Context) -> Map<Seq<char>, bool> {
        ctx.booleans@
    }

    open spec fn others_kept(before: &Context, after: &Context) -> bool {
        &&& after.strings@ == before.strings@
        &&& after.numbers@ == before.numbers@
        &&& after.integers@ == before.integers@
    }

    fn insert_into(&self, key: &str, ctx: &mut Context) {
        ctx.booleans.insert(key.to_owned(), *self);
    }

    fn get_from<'a>(key: &str, ctx: &'a Context) -> (value: Option<&'a bool>) {
        ctx.booleans.get(key)
    }

    fn remove_from(key: &str, ctx: &mut Context) -> (value: Option<bool>) {
        ctx.booleans.remove(key)
    }
}

impl Context {
    /// No key is mapped in any kind.
    pub open spec fn is_blank(&self) -> bool {
        self@ == ContextView::blank()
    }

    /// A context with nothing in it.
    pub fn new() -> (ctx: Context)
        ensures
            ctx.is_blank(),
    {
        Context {
            strings: ValueTable::new(),
            numbers: ValueTable::new(),
            integers: ValueTable::new(),
            booleans: ValueTable::new(),
        }
    }

    /// Maps `key` to `value` within the kind of `value`.
    pub fn set<T: ContextValue>(&mut self, key: &str, value: T)
        ensures
            T::table_in(final(self)) == T::table_in(old(self)).insert(key@, value),
            T::others_kept(old(self), final(self)),
    {
        value.insert_into(key, self);
    }

    /// What `key` is mapped to within the kind `T`.
    pub fn get<T: ContextValue>(&self, key: &str) -> (value: Option<&T>)
        ensures
            value == if T::table_in(self).contains_key(key@) {
                Some(&T::table_in(self)[key@])
            } else {
                None
            },
    {
        T::get_from(key, self)
    }

    /// Unmaps `key` within the kind `T` and hands back its value.
    pub fn remove<T: ContextValue>(&mut self, key: &str) -> (value: Option<T>)
        ensures
            T::table_in(final(self)) == T::table_in(old(self)).remove(key@),
            T::others_kept(old(self), final(self)),
            value == if T::table_in(old(self)).contains_key(key@) {
                Some(T::table_in(old(self))[key@])
            } else {
                None
            },
    {
        T::remove_from(key, self)
    }

    /// True when no key is mapped in any kind.
    pub fn is_empty(&self) -> (empty: bool)
        ensures
            empty == self.is_blank(),
    {
        self.strings.is_empty() && self.numbers.is_empty() && self.integers.is_empty()
            && self.booleans.is_empty()
    }

    /// Unmaps every key of every kind.
    pub fn clear(&mut self)
        ensures
            final(self).is_blank(),
    {
        self.strings.clear();
        self.numbers.clear();
        self.integers.clear();
        self.booleans.clear();
    }

    /// An iterator over the numbers.
    pub fn iter_numbers(&self) -> (entries: std::slice::Iter<'_, (String, Decimal)>)
        ensures
            vstd::std_specs::iter::IteratorSpec::remaining(&entries)
                == self.numbers.entries().as_ref(),
    {
        self.numbers.iter()
    }

    /// An iterator over the strings.
    pub fn iter_strings(&self) -> (entries: std::slice::Iter<'_, (String, String)>)
        ensures
            vstd::std_specs::iter::IteratorSpec::remaining(&entries)
                == self.strings.entries().as_ref(),
    {
        self.strings.iter()
    }

    /// An iterator over the integers.
    pub fn iter_integers(&self) -> (entries: std::slice::Iter<'_, (String, i64)>)
        ensures
            vstd::std_specs::iter::IteratorSpec::remaining(&entries)
                == self.integers.entries().as_ref(),
    {
        self.integers.iter()
    }

    /// An iterator over the booleans.
    pub fn iter_booleans(&self) -> (entries: std::slice::Iter<'_, (String, bool)>)
        ensures
            vstd::std_specs::iter::IteratorSpec::remaining(&entries)
                == self.booleans.entries().as_ref(),
    {
        self.booleans.iter()
    }

    /// Records the latest close under "latest_price".
    pub fn set_latest_price(&mut self, price: Decimal)
        ensures
            final(self).numbers@ == old(self).numbers@.insert(latest_price_key(), price),
            final(self).strings@ == old(self).strings@,
            final(self).integers@ == old(self).integers@,
            final(self).booleans@ == old(self).booleans@,
    {
        self.set("latest_price", price);
    }

    /// The close recorded under "latest_price".
    pub fn latest_price(&self) -> (price: Option<Decimal>)
        ensures
            price == if self.numbers@.contains_key(latest_price_key()) {
                Some(self.numbers@[latest_price_key()])
            } else {
                None
            },
    {
        match self.get::<Decimal>("latest_price") {
            Some(price) => Some(*price),
            None => None,
        }
    }

    /// Records the latest bar's time under "latest_timestamp".
    pub fn set_latest_timestamp(&mut self, timestamp: i64)
        ensures
            final(self).integers@ == old(self).integers@.insert(latest_timestamp_key(), timestamp),
            final(self).strings@ == old(self).strings@,
            final(self).numbers@ == old(self).numbers@,
            final(self).booleans@ == old(self).booleans@,
    {
        self.set("latest_timestamp", timestamp);
    }

    /// The time recorded under "latest_timestamp".
    pub fn latest_timestamp(&self) -> (timestamp: Option<i64>)
        ensures
            timestamp == if self.integers@.contains_key(latest_timestamp_key()) {
                Some(self.integers@[latest_timestamp_key()])
            } else {
                None
            },
    {
        match self.get::<i64>("latest_timestamp") {
            Some(timestamp) => Some(*timestamp),
            None => None,
        }
    }
}

impl Clone for Context {
    fn clone(&self) -> (copy: Self)
        ensures
            copy@ == self@,
    {
        Context {
            strings: self.strings.duplicate_text(),
            numbers: self.numbers.duplicate(),
            integers: self.integers.duplicate(),
            booleans: self.booleans.duplicate(),
        }
    }
}

} // verus!
