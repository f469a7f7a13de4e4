//! A small verified association table.
//!
//! The engine's keyed state — risk parameters, positions, balances, pools —
//! lives in tables of key/value pairs. Lookup returns the first entry with
//! the given key; an update rewrites that entry in place, or appends one.
//! The spec functions `table_get` and `table_set` are the mathematical
//! account every contract speaks in.

use vstd::prelude::*;

verus! {

/// Executable equality that agrees with mathematical equality.
pub trait KeyEq: Sized + Copy {
    /// Decide `self == other`.
    fn key_eq(self, other: Self) -> (r: bool)
        ensures
            r <==> self == other,
    ;
}

impl KeyEq for crate::currency::CurrencyId {
    fn key_eq(self, other: Self) -> (r: bool) {
        self == other
    }
}

impl KeyEq for crate::currency::AccountCurrency {
    fn key_eq(self, other: Self) -> (r: bool) {
        self == other
    }
}

/// The value stored under `key`, if any: first match wins.
pub open spec fn table_get<K, V>(s: Seq<(K, V)>, key: K) -> Option<V>
    decreases s.len(),
{
    if s.len() <= 0 {
        None
    } else if s[0].0 == key {
        Some(s[0].1)
    } else {
        table_get(s.drop_first(), key)
    }
}

/// The table after binding `key` to `v`: the first entry with `key` is
/// rewritten in place, or a new entry is appended at the end.
pub open spec fn table_set<K, V>(s: Seq<(K, V)>, key: K, v: V) -> Seq<(K, V)>
    decreases s.len(),
{
    if s.len() <= 0 {
        seq![(key, v)]
    } else if s[0].0 == key {
        seq![(key, v)] + s.drop_first()
    } else {
        seq![s[0]] + table_set(s.drop_first(), key, v)
    }
}

/// After an update, the updated key reads back the new value.
pub proof fn lemma_table_get_set_same<K, V>(s: Seq<(K, V)>, key: K, v: V)
    ensures
        table_get(table_set(s, key, v), key) == Some(v),
    decreases s.len(),
{
    if s.len() == 0 {
        assert(table_set(s, key, v)[0] == (key, v));
    } else if s[0].0 == key {
        assert(table_set(s, key, v)[0] == (key, v));
    } else {
        lemma_table_get_set_same(s.drop_first(), key, v);
        let t = table_set(s, key, v);
        assert(t[0] == s[0]);
        assert(t.drop_first() =~= table_set(s.drop_first(), key, v));
    }
}

/// After an update, every other key reads what it read before.
pub proof fn lemma_table_get_set_other<K, V>(s: Seq<(K, V)>, key: K, v: V, other: K)
    requires
        other != key,
    ensures
        table_get(table_set(s, key, v), other) == table_get(s, other),
    decreases s.len(),
{
    if s.len() == 0 {
        let t = table_set(s, key, v);
        assert(t[0] == (key, v));
        assert(t.drop_first() =~= Seq::<(K, V)>::empty());
        assert(table_get(Seq::<(K, V)>::empty(), other) == None::<V>);
    } else if s[0].0 == key {
        let t = table_set(s, key, v);
        assert(t[0] == (key, v));
        assert(t.drop_first() =~= s.drop_first());
    } else {
        lemma_table_get_set_other(s.drop_first(), key, v, other);
        let t = table_set(s, key, v);
        assert(t[0] == s[0]);
        assert(t.drop_first() =~= table_set(s.drop_first(), key, v));
    }
}

/// Rebinding a key to the value it already holds changes nothing.
pub proof fn lemma_table_set_unchanged<K, V>(s: Seq<(K, V)>, key: K, v: V)
    requires
        table_get(s, key) == Some(v),
    ensures
        table_set(s, key, v) == s,
    decreases s.len(),
{
    if s.len() == 0 {
    } else if s[0].0 == key {
        assert(s[0] == (key, s[0].1));
        assert(table_set(s, key, v) =~= s);
    } else {
        lemma_table_set_unchanged(s.drop_first(), key, v);
        assert(table_set(s, key, v) =~= s);
    }
}

/// An in-place rewrite at the first matching index is exactly `table_set`.
proof fn lemma_table_set_at_index<K, V>(s: Seq<(K, V)>, i: int, key: K, v: V)
    requires
        0 <= i < s.len(),
        s[i].0 == key,
        forall|j: int| 0 <= j < i ==> (#[trigger] s[j]).0 != key,
    ensures
        table_set(s, key, v) == s.update(i, (key, v)),
    decreases i,
{
    if i == 0 {
        assert(table_set(s, key, v) =~= s.update(0, (key, v)));
    } else {
        assert(s[0].0 != key);
        let d = s.drop_first();
        assert(d[i - 1].0 == key);
        assert(forall|j: int| 0 <= j < i - 1 ==> (#[trigger] d[j]).0 != key);
        lemma_table_set_at_index(d, i - 1, key, v);
        assert(table_set(s, key, v) =~= s.update(i, (key, v)));
    }
}

/// Appending a fresh key is exactly `table_set`.
proof fn lemma_table_set_absent<K, V>(s: Seq<(K, V)>, key: K, v: V)
    requires
        forall|j: int| 0 <= j < s.len() ==> (#[trigger] s[j]).0 != key,
    ensures
        table_set(s, key, v) == s.push((key, v)),
    decreases s.len(),
{
    if s.len() == 0 {
        assert(table_set(s, key, v) =~= s.push((key, v)));
    } else {
        lemma_table_set_absent(s.drop_first(), key, v);
        assert(table_set(s, key, v) =~= s.push((key, v)));
    }
}

/// A keyed store of copyable values.
pub struct Table<K, V> {
    /// The entries, first match authoritative.
    pub entries: Vec<(K, V)>,
}

impl<K: KeyEq, V: Copy> Table<K, V> {
    /// An empty table.
    pub fn new() -> (r: Self)
        ensures
            r.entries@ == Seq::<(K, V)>::empty(),
    {
        Table { entries: Vec::new() }
    }

    /// Look `key` up.
    pub fn get(&self, key: K) -> (r: Option<V>)
        ensures
            r == table_get(self.entries@, key),
    {
        let n = self.entries.len();
        let mut i: usize = 0;
        proof {
            assert(self.entries@.skip(0) =~= self.entries@);
        }
        while i < n
            invariant
                i <= n,
                n == self.entries@.len(),
                table_get(self.entries@, key) == table_get(
                    self.entries@.skip(i as int),
                    key,
                ),
            decreases n - i,
        {
            let e = self.entries[i];
            proof {
                assert(self.entries@.skip(i as int)[0] == self.entries@[i as int]);
            }
            if e.0.key_eq(key) {
                return Some(e.1);
            }
            proof {
                assert(self.entries@.skip(i as int).drop_first() =~= self.entries@.skip(
                    i as int + 1,
                ));
            }
            i = i + 1;
        }
        proof {
            assert(self.entries@.skip(n as int) =~= Seq::<(K, V)>::empty());
        }
        None
    }

    /// Bind `key` to `v`.
    pub fn set(&mut self, key: K, v: V)
        ensures
            final(self).entries@ == table_set(old(self).entries@, key, v),
    {
        let n = self.entries.len();
        let mut i: usize = 0;
        while i < n
            invariant
                i <= n,
                n == self.entries@.len(),
                self.entries@ == old(self).entries@,
                forall|j: int| 0 <= j < i ==> (#[trigger] self.entries@[j]).0 != key,
            decreases n - i,
        {
            let e = self.entries[i];
            if e.0.key_eq(key) {
                self.entries[i] = (key, v);
                proof {
                    lemma_table_set_at_index(old(self).entries@, i as int, key, v);
                }
                return;
            }
            i = i + 1;
        }
        self.entries.push((key, v));
        proof {
            lemma_table_set_absent(old(self).entries@, key, v);
        }
    }
}

} // verus!
