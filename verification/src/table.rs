//! A table keyed by address, kept in the ascending order of the keys' bytes: the
//! order in which a key-value store hands its entries out.

use crate::bytes::{
    bytes_eq, bytes_lt, lemma_lex_asymmetric, lemma_lex_total, lemma_lex_transitive, lex_lt,
};
use vstd::prelude::*;
use vstd::utf8::*;

verus! {

/// The bytes by which a key is ordered: its UTF-8 encoding.
pub open spec fn key_bytes(k: Seq<char>) -> Seq<u8> {
    encode_utf8(k)
}

/// The keys of `s` ascend strictly.
pub open spec fn ascending<V>(s: Seq<(Seq<char>, V)>) -> bool {
    forall|i: int, j: int|
        0 <= i < j < s.len() ==> lex_lt(key_bytes(#[trigger] s[i].0), key_bytes(#[trigger] s[j].0))
}

/// An entry of `s` has the key `k`.
pub open spec fn has_key<V>(s: Seq<(Seq<char>, V)>, k: Seq<char>) -> bool {
    exists|i: int| 0 <= i < s.len() && (#[trigger] s[i]).0 == k
}

/// The position of the entry of `s` with the key `k`.
pub open spec fn index_of<V>(s: Seq<(Seq<char>, V)>, k: Seq<char>) -> int {
    choose|i: int| 0 <= i < s.len() && (#[trigger] s[i]).0 == k
}

/// The value that `s` holds under `k`.
pub open spec fn value_of<V>(s: Seq<(Seq<char>, V)>, k: Seq<char>) -> V {
    s[index_of(s, k)].1
}

/// `r` parts the keys of `s` into those before `k` and those after it.
pub open spec fn parts_at<V>(s: Seq<(Seq<char>, V)>, k: Seq<char>, r: int) -> bool {
    &&& 0 <= r <= s.len()
    &&& forall|i: int| 0 <= i < r ==> lex_lt(key_bytes((#[trigger] s[i]).0), key_bytes(k))
    &&& forall|i: int| r <= i < s.len() ==> lex_lt(key_bytes(k), key_bytes((#[trigger] s[i]).0))
}

/// The number of keys of `s` that come before `k`, where `s` lacks `k`.
pub open spec fn rank<V>(s: Seq<(Seq<char>, V)>, k: Seq<char>) -> int {
    choose|r: int| parts_at(s, k, r)
}

/// `s` with `v` under `k`: in place of the old value, or at the key's place in
/// the order.
pub open spec fn put<V>(s: Seq<(Seq<char>, V)>, k: Seq<char>, v: V) -> Seq<(Seq<char>, V)> {
    if has_key(s, k) {
        s.update(index_of(s, k), (k, v))
    } else {
        s.insert(rank(s, k), (k, v))
    }
}

/// `s` without the entry of `k`.
pub open spec fn del<V>(s: Seq<(Seq<char>, V)>, k: Seq<char>) -> Seq<(Seq<char>, V)> {
    if has_key(s, k) {
        s.remove(index_of(s, k))
    } else {
        s
    }
}

/// Different keys have different bytes.
pub proof fn lemma_key_bytes_injective(a: Seq<char>, b: Seq<char>)
    requires
        key_bytes(a) == key_bytes(b),
    ensures
        a == b,
{
    encode_utf8_decode_utf8(a);
    encode_utf8_decode_utf8(b);
}

/// In an ascending sequence a key stands at one position only.
pub proof fn lemma_index_unique<V>(s: Seq<(Seq<char>, V)>, k: Seq<char>, i: int)
    requires
        ascending(s),
        0 <= i < s.len(),
        s[i].0 == k,
    ensures
        has_key(s, k),
        index_of(s, k) == i,
        value_of(s, k) == s[i].1,
{
    let j = index_of(s, k);
    if j < i {
        lemma_lex_asymmetric(key_bytes(s[j].0), key_bytes(s[i].0));
    }
    if i < j {
        lemma_lex_asymmetric(key_bytes(s[i].0), key_bytes(s[j].0));
    }
}

/// A key that `s` lacks has one place in the order.
pub proof fn lemma_rank_unique<V>(s: Seq<(Seq<char>, V)>, k: Seq<char>, r: int)
    requires
        parts_at(s, k, r),
    ensures
        rank(s, k) == r,
        !has_key(s, k),
{
    let q = rank(s, k);
    if q < r {
        lemma_lex_asymmetric(key_bytes(s[q].0), key_bytes(k));
    }
    if r < q {
        lemma_lex_asymmetric(key_bytes(s[r].0), key_bytes(k));
    }
    if has_key(s, k) {
        let i = index_of(s, k);
        if i < r {
            lemma_lex_asymmetric(key_bytes(s[i].0), key_bytes(k));
        } else {
            lemma_lex_asymmetric(key_bytes(k), key_bytes(s[i].0));
        }
    }
}

/// What `put` does to the order and to each key.
pub proof fn lemma_put<V>(s: Seq<(Seq<char>, V)>, k: Seq<char>, v: V)
    requires
        ascending(s),
    ensures
        ascending(put(s, k, v)),
        has_key(put(s, k, v), k),
        value_of(put(s, k, v), k) == v,
        put(s, k, v).len() == if has_key(s, k) {
            s.len()
        } else {
            s.len() + 1
        },
        forall|o: Seq<char>|
            o != k ==> has_key(put(s, k, v), o) == has_key(s, o) && (has_key(s, o) ==> value_of(
                put(s, k, v),
                o,
            ) == value_of(s, o)),
{
    let t = put(s, k, v);
    if has_key(s, k) {
        let p = index_of(s, k);
        assert(ascending(t)) by {
            assert forall|i: int, j: int| 0 <= i < j < t.len() implies lex_lt(
                key_bytes(#[trigger] t[i].0),
                key_bytes(#[trigger] t[j].0),
            ) by {
                assert(t[i].0 == s[i].0);
                assert(t[j].0 == s[j].0);
            }
        }
        assert(t[p].0 == k);
        lemma_index_unique(t, k, p);
        assert forall|o: Seq<char>| o != k implies has_key(t, o) == has_key(s, o) && (has_key(
            s,
            o,
        ) ==> value_of(t, o) == value_of(s, o)) by {
            if has_key(s, o) {
                let i = index_of(s, o);
                assert(t[i] == s[i]);
                lemma_index_unique(t, o, i);
            }
            if has_key(t, o) {
                let i = index_of(t, o);
                assert(s[i] == t[i]);
            }
        }
    } else {
        lemma_parts_exist(s, k);
        let r = rank(s, k);
        assert(ascending(t)) by {
            assert forall|i: int, j: int| 0 <= i < j < t.len() implies lex_lt(
                key_bytes(#[trigger] t[i].0),
                key_bytes(#[trigger] t[j].0),
            ) by {
                if j < r {
                    assert(t[i] == s[i] && t[j] == s[j]);
                } else if j == r {
                    assert(t[i] == s[i]);
                } else if i < r {
                    assert(t[i] == s[i] && t[j] == s[j - 1]);
                } else if i == r {
                    assert(t[j] == s[j - 1]);
                } else {
                    assert(t[i] == s[i - 1] && t[j] == s[j - 1]);
                }
            }
        }
        assert(t[r].0 == k);
        lemma_index_unique(t, k, r);
        assert forall|o: Seq<char>| o != k implies has_key(t, o) == has_key(s, o) && (has_key(
            s,
            o,
        ) ==> value_of(t, o) == value_of(s, o)) by {
            if has_key(s, o) {
                let i = index_of(s, o);
                let i2 = if i < r {
                    i
                } else {
                    i + 1
                };
                assert(t[i2] == s[i]);
                lemma_index_unique(t, o, i2);
            }
            if has_key(t, o) {
                let i = index_of(t, o);
                let i2 = if i < r {
                    i
                } else {
                    i - 1
                };
                assert(s[i2] == t[i]);
            }
        }
    }
}

/// A key that an ascending sequence lacks has a place in its order.
pub proof fn lemma_parts_exist<V>(s: Seq<(Seq<char>, V)>, k: Seq<char>)
    requires
        ascending(s),
        !has_key(s, k),
    ensures
        parts_at(s, k, rank(s, k)),
{
    lemma_parts_from(s, k, 0);
}

/// Walks `s` from `r` on until the keys come after `k`.
proof fn lemma_parts_from<V>(s: Seq<(Seq<char>, V)>, k: Seq<char>, r: int)
    requires
        ascending(s),
        !has_key(s, k),
        0 <= r <= s.len(),
        forall|i: int| 0 <= i < r ==> lex_lt(key_bytes((#[trigger] s[i]).0), key_bytes(k)),
    ensures
        exists|q: int| parts_at(s, k, q),
        parts_at(s, k, rank(s, k)),
    decreases s.len() - r,
{
    if r == s.len() {
        assert(parts_at(s, k, r));
    } else if lex_lt(key_bytes(s[r].0), key_bytes(k)) {
        lemma_parts_from(s, k, r + 1);
    } else {
        lemma_after(s, k, r);
        assert(parts_at(s, k, r));
    }
}

/// Where the key at `r` is neither `k` nor before it, `k` is before all from `r` on.
proof fn lemma_after<V>(s: Seq<(Seq<char>, V)>, k: Seq<char>, r: int)
    requires
        ascending(s),
        0 <= r < s.len(),
        s[r].0 != k,
        !lex_lt(key_bytes(s[r].0), key_bytes(k)),
    ensures
        forall|i: int| r <= i < s.len() ==> lex_lt(key_bytes(k), key_bytes((#[trigger] s[i]).0)),
{
    lemma_lex_total(key_bytes(s[r].0), key_bytes(k));
    if key_bytes(s[r].0) == key_bytes(k) {
        lemma_key_bytes_injective(s[r].0, k);
    }
    assert forall|i: int| r <= i < s.len() implies lex_lt(
        key_bytes(k),
        key_bytes((#[trigger] s[i]).0),
    ) by {
        if r < i {
            lemma_lex_transitive(key_bytes(k), key_bytes(s[r].0), key_bytes(s[i].0));
        }
    }
}

/// What `del` does to the order and to each key.
pub proof fn lemma_del<V>(s: Seq<(Seq<char>, V)>, k: Seq<char>)
    requires
        ascending(s),
    ensures
        ascending(del(s, k)),
        !has_key(del(s, k), k),
        forall|o: Seq<char>|
            o != k ==> has_key(del(s, k), o) == has_key(s, o) && (has_key(s, o) ==> value_of(
                del(s, k),
                o,
            ) == value_of(s, o)),
{
    let t = del(s, k);
    if has_key(s, k) {
        let p = index_of(s, k);
        assert(ascending(t)) by {
            assert forall|i: int, j: int| 0 <= i < j < t.len() implies lex_lt(
                key_bytes(#[trigger] t[i].0),
                key_bytes(#[trigger] t[j].0),
            ) by {
                let i2 = if i < p {
                    i
                } else {
                    i + 1
                };
                let j2 = if j < p {
                    j
                } else {
                    j + 1
                };
                assert(t[i] == s[i2] && t[j] == s[j2]);
            }
        }
        if has_key(t, k) {
            let i = index_of(t, k);
            let i2 = if i < p {
                i
            } else {
                i + 1
            };
            assert(s[i2] == t[i]);
            lemma_index_unique(s, k, i2);
        }
        assert forall|o: Seq<char>| o != k implies has_key(t, o) == has_key(s, o) && (has_key(
            s,
            o,
        ) ==> value_of(t, o) == value_of(s, o)) by {
            if has_key(s, o) {
                let i = index_of(s, o);
                let i2 = if i < p {
                    i
                } else {
                    i - 1
                };
                assert(t[i2] == s[i]);
                lemma_index_unique(t, o, i2);
            }
            if has_key(t, o) {
                let i = index_of(t, o);
                let i2 = if i < p {
                    i
                } else {
                    i + 1
                };
                assert(s[i2] == t[i]);
            }
        }
    }
}

/// Whether two texts hold the same characters.
pub fn str_eq(a: &str, b: &str) -> (res: bool)
    ensures
        res == (a@ == b@),
{
    let res = bytes_eq(a.as_bytes(), b.as_bytes());
    proof {
        if res {
            lemma_key_bytes_injective(a@, b@);
        }
    }
    res
}

/// Whether `a` comes before `b` in the order of the keys.
pub fn str_lt(a: &str, b: &str) -> (res: bool)
    ensures
        res == lex_lt(key_bytes(a@), key_bytes(b@)),
{
    bytes_lt(a.as_bytes(), b.as_bytes())
}

/// A table from addresses to values of `V`, in the ascending order of the
/// addresses' bytes.
#[derive(Debug, PartialEq, Eq)]
pub struct Table<V: View> {
    entries: Vec<(String, V)>,
}

impl<V: View> View for Table<V> {
    type V = Seq<(Seq<char>, V::V)>;

    closed spec fn view(&self) -> Seq<(Seq<char>, V::V)> {
        self.entries@.map_values(|e: (String, V)| (e.0@, e.1@))
    }
}

impl<V: View> Table<V> {
    #[verifier::type_invariant]
    spec fn ordered(self) -> bool {
        ascending(self@)
    }

    /// The table without entries.
    pub fn new() -> (t: Self)
        ensures
            t@ == Seq::<(Seq<char>, V::V)>::empty(),
    {
        let t = Table { entries: Vec::new() };
        assert(t@ =~= Seq::<(Seq<char>, V::V)>::empty());
        t
    }

    /// The number of entries. Their keys ascend strictly.
    pub fn len(&self) -> (n: usize)
        ensures
            n == self@.len(),
            ascending(self@),
    {
        proof {
            use_type_invariant(self);
        }
        self.entries.len()
    }

    /// Recalls that the keys of a table ascend strictly.
    pub fn recall_order(&self)
        ensures
            ascending(self@),
    {
        proof {
            use_type_invariant(self);
        }
    }

    /// The key of the entry at `i`.
    pub fn key(&self, i: usize) -> (k: &String)
        requires
            i < self@.len(),
        ensures
            k@ == self@[i as int].0,
    {
        &self.entries[i].0
    }

    /// The value of the entry at `i`.
    pub fn value(&self, i: usize) -> (v: &V)
        requires
            i < self@.len(),
        ensures
            v@ == self@[i as int].1,
    {
        &self.entries[i].1
    }

    /// The position of the entry with the key `key`, if there is one.
    pub fn position(&self, key: &str) -> (res: Option<usize>)
        ensures
            res is Some == has_key(self@, key@),
            res matches Some(i) ==> i == index_of(self@, key@) && i < self@.len(),
    {
        proof {
            use_type_invariant(self);
        }
        let mut i: usize = 0;
        while i < self.entries.len()
            invariant
                i <= self@.len(),
                self@.len() == self.entries@.len(),
                forall|j: int| 0 <= j < i ==> (#[trigger] self@[j]).0 != key@,
                ascending(self@),
            decreases self@.len() - i,
        {
            if str_eq(self.entries[i].0.as_str(), key) {
                proof {
                    lemma_index_unique(self@, key@, i as int);
                }
                return Some(i);
            }
            i = i + 1;
        }
        None
    }

    /// Whether the table has an entry with the key `key`.
    pub fn contains(&self, key: &str) -> (res: bool)
        ensures
            res == has_key(self@, key@),
    {
        self.position(key).is_some()
    }

    /// The value under `key`, if there is one.
    pub fn get(&self, key: &str) -> (res: Option<&V>)
        ensures
            res is Some == has_key(self@, key@),
            res matches Some(v) ==> v@ == value_of(self@, key@),
    {
        match self.position(key) {
            Some(i) => Some(&self.entries[i].1),
            None => None,
        }
    }

    /// Puts `value` under `key`, in place of the value that was there if any.
    pub fn insert(&mut self, key: String, value: V)
        ensures
            final(self)@ == put(old(self)@, key@, value@),
    {
        proof {
            use_type_invariant(&*self);
        }
        let ghost before = self@;
        let mut entries: Vec<(String, V)> = Vec::new();
        std::mem::swap(&mut entries, &mut self.entries);
        assert(entries@.map_values(|e: (String, V)| (e.0@, e.1@)) == before);
        let mut p: usize = 0;
        while p < entries.len() && str_lt(entries[p].0.as_str(), key.as_str())
            invariant
                p <= entries@.len(),
                before == entries@.map_values(|e: (String, V)| (e.0@, e.1@)),
                forall|j: int|
                    0 <= j < p ==> lex_lt(key_bytes((#[trigger] before[j]).0), key_bytes(key@)),
            decreases entries@.len() - p,
        {
            p = p + 1;
        }
        let ghost k = key@;
        let ghost val = value@;
        if p < entries.len() && str_eq(entries[p].0.as_str(), key.as_str()) {
            proof {
                lemma_index_unique(before, k, p as int);
            }
            entries.set(p, (key, value));
        } else {
            proof {
                if p < before.len() {
                    lemma_after(before, k, p as int);
                }
                assert(parts_at(before, k, p as int));
                lemma_rank_unique(before, k, p as int);
            }
            entries.insert(p, (key, value));
        }
        assert(entries@.map_values(|e: (String, V)| (e.0@, e.1@)) =~= put(before, k, val));
        proof {
            lemma_put(before, k, val);
        }
        self.entries = entries;
    }

    /// Takes the entry of `key` out, if there is one.
    pub fn remove(&mut self, key: &str)
        ensures
            final(self)@ == del(old(self)@, key@),
    {
        proof {
            use_type_invariant(&*self);
        }
        let ghost before = self@;
        match self.position(key) {
            Some(i) => {
                let mut entries: Vec<(String, V)> = Vec::new();
                std::mem::swap(&mut entries, &mut self.entries);
                assert(entries@.map_values(|e: (String, V)| (e.0@, e.1@)) == before);
                let _ = entries.remove(i);
                assert(entries@.map_values(|e: (String, V)| (e.0@, e.1@)) =~= del(before, key@));
                proof {
                    lemma_del(before, key@);
                }
                self.entries = entries;
            },
            None => {},
        }
    }

    /// Puts `value` in place of the value of the entry at `i`.
    pub fn set_value(&mut self, i: usize, value: V)
        requires
            i < old(self)@.len(),
        ensures
            final(self)@ == old(self)@.update(i as int, (old(self)@[i as int].0, value@)),
    {
        proof {
            use_type_invariant(&*self);
        }
        let ghost before = self@;
        let mut entries: Vec<(String, V)> = Vec::new();
        std::mem::swap(&mut entries, &mut self.entries);
        assert(entries@.map_values(|e: (String, V)| (e.0@, e.1@)) == before);
        let ghost val = value@;
        let (key, _) = entries.remove(i);
        entries.insert(i, (key, value));
        let ghost after = before.update(i as int, (before[i as int].0, val));
        assert(entries@.map_values(|e: (String, V)| (e.0@, e.1@)) =~= after);
        assert(ascending(after)) by {
            assert forall|a: int, b: int| 0 <= a < b < after.len() implies lex_lt(
                key_bytes(#[trigger] after[a].0),
                key_bytes(#[trigger] after[b].0),
            ) by {
                assert(after[a].0 == before[a].0);
                assert(after[b].0 == before[b].0);
            }
        }
        self.entries = entries;
    }

    /// The keys in their order.
    pub fn keys(&self) -> (out: Vec<String>)
        ensures
            out@.len() == self@.len(),
            forall|i: int| 0 <= i < out@.len() ==> (#[trigger] out@[i])@ == self@[i].0,
    {
        let mut out: Vec<String> = Vec::new();
        let mut i: usize = 0;
        while i < self.entries.len()
            invariant
                i <= self.entries@.len(),
                self@.len() == self.entries@.len(),
                out@.len() == i,
                forall|j: int| 0 <= j < i ==> (#[trigger] out@[j])@ == self@[j].0,
            decreases self.entries@.len() - i,
        {
            out.push(self.entries[i].0.clone());
            i = i + 1;
        }
        out
    }
}

impl<V: View + Clone> Clone for Table<V> {
    /// A table with the same keys, each with a clone of its value.
    fn clone(&self) -> (t: Self)
        ensures
            t@.len() == self@.len(),
            forall|i: int| 0 <= i < self@.len() ==> (#[trigger] t@[i]).0 == self@[i].0,
    {
        proof {
            use_type_invariant(self);
        }
        let mut entries: Vec<(String, V)> = Vec::new();
        let mut i: usize = 0;
        while i < self.entries.len()
            invariant
                i <= self.entries@.len(),
                entries@.len() == i,
                forall|j: int| 0 <= j < i ==> (#[trigger] entries@[j]).0@ == self.entries@[j].0@,
            decreases self.entries@.len() - i,
        {
            entries.push((self.entries[i].0.clone(), self.entries[i].1.clone()));
            i = i + 1;
        }
        let ghost view = entries@.map_values(|e: (String, V)| (e.0@, e.1@));
        assert forall|a: int, b: int| 0 <= a < b < view.len() implies lex_lt(
            key_bytes(#[trigger] view[a].0),
            key_bytes(#[trigger] view[b].0),
        ) by {
            assert(view[a].0 == self@[a].0);
            assert(view[b].0 == self@[b].0);
        }
        Table { entries }
    }
}

impl Table<String> {
    /// A table with the same entries.
    pub fn duplicate(&self) -> (t: Table<String>)
        ensures
            t@ == self@,
    {
        proof {
            use_type_invariant(self);
        }
        let mut entries: Vec<(String, String)> = Vec::new();
        let mut i: usize = 0;
        while i < self.entries.len()
            invariant
                i <= self.entries@.len(),
                entries@.len() == i,
                forall|j: int|
                    0 <= j < i ==> (#[trigger] entries@[j]).0@ == self.entries@[j].0@ && entries@[j].1@
                        == self.entries@[j].1@,
            decreases self.entries@.len() - i,
        {
            entries.push((self.entries[i].0.clone(), self.entries[i].1.clone()));
            i = i + 1;
        }
        assert(entries@.map_values(|e: (String, String)| (e.0@, e.1@)) =~= self@);
        Table { entries }
    }
}

} // verus!
