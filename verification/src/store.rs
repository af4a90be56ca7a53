//! The shared in-memory key/value mapping.

use vstd::prelude::*;

verus! {

/// One key/value pair held by the store.
struct Entry {
    key: String,
    value: Vec<u8>,
}

/// Whether some entry of `s` carries the key `k`.
spec fn has_key(s: Seq<Entry>, k: Seq<char>) -> bool {
    exists|i: int| 0 <= i < s.len() && s[i].key@ == k
}

/// The position of the entry carrying key `k` (meaningful when the keys are
/// distinct and `k` is present).
spec fn key_index(s: Seq<Entry>, k: Seq<char>) -> int {
    choose|i: int| 0 <= i < s.len() && s[i].key@ == k
}

/// The value stored under key `k`.
spec fn value_of(s: Seq<Entry>, k: Seq<char>) -> Seq<u8> {
    s[key_index(s, k)].value@
}

/// No two entries carry the same key.
spec fn distinct_keys(s: Seq<Entry>) -> bool {
    forall|i: int, j: int| 0 <= i < j < s.len() ==> s[i].key@ != s[j].key@
}

/// The single source of truth for all key/value state: a mapping from
/// UTF-8 string keys to opaque byte-sequence values. One instance is shared
/// by every connection; the embedding program guards it with a
/// mutual-exclusion discipline and holds the lock only across a single
/// `get` or `set`, never across I/O.
pub struct Store {
    entries: Vec<Entry>,
}

impl View for Store {
    type V = Map<Seq<char>, Seq<u8>>;

    closed spec fn view(&self) -> Map<Seq<char>, Seq<u8>> {
        Map::new(
            |k: Seq<char>| has_key(self.entries@, k),
            |k: Seq<char>| value_of(self.entries@, k),
        )
    }
}

impl Store {
    /// The store's internal invariant: keys are unique, so the entry list
    /// denotes a mapping.
    pub closed spec fn wf(&self) -> bool {
        distinct_keys(self.entries@)
    }

    /// An empty store, created once at process start.
    pub fn new() -> (s: Store)
        ensures
            s.wf(),
            s@ == Map::<Seq<char>, Seq<u8>>::empty(),
    {
        let s = Store { entries: Vec::new() };
        proof {
            assert(s@ =~= Map::<Seq<char>, Seq<u8>>::empty());
        }
        s
    }

    /// The current value for `key`, or `None` if the key is absent.
    /// Total: no error conditions.
    pub fn get(&self, key: &String) -> (r: Option<Vec<u8>>)
        requires
            self.wf(),
        ensures
            match r {
                Some(v) => self@.contains_key(key@) && v@ == self@[key@],
                None => !self@.contains_key(key@),
            },
    {
        let n = self.entries.len();
        let mut i: usize = 0;
        while i < n
            invariant
                self.wf(),
                n == self.entries.len(),
                i <= n,
                forall|j: int| 0 <= j < i ==> self.entries@[j].key@ != key@,
            decreases n - i,
        {
            if self.entries[i].key == *key {
                let v = copy_bytes(&self.entries[i].value);
                proof {
                    assert(has_key(self.entries@, key@));
                    let t = key_index(self.entries@, key@);
                    assert(0 <= t < self.entries@.len() && self.entries@[t].key@ == key@);
                    lemma_index_unique(self.entries@, key@, t, i as int);
                }
                return Some(v);
            }
            i += 1;
        }
        proof {
            assert(!has_key(self.entries@, key@));
        }
        None
    }

    /// Insert or overwrite the value for `key`, unconditionally. Total:
    /// always succeeds. The change is visible to every later reader of the
    /// same store.
    pub fn set(&mut self, key: String, value: Vec<u8>)
        requires
            old(self).wf(),
        ensures
            final(self).wf(),
            final(self)@ == old(self)@.insert(key@, value@),
    {
        let n = self.entries.len();
        let mut i: usize = 0;
        while i < n
            invariant
                self.entries@ == old(self).entries@,
                old(self).wf(),
                n == self.entries.len(),
                i <= n,
                forall|j: int| 0 <= j < i ==> self.entries@[j].key@ != key@,
            decreases n - i,
        {
            if self.entries[i].key == key {
                let ghost pre = self.entries@;
                self.entries.set(i, Entry { key, value });
                proof {
                    lemma_update_view(pre, self.entries@, i as int, key@, value@);
                    assert(self@ =~= old(self)@.insert(key@, value@));
                }
                return;
            }
            i += 1;
        }
        let ghost pre = self.entries@;
        self.entries.push(Entry { key, value });
        proof {
            lemma_push_view(pre, self.entries@, key@, value@);
            assert(self@ =~= old(self)@.insert(key@, value@));
        }
    }
}

/// Replacing the entry at `i` (whose key is already `k`) with a `k -> v`
/// entry keeps the keys distinct and keeps every other key's value.
proof fn lemma_update_view(pre: Seq<Entry>, post: Seq<Entry>, i: int, k: Seq<char>, v: Seq<u8>)
    requires
        distinct_keys(pre),
        0 <= i < pre.len(),
        pre[i].key@ == k,
        post.len() == pre.len(),
        post[i].key@ == k,
        post[i].value@ == v,
        forall|j: int| 0 <= j < pre.len() && j != i ==> post[j] == pre[j],
    ensures
        distinct_keys(post),
        forall|k2: Seq<char>| has_key(post, k2) <==> (has_key(pre, k2) || k2 == k),
        value_of(post, k) == v,
        forall|k2: Seq<char>|
            k2 != k && has_key(pre, k2) ==> value_of(post, k2) == value_of(pre, k2),
{
    assert forall|j: int| 0 <= j < post.len() implies post[j].key@ == pre[j].key@ by {}
    assert forall|k2: Seq<char>| has_key(pre, k2) implies has_key(post, k2) by {
        let t = choose|t: int| 0 <= t < pre.len() && pre[t].key@ == k2;
        assert(post[t].key@ == k2);
    }
    assert forall|k2: Seq<char>| has_key(post, k2) implies has_key(pre, k2) by {
        let t = choose|t: int| 0 <= t < post.len() && post[t].key@ == k2;
        assert(pre[t].key@ == k2);
    }
    assert(value_of(post, k) == v) by {
        let t = key_index(post, k);
        assert(post[i].key@ == k);
        assert(0 <= t < post.len() && post[t].key@ == k);
        lemma_index_unique(post, k, t, i);
    }
    assert forall|k2: Seq<char>|
        k2 != k && has_key(pre, k2) implies value_of(post, k2) == value_of(pre, k2) by {
        let tp = key_index(pre, k2);
        assert(0 <= tp < pre.len() && pre[tp].key@ == k2);
        assert(tp != i);
        assert(post[tp].key@ == k2);
        let tq = key_index(post, k2);
        assert(0 <= tq < post.len() && post[tq].key@ == k2);
        lemma_index_unique(post, k2, tq, tp);
    }
}

/// Appending a `k -> v` entry to a list whose keys avoid `k` keeps the keys
/// distinct, adds `k`, and keeps every other key's value.
proof fn lemma_push_view(pre: Seq<Entry>, post: Seq<Entry>, k: Seq<char>, v: Seq<u8>)
    requires
        distinct_keys(pre),
        forall|j: int| 0 <= j < pre.len() ==> pre[j].key@ != k,
        post.len() == pre.len() + 1,
        post[pre.len() as int].key@ == k,
        post[pre.len() as int].value@ == v,
        forall|j: int| 0 <= j < pre.len() ==> post[j] == pre[j],
    ensures
        distinct_keys(post),
        forall|k2: Seq<char>| has_key(post, k2) <==> (has_key(pre, k2) || k2 == k),
        value_of(post, k) == v,
        forall|k2: Seq<char>|
            k2 != k && has_key(pre, k2) ==> value_of(post, k2) == value_of(pre, k2),
{
    let last = pre.len() as int;
    assert forall|k2: Seq<char>| has_key(pre, k2) implies has_key(post, k2) by {
        let t = choose|t: int| 0 <= t < pre.len() && pre[t].key@ == k2;
        assert(post[t].key@ == k2);
    }
    assert forall|k2: Seq<char>| has_key(post, k2) && k2 != k implies has_key(pre, k2) by {
        let t = choose|t: int| 0 <= t < post.len() && post[t].key@ == k2;
        assert(t != last);
        assert(pre[t].key@ == k2);
    }
    assert(has_key(post, k)) by {
        assert(post[last].key@ == k);
    }
    assert(value_of(post, k) == v) by {
        let t = key_index(post, k);
        assert(0 <= t < post.len() && post[t].key@ == k);
        lemma_index_unique(post, k, t, last);
    }
    assert forall|k2: Seq<char>|
        k2 != k && has_key(pre, k2) implies value_of(post, k2) == value_of(pre, k2) by {
        let tp = key_index(pre, k2);
        assert(0 <= tp < pre.len() && pre[tp].key@ == k2);
        assert(post[tp].key@ == k2);
        let tq = key_index(post, k2);
        assert(0 <= tq < post.len() && post[tq].key@ == k2);
        lemma_index_unique(post, k2, tq, tp);
    }
}

/// With distinct keys, two positions carrying the same key coincide.
proof fn lemma_index_unique(s: Seq<Entry>, k: Seq<char>, i: int, j: int)
    requires
        distinct_keys(s),
        0 <= i < s.len(),
        0 <= j < s.len(),
        s[i].key@ == k,
        s[j].key@ == k,
    ensures
        i == j,
{
}

/// An owned copy of a byte vector, element by element.
fn copy_bytes(v: &Vec<u8>) -> (r: Vec<u8>)
    ensures
        r@ == v@,
{
    let n = v.len();
    let mut r: Vec<u8> = Vec::new();
    let mut i: usize = 0;
    while i < n
        invariant
            n == v.len(),
            i <= n,
            r@ == v@.take(i as int),
        decreases n - i,
    {
        r.push(v[i]);
        proof {
            assert(v@.take(i as int).push(v@[i as int]) =~= v@.take(i as int + 1));
        }
        i += 1;
    }
    proof {
        assert(v@.take(n as int) =~= v@);
    }
    r
}

} // verus!
