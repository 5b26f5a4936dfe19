//! The `key = value` entries of a configuration document: a map from key
//! to value, kept sorted by key the way a `BTreeMap<String, String>` orders
//! them (by character, compared by code point).

use vstd::prelude::*;

verus! {

/// One key and its value, as characters.
pub type Pair = (Seq<char>, Seq<char>);

/// `a` sorts strictly before `b`: at the first position where they differ
/// `a` has the smaller character, or `a` is a proper prefix of `b`.
pub open spec fn key_lt(a: Seq<char>, b: Seq<char>) -> bool
    decreases a.len(),
{
    if b.len() == 0 {
        false
    } else if a.len() == 0 {
        true
    } else if a[0] != b[0] {
        a[0] < b[0]
    } else {
        key_lt(a.drop_first(), b.drop_first())
    }
}

/// Keys strictly increasing, so no key occurs twice.
pub open spec fn sorted(ps: Seq<Pair>) -> bool {
    forall|i: int, j: int| 0 <= i < j < ps.len() ==> key_lt(#[trigger] ps[i].0, #[trigger] ps[j].0)
}

/// `ps` with `k` mapped to `v`: the pair for `k` replaced if there is one,
/// else a new pair placed before the first larger key.
pub open spec fn insert_sorted(ps: Seq<Pair>, k: Seq<char>, v: Seq<char>) -> Seq<Pair>
    decreases ps.len(),
{
    if ps.len() == 0 {
        seq![(k, v)]
    } else if ps[0].0 == k {
        ps.update(0, (k, v))
    } else if key_lt(k, ps[0].0) {
        seq![(k, v)] + ps
    } else {
        seq![ps[0]] + insert_sorted(ps.drop_first(), k, v)
    }
}

/// The value `ps` holds for `k`.
pub open spec fn lookup(ps: Seq<Pair>, k: Seq<char>) -> Option<Seq<char>>
    decreases ps.len(),
{
    if ps.len() == 0 {
        None
    } else if ps[0].0 == k {
        Some(ps[0].1)
    } else {
        lookup(ps.drop_first(), k)
    }
}

/// `ps` without any pair for `k`.
pub open spec fn remove_key(ps: Seq<Pair>, k: Seq<char>) -> Seq<Pair>
    decreases ps.len(),
{
    if ps.len() == 0 {
        ps
    } else if ps[0].0 == k {
        remove_key(ps.drop_first(), k)
    } else {
        seq![ps[0]] + remove_key(ps.drop_first(), k)
    }
}

/// `key_lt` never holds of a key and itself.
pub proof fn lemma_key_lt_irreflexive(a: Seq<char>)
    ensures
        !key_lt(a, a),
    decreases a.len(),
{
    if a.len() > 0 {
        lemma_key_lt_irreflexive(a.drop_first());
    }
}

/// `key_lt` is transitive.
pub proof fn lemma_key_lt_transitive(a: Seq<char>, b: Seq<char>, c: Seq<char>)
    requires
        key_lt(a, b),
        key_lt(b, c),
    ensures
        key_lt(a, c),
    decreases a.len(),
{
    if a.len() > 0 && b.len() > 0 && c.len() > 0 && a[0] == b[0] && b[0] == c[0] {
        lemma_key_lt_transitive(a.drop_first(), b.drop_first(), c.drop_first());
    }
}

/// Two different keys are ordered one way or the other.
pub proof fn lemma_key_lt_total(a: Seq<char>, b: Seq<char>)
    requires
        a != b,
    ensures
        key_lt(a, b) || key_lt(b, a),
    decreases a.len(),
{
    if a.len() > 0 && b.len() > 0 && a[0] == b[0] {
        if a.drop_first() == b.drop_first() {
            assert(a =~= seq![a[0]] + a.drop_first());
            assert(b =~= seq![b[0]] + b.drop_first());
        }
        lemma_key_lt_total(a.drop_first(), b.drop_first());
    } else if a.len() == 0 && b.len() == 0 {
        assert(a =~= b);
    }
}

/// `key_lt` never holds both ways.
pub proof fn lemma_key_lt_asymmetric(a: Seq<char>, b: Seq<char>)
    requires
        key_lt(a, b),
    ensures
        !key_lt(b, a),
{
    if key_lt(b, a) {
        lemma_key_lt_transitive(a, b, a);
        lemma_key_lt_irreflexive(a);
    }
}

/// Inserting into a sorted sequence keeps it sorted, and the key then maps
/// to the new value.
pub proof fn lemma_insert_sorted(ps: Seq<Pair>, k: Seq<char>, v: Seq<char>)
    requires
        sorted(ps),
    ensures
        sorted(insert_sorted(ps, k, v)),
        forall|p: Pair| #[trigger] insert_sorted(ps, k, v).contains(p) ==> p == (k, v) || ps.contains(p),
        insert_sorted(ps, k, v).contains((k, v)),
    decreases ps.len(),
{
    let r = insert_sorted(ps, k, v);
    if ps.len() == 0 {
        assert(r[0] == (k, v));
    } else if ps[0].0 == k {
        assert(r[0] == (k, v));
        assert forall|p: Pair| #[trigger] r.contains(p) implies p == (k, v) || ps.contains(p) by {
            let i = choose|i: int| 0 <= i < r.len() && r[i] == p;
            if i > 0 {
                assert(ps[i] == p);
            }
        }
    } else if key_lt(k, ps[0].0) {
        assert(r[0] == (k, v));
        assert forall|i: int, j: int| 0 <= i < j < r.len() implies key_lt(#[trigger] r[i].0, #[trigger] r[j].0) by {
            if i == 0 {
                if j > 1 {
                    lemma_key_lt_transitive(k, ps[0].0, ps[j - 1].0);
                }
            } else {
                assert(r[i] == ps[i - 1] && r[j] == ps[j - 1]);
            }
        }
        assert forall|p: Pair| #[trigger] r.contains(p) implies p == (k, v) || ps.contains(p) by {
            let i = choose|i: int| 0 <= i < r.len() && r[i] == p;
            if i > 0 {
                assert(ps[i - 1] == p);
            }
        }
    } else {
        let rest = ps.drop_first();
        assert(sorted(rest)) by {
            assert forall|i: int, j: int| 0 <= i < j < rest.len() implies key_lt(#[trigger] rest[i].0, #[trigger] rest[j].0) by {
                assert(rest[i] == ps[i + 1] && rest[j] == ps[j + 1]);
            }
        }
        lemma_insert_sorted(rest, k, v);
        let tail = insert_sorted(rest, k, v);
        lemma_key_lt_total(k, ps[0].0);
        assert(key_lt(ps[0].0, k));
        assert forall|i: int, j: int| 0 <= i < j < r.len() implies key_lt(#[trigger] r[i].0, #[trigger] r[j].0) by {
            if i == 0 {
                assert(r[j] == tail[j - 1]);
                assert(tail.contains(tail[j - 1]));
                if tail[j - 1] != (k, v) {
                    let m = choose|m: int| 0 <= m < ps.len() && ps[m] == tail[j - 1];
                    assert(rest.contains(tail[j - 1]));
                    let m2 = choose|m2: int| 0 <= m2 < rest.len() && rest[m2] == tail[j - 1];
                    assert(rest[m2] == ps[m2 + 1]);
                }
            } else {
                assert(r[i] == tail[i - 1] && r[j] == tail[j - 1]);
            }
        }
        assert forall|p: Pair| #[trigger] r.contains(p) implies p == (k, v) || ps.contains(p) by {
            let i = choose|i: int| 0 <= i < r.len() && r[i] == p;
            if i > 0 {
                assert(tail[i - 1] == p);
                assert(tail.contains(p));
                if p != (k, v) {
                    let m = choose|m: int| 0 <= m < rest.len() && rest[m] == p;
                    assert(ps[m + 1] == p);
                }
            } else {
                assert(ps[0] == p);
            }
        }
        let m = choose|m: int| 0 <= m < tail.len() && tail[m] == (k, v);
        assert(r[m + 1] == (k, v));
    }
}

/// `lookup` finds the pair at the position of its key.
pub proof fn lemma_lookup_at(ps: Seq<Pair>, i: int)
    requires
        sorted(ps),
        0 <= i < ps.len(),
    ensures
        lookup(ps, ps[i].0) == Some(ps[i].1),
    decreases i,
{
    if i > 0 {
        lemma_key_lt_irreflexive(ps[0].0);
        if ps[0].0 == ps[i].0 {
            lemma_key_lt_irreflexive(ps[i].0);
        }
        lemma_sorted_drop_first(ps);
        assert(ps.drop_first()[i - 1] == ps[i]);
        lemma_lookup_at(ps.drop_first(), i - 1);
    }
}

/// `lookup` finds nothing for a key no pair has.
pub proof fn lemma_lookup_absent(ps: Seq<Pair>, k: Seq<char>)
    requires
        forall|i: int| 0 <= i < ps.len() ==> #[trigger] ps[i].0 != k,
    ensures
        lookup(ps, k) is None,
    decreases ps.len(),
{
    if ps.len() > 0 {
        assert forall|i: int| 0 <= i < ps.drop_first().len() implies #[trigger] ps.drop_first()[i].0 != k by {
            assert(ps.drop_first()[i] == ps[i + 1]);
        }
        lemma_lookup_absent(ps.drop_first(), k);
    }
}

/// Dropping the first pair keeps a sequence sorted.
pub proof fn lemma_sorted_drop_first(ps: Seq<Pair>)
    requires
        sorted(ps),
        ps.len() > 0,
    ensures
        sorted(ps.drop_first()),
{
    let rest = ps.drop_first();
    assert forall|i: int, j: int| 0 <= i < j < rest.len() implies key_lt(#[trigger] rest[i].0, #[trigger] rest[j].0) by {
        assert(rest[i] == ps[i + 1] && rest[j] == ps[j + 1]);
    }
}

/// Removing the pair at the position of its key, in a sorted sequence.
pub proof fn lemma_remove_at(ps: Seq<Pair>, i: int)
    requires
        sorted(ps),
        0 <= i < ps.len(),
    ensures
        remove_key(ps, ps[i].0) == ps.remove(i),
    decreases i,
{
    let k = ps[i].0;
    lemma_sorted_drop_first(ps);
    if i == 0 {
        assert forall|j: int| 0 <= j < ps.drop_first().len() implies #[trigger] ps.drop_first()[j].0 != k by {
            assert(ps.drop_first()[j] == ps[j + 1]);
            lemma_key_lt_irreflexive(k);
        }
        lemma_remove_absent(ps.drop_first(), k);
        assert(ps.remove(0) =~= ps.drop_first());
    } else {
        if ps[0].0 == k {
            lemma_key_lt_irreflexive(k);
        }
        assert(ps.drop_first()[i - 1] == ps[i]);
        lemma_remove_at(ps.drop_first(), i - 1);
        assert(ps.remove(i) =~= seq![ps[0]] + ps.drop_first().remove(i - 1));
    }
}

/// Removing a key no pair has changes nothing.
pub proof fn lemma_remove_absent(ps: Seq<Pair>, k: Seq<char>)
    requires
        forall|i: int| 0 <= i < ps.len() ==> #[trigger] ps[i].0 != k,
    ensures
        remove_key(ps, k) == ps,
    decreases ps.len(),
{
    if ps.len() > 0 {
        assert forall|i: int| 0 <= i < ps.drop_first().len() implies #[trigger] ps.drop_first()[i].0 != k by {
            assert(ps.drop_first()[i] == ps[i + 1]);
        }
        lemma_remove_absent(ps.drop_first(), k);
        assert(ps =~= seq![ps[0]] + ps.drop_first());
    }
}

/// Inserting a key larger than every key present appends it.
pub proof fn lemma_insert_last(ps: Seq<Pair>, k: Seq<char>, v: Seq<char>)
    requires
        forall|i: int| 0 <= i < ps.len() ==> key_lt(#[trigger] ps[i].0, k),
    ensures
        insert_sorted(ps, k, v) == ps.push((k, v)),
    decreases ps.len(),
{
    if ps.len() > 0 {
        assert(key_lt(ps[0].0, k));
        lemma_key_lt_irreflexive(k);
        lemma_key_lt_asymmetric(ps[0].0, k);
        assert forall|i: int| 0 <= i < ps.drop_first().len() implies key_lt(#[trigger] ps.drop_first()[i].0, k) by {
            assert(ps.drop_first()[i] == ps[i + 1]);
        }
        lemma_insert_last(ps.drop_first(), k, v);
        assert(ps.push((k, v)) =~= seq![ps[0]] + ps.drop_first().push((k, v)));
    }
}

/// How two keys compare.
pub enum KeyOrder {
    Less,
    Equal,
    Greater,
}

/// Compares two strings character by character, as `String`'s `Ord` does.
pub fn compare_keys(a: &str, b: &str) -> (r: KeyOrder)
    ensures
        r is Less <==> key_lt(a@, b@),
        r is Equal <==> a@ == b@,
        r is Greater <==> key_lt(b@, a@),
{
    let n = a.unicode_len();
    let m = b.unicode_len();
    let mut i: usize = 0;
    assert(a@.skip(0) =~= a@ && b@.skip(0) =~= b@);
    assert(a@.take(0) =~= b@.take(0));
    while i < n && i < m
        invariant
            n == a@.len(),
            m == b@.len(),
            i <= n,
            i <= m,
            a@.take(i as int) == b@.take(i as int),
            key_lt(a@, b@) == key_lt(a@.skip(i as int), b@.skip(i as int)),
            key_lt(b@, a@) == key_lt(b@.skip(i as int), a@.skip(i as int)),
        decreases n - i,
    {
        let x = a.get_char(i);
        let y = b.get_char(i);
        assert(a@.skip(i as int)[0] == x && b@.skip(i as int)[0] == y);
        if x < y {
            proof {
                lemma_key_lt_asymmetric(a@, b@);
                if a@ == b@ {
                    assert(a@[i as int] == b@[i as int]);
                }
            }
            return KeyOrder::Less;
        }
        if y < x {
            proof {
                lemma_key_lt_asymmetric(b@, a@);
                if a@ == b@ {
                    assert(a@[i as int] == b@[i as int]);
                }
            }
            return KeyOrder::Greater;
        }
        assert(a@.skip(i as int).drop_first() =~= a@.skip(i + 1));
        assert(b@.skip(i as int).drop_first() =~= b@.skip(i + 1));
        assert(a@.take(i + 1) =~= a@.take(i as int).push(x));
        assert(b@.take(i + 1) =~= b@.take(i as int).push(y));
        i += 1;
    }
    if n == m {
        assert(a@ =~= a@.take(i as int));
        assert(b@ =~= b@.take(i as int));
        proof {
            lemma_key_lt_irreflexive(a@);
        }
        KeyOrder::Equal
    } else if n < m {
        assert(a@ =~= a@.take(i as int));
        proof {
            lemma_key_lt_asymmetric(a@, b@);
        }
        KeyOrder::Less
    } else {
        assert(b@ =~= b@.take(i as int));
        proof {
            lemma_key_lt_asymmetric(b@, a@);
        }
        KeyOrder::Greater
    }
}

/// A read after a write: looking up the key just written gives the value
/// written.
pub proof fn lemma_lookup_after_insert(ps: Seq<Pair>, k: Seq<char>, v: Seq<char>)
    ensures
        lookup(insert_sorted(ps, k, v), k) == Some(v),
    decreases ps.len(),
{
    if ps.len() > 0 && ps[0].0 != k && !key_lt(k, ps[0].0) {
        lemma_lookup_after_insert(ps.drop_first(), k, v);
        assert((seq![ps[0]] + insert_sorted(ps.drop_first(), k, v)).drop_first() =~= insert_sorted(
            ps.drop_first(),
            k,
            v,
        ));
    }
}

/// A write leaves every other key as it was.
pub proof fn lemma_lookup_other_after_insert(ps: Seq<Pair>, k: Seq<char>, v: Seq<char>, other: Seq<char>)
    requires
        other != k,
    ensures
        lookup(insert_sorted(ps, k, v), other) == lookup(ps, other),
    decreases ps.len(),
{
    if ps.len() == 0 {
        assert(seq![(k, v)].drop_first() =~= Seq::<Pair>::empty());
        assert(lookup(Seq::<Pair>::empty(), other) is None);
        assert(lookup(seq![(k, v)], other) == lookup(seq![(k, v)].drop_first(), other));
    } else if ps[0].0 == k {
        let u = ps.update(0, (k, v));
        assert(u.drop_first() =~= ps.drop_first());
        assert(lookup(u, other) == lookup(u.drop_first(), other));
    } else if key_lt(k, ps[0].0) {
        let u = seq![(k, v)] + ps;
        assert(u.drop_first() =~= ps);
        assert(lookup(u, other) == lookup(u.drop_first(), other));
    } else {
        lemma_lookup_other_after_insert(ps.drop_first(), k, v, other);
        assert((seq![ps[0]] + insert_sorted(ps.drop_first(), k, v)).drop_first() =~= insert_sorted(
            ps.drop_first(),
            k,
            v,
        ));
    }
}

/// After a removal the key is gone.
pub proof fn lemma_lookup_after_remove(ps: Seq<Pair>, k: Seq<char>)
    ensures
        lookup(remove_key(ps, k), k) is None,
    decreases ps.len(),
{
    if ps.len() > 0 {
        lemma_lookup_after_remove(ps.drop_first(), k);
        if ps[0].0 != k {
            assert((seq![ps[0]] + remove_key(ps.drop_first(), k)).drop_first() =~= remove_key(ps.drop_first(), k));
        }
    }
}

/// A removal leaves every other key as it was.
pub proof fn lemma_lookup_other_after_remove(ps: Seq<Pair>, k: Seq<char>, other: Seq<char>)
    requires
        other != k,
    ensures
        lookup(remove_key(ps, k), other) == lookup(ps, other),
    decreases ps.len(),
{
    if ps.len() > 0 {
        lemma_lookup_other_after_remove(ps.drop_first(), k, other);
        if ps[0].0 != k {
            assert((seq![ps[0]] + remove_key(ps.drop_first(), k)).drop_first() =~= remove_key(ps.drop_first(), k));
        }
    }
}

/// The entries of a configuration document, sorted by key, no key twice.
#[derive(Debug, PartialEq, Eq)]
pub struct Entries {
    items: Vec<(String, String)>,
}

/// The characters of each key and value.
pub open spec fn pairs_view(items: Seq<(String, String)>) -> Seq<Pair> {
    items.map_values(|p: (String, String)| (p.0@, p.1@))
}

impl View for Entries {
    type V = Seq<Pair>;

    closed spec fn view(&self) -> Seq<Pair> {
        pairs_view(self.items@)
    }
}

impl Entries {
    #[verifier::type_invariant]
    closed spec fn keys_increase(&self) -> bool {
        sorted(pairs_view(self.items@))
    }

    /// No entries.
    pub fn new() -> (r: Entries)
        ensures
            r@ == Seq::<Pair>::empty(),
    {
        let r = Entries { items: Vec::new() };
        assert(pairs_view(r.items@) =~= Seq::<Pair>::empty());
        r
    }

    /// The number of entries.
    pub fn len(&self) -> (r: usize)
        ensures
            r == self@.len(),
    {
        self.items.len()
    }

    /// Whether there are no entries.
    pub fn is_empty(&self) -> (r: bool)
        ensures
            r == (self@.len() == 0),
    {
        self.items.len() == 0
    }

    /// Every entry, in key order.
    pub fn pairs(&self) -> (r: &[(String, String)])
        ensures
            pairs_view(r@) == self@,
            sorted(self@),
    {
        proof {
            use_type_invariant(self);
        }
        self.items.as_slice()
    }

    /// Position of the first entry whose key is not smaller than `key`.
    fn position(&self, key: &str) -> (r: (usize, bool))
        ensures
            r.0 <= self@.len(),
            forall|j: int| 0 <= j < r.0 ==> key_lt(#[trigger] self@[j].0, key@),
            r.0 < self@.len() ==> !key_lt(self@[r.0 as int].0, key@),
            r.1 <==> (r.0 < self@.len() && self@[r.0 as int].0 == key@),
    {
        let mut i: usize = 0;
        while i < self.items.len()
            invariant
                i <= self.items@.len(),
                self@ == pairs_view(self.items@),
                forall|j: int| 0 <= j < i ==> key_lt(#[trigger] self@[j].0, key@),
            decreases self.items.len() - i,
        {
            let ghost kv = self@[i as int];
            assert(self.items@[i as int].0@ == kv.0);
            match compare_keys(self.items[i].0.as_str(), key) {
                KeyOrder::Less => {},
                KeyOrder::Equal => return (i, true),
                KeyOrder::Greater => {
                    proof {
                        lemma_key_lt_asymmetric(key@, kv.0);
                    }
                    return (i, false);
                },
            }
            i += 1;
        }
        (i, false)
    }

    /// The value for `key`.
    pub fn get(&self, key: &str) -> (r: Option<&String>)
        ensures
            match r {
                Some(v) => lookup(self@, key@) == Some(v@),
                None => lookup(self@, key@) is None,
            },
    {
        proof {
            use_type_invariant(self);
        }
        let (i, found) = self.position(key);
        if found {
            proof {
                lemma_lookup_at(self@, i as int);
            }
            assert(self.items@[i as int].1@ == self@[i as int].1);
            Some(&self.items[i].1)
        } else {
            proof {
                assert forall|j: int| 0 <= j < self@.len() implies #[trigger] self@[j].0 != key@ by {
                    if j < i {
                        lemma_key_lt_irreflexive(key@);
                    } else if j > i {
                        lemma_key_lt_total(self@[i as int].0, key@);
                        lemma_key_lt_transitive(key@, self@[i as int].0, self@[j].0);
                        lemma_key_lt_irreflexive(key@);
                    }
                }
                lemma_lookup_absent(self@, key@);
            }
            None
        }
    }

    /// Whether some entry has `key`.
    pub fn contains_key(&self, key: &str) -> (r: bool)
        ensures
            r == (lookup(self@, key@) is Some),
    {
        self.get(key).is_some()
    }

    /// Maps `key` to `value`, returning the value it replaced.
    pub fn insert(&mut self, key: String, value: String) -> (r: Option<String>)
        ensures
            final(self)@ == insert_sorted(old(self)@, key@, value@),
            match r {
                Some(v) => lookup(old(self)@, key@) == Some(v@),
                None => lookup(old(self)@, key@) is None,
            },
    {
        proof {
            use_type_invariant(&*self);
        }
        let ghost ps = self@;
        let (i, found) = self.position(key.as_str());
        proof {
            lemma_insert_sorted(ps, key@, value@);
            lemma_insert_prefix(ps, key@, value@, i as int);
        }
        if found {
            proof {
                lemma_lookup_at(ps, i as int);
            }
            let ghost kv = (key@, value@);
            let old_value = self.replace_value_at(i, key, value);
            proof {
                assert(insert_sorted(ps.skip(i as int), kv.0, kv.1) =~= ps.skip(i as int).update(0, kv));
                assert(self@ =~= insert_sorted(ps, kv.0, kv.1));
            }
            Some(old_value)
        } else {
            proof {
                assert forall|j: int| 0 <= j < ps.len() implies #[trigger] ps[j].0 != key@ by {
                    if j < i {
                        lemma_key_lt_irreflexive(key@);
                    } else if j > i {
                        lemma_key_lt_total(ps[i as int].0, key@);
                        lemma_key_lt_transitive(key@, ps[i as int].0, ps[j].0);
                        lemma_key_lt_irreflexive(key@);
                    }
                }
                lemma_lookup_absent(ps, key@);
                if (i as int) < ps.len() {
                    lemma_key_lt_total(key@, ps[i as int].0);
                }
            }
            let ghost kv = (key@, value@);
            proof {
                if (i as int) < ps.len() {
                    assert(ps.skip(i as int)[0] == ps[i as int]);
                }
                assert(insert_sorted(ps.skip(i as int), kv.0, kv.1) =~= seq![kv] + ps.skip(i as int));
                assert(ps.take(i as int) + (seq![kv] + ps.skip(i as int)) =~= ps.take(i as int) + seq![kv] + ps.skip(i as int));
            }
            self.insert_at(i, key, value);
            proof {
                assert(self@ =~= insert_sorted(ps, kv.0, kv.1));
            }
            None
        }
    }

    /// Removes the entry for `key`, returning its value.
    pub fn remove(&mut self, key: &str) -> (r: Option<String>)
        ensures
            final(self)@ == remove_key(old(self)@, key@),
            match r {
                Some(v) => lookup(old(self)@, key@) == Some(v@),
                None => lookup(old(self)@, key@) is None && final(self)@ == old(self)@,
            },
    {
        proof {
            use_type_invariant(&*self);
        }
        let ghost ps = self@;
        let (i, found) = self.position(key);
        if found {
            proof {
                lemma_lookup_at(ps, i as int);
                lemma_remove_at(ps, i as int);
            }
            let v = self.remove_at(i);
            Some(v)
        } else {
            proof {
                assert forall|j: int| 0 <= j < ps.len() implies #[trigger] ps[j].0 != key@ by {
                    if j < i {
                        lemma_key_lt_irreflexive(key@);
                    } else if j > i {
                        lemma_key_lt_total(ps[i as int].0, key@);
                        lemma_key_lt_transitive(key@, ps[i as int].0, ps[j].0);
                        lemma_key_lt_irreflexive(key@);
                    }
                }
                lemma_lookup_absent(ps, key@);
                lemma_remove_absent(ps, key@);
            }
            None
        }
    }

    fn replace_value_at(&mut self, i: usize, key: String, value: String) -> (r: String)
        requires
            i < old(self)@.len(),
            old(self)@[i as int].0 == key@,
        ensures
            final(self)@ == old(self)@.update(i as int, (key@, value@)),
            r@ == old(self)@[i as int].1,
    {
        proof {
            use_type_invariant(&*self);
        }
        let ghost ps = self@;
        let mut items: Vec<(String, String)> = Vec::new();
        std::mem::swap(&mut items, &mut self.items);
        assert(pairs_view(items@) == ps);
        let old_pair = items.remove(i);
        let old_value = old_pair.1;
        items.insert(i, (key, value));
        proof {
            assert(pairs_view(items@) =~= ps.update(i as int, (key@, value@)));
            assert forall|a: int, b: int| 0 <= a < b < pairs_view(items@).len() implies key_lt(#[trigger] pairs_view(items@)[a].0, #[trigger] pairs_view(items@)[b].0) by {
                assert(pairs_view(items@)[a].0 == ps[a].0 && pairs_view(items@)[b].0 == ps[b].0);
            }
        }
        self.items = items;
        old_value
    }

    fn insert_at(&mut self, i: usize, key: String, value: String)
        requires
            i <= old(self)@.len(),
            sorted(old(self)@.take(i as int) + seq![(key@, value@)] + old(self)@.skip(i as int)),
        ensures
            final(self)@ == old(self)@.take(i as int) + seq![(key@, value@)] + old(self)@.skip(i as int),
    {
        let ghost ps = self@;
        let mut items: Vec<(String, String)> = Vec::new();
        std::mem::swap(&mut items, &mut self.items);
        let ghost kv = (key@, value@);
        items.insert(i, (key, value));
        proof {
            assert(pairs_view(items@) =~= ps.take(i as int) + seq![kv] + ps.skip(i as int));
        }
        self.items = items;
    }

    fn remove_at(&mut self, i: usize) -> (r: String)
        requires
            i < old(self)@.len(),
        ensures
            final(self)@ == old(self)@.remove(i as int),
            r@ == old(self)@[i as int].1,
    {
        proof {
            use_type_invariant(&*self);
        }
        let ghost ps = self@;
        let mut items: Vec<(String, String)> = Vec::new();
        std::mem::swap(&mut items, &mut self.items);
        let pair = items.remove(i);
        proof {
            assert(pairs_view(items@) =~= ps.remove(i as int));
            assert forall|a: int, b: int| 0 <= a < b < pairs_view(items@).len() implies key_lt(#[trigger] pairs_view(items@)[a].0, #[trigger] pairs_view(items@)[b].0) by {
                let a2 = if a < i { a } else { a + 1 };
                let b2 = if b < i { b } else { b + 1 };
                assert(pairs_view(items@)[a] == ps[a2] && pairs_view(items@)[b] == ps[b2]);
            }
        }
        self.items = items;
        pair.1
    }
}

impl Clone for Entries {
    fn clone(&self) -> (r: Entries)
        ensures
            r@ == self@,
    {
        proof {
            use_type_invariant(self);
        }
        let mut items: Vec<(String, String)> = Vec::new();
        let mut i: usize = 0;
        while i < self.items.len()
            invariant
                i <= self.items@.len(),
                pairs_view(items@) == pairs_view(self.items@).take(i as int),
            decreases self.items.len() - i,
        {
            let pair = (self.items[i].0.clone(), self.items[i].1.clone());
            assert(pair.0@ == self.items@[i as int].0@ && pair.1@ == self.items@[i as int].1@);
            let ghost before = items@;
            items.push(pair);
            assert(pairs_view(items@) =~= pairs_view(before).push((pair.0@, pair.1@)));
            assert(pairs_view(items@) =~= pairs_view(self.items@).take(i + 1));
            i += 1;
        }
        assert(pairs_view(self.items@).take(i as int) =~= pairs_view(self.items@));
        Entries { items }
    }
}

/// Inserting past a prefix of smaller keys leaves the prefix in place.
pub proof fn lemma_insert_prefix(ps: Seq<Pair>, k: Seq<char>, v: Seq<char>, i: int)
    requires
        0 <= i <= ps.len(),
        forall|j: int| 0 <= j < i ==> key_lt(#[trigger] ps[j].0, k),
    ensures
        insert_sorted(ps, k, v) == ps.take(i) + insert_sorted(ps.skip(i), k, v),
    decreases i,
{
    if i > 0 {
        assert(key_lt(ps[0].0, k));
        lemma_key_lt_irreflexive(k);
        lemma_key_lt_asymmetric(ps[0].0, k);
        assert forall|j: int| 0 <= j < i - 1 implies key_lt(#[trigger] ps.drop_first()[j].0, k) by {
            assert(ps.drop_first()[j] == ps[j + 1]);
        }
        lemma_insert_prefix(ps.drop_first(), k, v, i - 1);
        assert(ps.drop_first().skip(i - 1) =~= ps.skip(i));
        assert(ps.take(i) =~= seq![ps[0]] + ps.drop_first().take(i - 1));
    } else {
        assert(ps.skip(0) =~= ps);
        assert(ps.take(0) + insert_sorted(ps, k, v) =~= insert_sorted(ps, k, v));
    }
}

} // verus!
