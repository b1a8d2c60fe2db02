use vstd::prelude::*;

use crate::ir_items::{qname_cmp, qname_lt, lemma_qname_lt_trichotomy, lemma_qname_lt_trans, Cmp, QualifiedName};

verus! {

/// Map entries sorted strictly by qualified name: pairwise increasing keys.
pub open spec fn entries_sorted<T>(s: Seq<(Seq<Seq<char>>, T)>) -> bool {
    forall|i: int, j: int| 0 <= i < j < s.len() ==> qname_lt(#[trigger] s[i].0, #[trigger] s[j].0)
}

/// The value stored under the first entry whose key is `k`, if any.
pub open spec fn spec_get<T>(s: Seq<(Seq<Seq<char>>, T)>, k: Seq<Seq<char>>) -> Option<T>
    decreases s.len(),
{
    if s.len() == 0 {
        None
    } else if s[0].0 == k {
        Some(s[0].1)
    } else {
        spec_get(s.skip(1), k)
    }
}

/// The position at which `k` belongs: the number of leading keys below it.
pub open spec fn spec_insert_pos<T>(s: Seq<(Seq<Seq<char>>, T)>, k: Seq<Seq<char>>) -> int
    decreases s.len(),
{
    if s.len() == 0 {
        0
    } else if qname_lt(s[0].0, k) {
        1 + spec_insert_pos(s.skip(1), k)
    } else {
        0
    }
}

/// Inserting binds `k` to `v`, replacing an equal key and otherwise keeping
/// every entry in place.
pub open spec fn spec_insert<T>(
    s: Seq<(Seq<Seq<char>>, T)>,
    k: Seq<Seq<char>>,
    v: T,
) -> Seq<(Seq<Seq<char>>, T)> {
    let p = spec_insert_pos(s, k);
    if p < s.len() && s[p].0 == k {
        s.update(p, (k, v))
    } else {
        s.take(p) + seq![(k, v)] + s.skip(p)
    }
}

/// The insert position is within bounds, everything before it is below `k`,
/// and the entry at it (if any) is not below `k`.
pub proof fn lemma_insert_pos<T>(s: Seq<(Seq<Seq<char>>, T)>, k: Seq<Seq<char>>)
    ensures
        0 <= spec_insert_pos(s, k) <= s.len(),
        forall|j: int| 0 <= j < spec_insert_pos(s, k) ==> qname_lt(#[trigger] s[j].0, k),
        spec_insert_pos(s, k) < s.len() ==> !qname_lt(s[spec_insert_pos(s, k)].0, k),
    decreases s.len(),
{
    if s.len() > 0 && qname_lt(s[0].0, k) {
        lemma_insert_pos(s.skip(1), k);
        let p = spec_insert_pos(s, k);
        assert forall|j: int| 0 <= j < p implies qname_lt(#[trigger] s[j].0, k) by {
            if j > 0 {
                assert(qname_lt(s.skip(1)[j - 1].0, k));
            }
        }
        if p < s.len() {
            assert(s[p] == s.skip(1)[p - 1]);
        }
    }
}

/// Inserting into a sorted map keeps it sorted.
pub proof fn lemma_insert_sorted<T>(s: Seq<(Seq<Seq<char>>, T)>, k: Seq<Seq<char>>, v: T)
    requires
        entries_sorted(s),
    ensures
        entries_sorted(spec_insert(s, k, v)),
{
    lemma_insert_pos(s, k);
    let p = spec_insert_pos(s, k);
    let r = spec_insert(s, k, v);
    if p < s.len() && s[p].0 == k {
        assert forall|i: int, j: int| 0 <= i < j < r.len() implies qname_lt(
            #[trigger] r[i].0,
            #[trigger] r[j].0,
        ) by {
            assert(s[i].0 == r[i].0 || (i == p && r[i].0 == k));
            assert(s[j].0 == r[j].0 || (j == p && r[j].0 == k));
        }
    } else {
        assert forall|i: int, j: int| 0 <= i < j < r.len() implies qname_lt(
            #[trigger] r[i].0,
            #[trigger] r[j].0,
        ) by {
            if j < p {
                assert(r[i] == s[i] && r[j] == s[j]);
            } else if i < p && j == p {
                assert(r[i] == s[i] && r[j].0 == k);
            } else if i < p && j > p {
                assert(r[i] == s[i] && r[j] == s[j - 1]);
                if p < s.len() {
                    // s[i].0 < k <= s[p].0 <= s[j-1].0
                    lemma_qname_lt_trichotomy(s[p as int].0, k);
                    if j - 1 > p {
                        lemma_qname_lt_trans(s[i].0, s[p as int].0, s[j - 1].0);
                    }
                }
            } else if i == p && j > p {
                assert(r[i].0 == k && r[j] == s[j - 1]);
                lemma_qname_lt_trichotomy(s[p as int].0, k);
                if j - 1 > p {
                    lemma_qname_lt_trans(k, s[p as int].0, s[j - 1].0);
                }
            } else {
                assert(r[i] == s[i - 1] && r[j] == s[j - 1]);
            }
        }
    }
}

/// Every key in the inserted map is `k` or was there before.
pub proof fn lemma_insert_keys<T>(s: Seq<(Seq<Seq<char>>, T)>, k: Seq<Seq<char>>, v: T)
    ensures
        forall|i: int| 0 <= i < spec_insert(s, k, v).len()
            ==> (#[trigger] spec_insert(s, k, v)[i]).0 == k
                || exists|j: int| 0 <= j < s.len() && #[trigger] s[j].0 == spec_insert(s, k, v)[i].0,
{
    lemma_insert_pos(s, k);
    let p = spec_insert_pos(s, k);
    let r = spec_insert(s, k, v);
    assert forall|i: int| 0 <= i < r.len() implies (#[trigger] r[i]).0 == k || exists|j: int|
        0 <= j < s.len() && #[trigger] s[j].0 == r[i].0 by {
        if p < s.len() && s[p].0 == k {
            if i != p {
                assert(s[i].0 == r[i].0);
            }
        } else {
            if i < p {
                assert(s[i].0 == r[i].0);
            } else if i > p {
                assert(s[i - 1].0 == r[i].0);
            }
        }
    }
}

/// When the first `i` keys differ from `k`, lookup is decided by the rest.
proof fn lemma_spec_get_skip<T>(s: Seq<(Seq<Seq<char>>, T)>, k: Seq<Seq<char>>, i: int)
    requires
        0 <= i <= s.len(),
        forall|j: int| 0 <= j < i ==> (#[trigger] s[j]).0 != k,
    ensures
        spec_get(s, k) == spec_get(s.skip(i), k),
    decreases i,
{
    if i > 0 {
        assert forall|j: int| 0 <= j < i - 1 implies (#[trigger] s.skip(1)[j]).0 != k by {
            assert(s.skip(1)[j] == s[j + 1]);
        }
        lemma_spec_get_skip(s.skip(1), k, i - 1);
        assert(s.skip(1).skip(i - 1) =~= s.skip(i));
    } else {
        assert(s.skip(0) =~= s);
    }
}

/// A map from qualified names to values, kept as a vector of entries in
/// strictly increasing key order. Iterating the entries therefore yields
/// qualified names in increasing lexical-segment order.
#[derive(Debug, PartialEq, Eq)]
pub struct QnameMap<V> {
    pub entries: Vec<(QualifiedName, V)>,
}

impl<V: View> View for QnameMap<V> {
    type V = Seq<(Seq<Seq<char>>, <V as View>::V)>;

    open spec fn view(&self) -> Seq<(Seq<Seq<char>>, <V as View>::V)> {
        self.entries@.map_values(|p: (QualifiedName, V)| (p.0@, p.1@))
    }
}

impl<V: View> QnameMap<V> {
    /// The ordering invariant: keys strictly increase.
    pub open spec fn wf(&self) -> bool {
        entries_sorted(self@)
    }

    /// An empty map.
    pub fn new() -> (r: Self)
        ensures
            r@ == Seq::<(Seq<Seq<char>>, <V as View>::V)>::empty(),
            r.wf(),
    {
        let r = QnameMap { entries: Vec::new() };
        proof {
            assert(r@ =~= Seq::<(Seq<Seq<char>>, <V as View>::V)>::empty());
        }
        r
    }

    /// Number of entries.
    pub fn len(&self) -> (r: usize)
        ensures
            r == self@.len(),
    {
        self.entries.len()
    }

    /// Look up the value bound to `k`.
    pub fn get(&self, k: &QualifiedName) -> (r: Option<&V>)
        ensures
            match r {
                Some(v) => spec_get(self@, k@) == Some(v@),
                None => spec_get(self@, k@) == None::<<V as View>::V>,
            },
    {
        let mut i: usize = 0;
        while i < self.entries.len()
            invariant
                i <= self.entries.len(),
                forall|j: int| 0 <= j < i ==> (#[trigger] self@[j]).0 != k@,
            decreases self.entries.len() - i,
        {
            match qname_cmp(&self.entries[i].0, &k) {
                Cmp::Eq => {
                    proof {
                        lemma_spec_get_skip(self@, k@, i as int);
                    }
                    return Some(&self.entries[i].1);
                }
                _ => {
                    proof {
                        lemma_qname_lt_trichotomy(self@[i as int].0, k@);
                    }
                    i = i + 1;
                }
            }
        }
        proof {
            lemma_spec_get_skip(self@, k@, i as int);
            assert(self@.skip(i as int) =~= Seq::<(Seq<Seq<char>>, <V as View>::V)>::empty());
        }
        None
    }

    /// Bind `k` to `v`, replacing any entry with an equal key and keeping
    /// the entries in increasing key order.
    pub fn insert(&mut self, k: QualifiedName, v: V)
        ensures
            final(self)@ == spec_insert(old(self)@, k@, v@),
    {
        let ghost s0 = self@;
        let ghost kk0 = k@;
        let ghost vv0 = v@;
        let mut i: usize = 0;
        loop
            invariant
                i <= self.entries.len(),
                self@ == s0,
                old(self)@ == s0,
                kk0 == k@,
                vv0 == v@,
                forall|j: int| 0 <= j < i ==> qname_lt((#[trigger] s0[j]).0, k@),
            ensures
                i <= self.entries.len(),
                self@ == s0,
                spec_insert_pos(s0, k@) == i as int,
                i < self.entries.len() ==> s0[i as int].0 != k@,
            decreases self.entries.len() - i,
        {
            if i == self.entries.len() {
                proof {
                    lemma_insert_pos_end(s0, k@);
                }
                break;
            }
            match qname_cmp(&self.entries[i].0, &k) {
                Cmp::Lt => {
                    i = i + 1;
                }
                Cmp::Eq => {
                    proof {
                        assert(s0[i as int].0 == k@);
                        lemma_qname_lt_trichotomy(s0[i as int].0, k@);
                        lemma_insert_pos_stop(s0, k@, i as int);
                        assert(spec_insert_pos(s0, k@) == i as int);
                    }
                    let ghost kk = k@;
                    let ghost vv = v@;
                    let _ = self.entries.remove(i);
                    self.entries.insert(i, (k, v));
                    proof {
                        assert(self@ =~= s0.update(i as int, (kk, vv)));
                        assert(spec_insert(s0, kk, vv) == s0.update(i as int, (kk, vv)));
                        assert(self@ == spec_insert(s0, kk, vv));
                    }
                    return;
                }
                Cmp::Gt => {
                    proof {
                        lemma_qname_lt_trichotomy(s0[i as int].0, k@);
                        lemma_insert_pos_stop(s0, k@, i as int);
                    }
                    break;
                }
            }
        }
        self.entries.insert(i, (k, v));
        proof {
            assert(self@ =~= s0.take(i as int) + seq![(k@, v@)] + s0.skip(i as int));
        }
    }
}

/// When every key is below `k`, the insert position is the end.
proof fn lemma_insert_pos_end<T>(s: Seq<(Seq<Seq<char>>, T)>, k: Seq<Seq<char>>)
    requires
        forall|j: int| 0 <= j < s.len() ==> qname_lt((#[trigger] s[j]).0, k),
    ensures
        spec_insert_pos(s, k) == s.len(),
    decreases s.len(),
{
    if s.len() > 0 {
        assert forall|j: int| 0 <= j < s.len() - 1 implies qname_lt((#[trigger] s.skip(1)[j]).0, k) by {
            assert(s.skip(1)[j] == s[j + 1]);
        }
        lemma_insert_pos_end(s.skip(1), k);
    }
}

/// If the first `i` keys are below `k` and the key at `i` is not, the insert
/// position is exactly `i`.
proof fn lemma_insert_pos_stop<T>(s: Seq<(Seq<Seq<char>>, T)>, k: Seq<Seq<char>>, i: int)
    requires
        0 <= i < s.len(),
        forall|j: int| 0 <= j < i ==> qname_lt((#[trigger] s[j]).0, k),
        !qname_lt(s[i].0, k),
    ensures
        spec_insert_pos(s, k) == i,
    decreases i,
{
    if i > 0 {
        assert forall|j: int| 0 <= j < i - 1 implies qname_lt((#[trigger] s.skip(1)[j]).0, k) by {
            assert(s.skip(1)[j] == s[j + 1]);
        }
        assert(s.skip(1)[i - 1] == s[i]);
        lemma_insert_pos_stop(s.skip(1), k, i - 1);
    }
}

} // verus!
