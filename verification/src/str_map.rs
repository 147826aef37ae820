//! Maps from text to text, kept in key order.

use crate::text::{chars_of, pair_texts};
use vstd::prelude::*;

verus! {

/// `a` comes before `b`: they agree up to some position, where `a` ends or has
/// the smaller character.
pub open spec fn before(a: Seq<char>, b: Seq<char>) -> bool
    decreases a.len(),
{
    if b.len() == 0 {
        false
    } else if a.len() == 0 {
        true
    } else if a[0] != b[0] {
        a[0] < b[0]
    } else {
        before(a.skip(1), b.skip(1))
    }
}

pub proof fn lemma_before_irreflexive(a: Seq<char>)
    ensures
        !before(a, a),
    decreases a.len(),
{
    if a.len() > 0 {
        lemma_before_irreflexive(a.skip(1));
    }
}

pub proof fn lemma_before_transitive(a: Seq<char>, b: Seq<char>, c: Seq<char>)
    requires
        before(a, b),
        before(b, c),
    ensures
        before(a, c),
    decreases a.len(),
{
    if a.len() > 0 && a[0] == b[0] && b[0] == c[0] {
        lemma_before_transitive(a.skip(1), b.skip(1), c.skip(1));
    }
}

pub proof fn lemma_before_total(a: Seq<char>, b: Seq<char>)
    ensures
        a == b || before(a, b) || before(b, a),
    decreases a.len(),
{
    if a.len() > 0 && b.len() > 0 && a[0] == b[0] {
        lemma_before_total(a.skip(1), b.skip(1));
        if a.skip(1) == b.skip(1) {
            assert(a == seq![a[0]] + a.skip(1));
            assert(b == seq![b[0]] + b.skip(1));
        }
    } else if a.len() == 0 && b.len() == 0 {
        assert(a == b);
    }
}

/// How two keys compare.
enum KeyOrder {
    Before,
    Same,
    After,
}

fn compare_keys(a: &str, b: &str) -> (r: KeyOrder)
    ensures
        match r {
            KeyOrder::Before => before(a@, b@),
            KeyOrder::Same => a@ == b@,
            KeyOrder::After => before(b@, a@),
        },
{
    let x = chars_of(a);
    let y = chars_of(b);
    let mut i: usize = 0;
    assert(x@.skip(0) == x@ && y@.skip(0) == y@);
    while i < x.len() && i < y.len()
        invariant
            x@ == a@,
            y@ == b@,
            i <= x@.len(),
            i <= y@.len(),
            forall|j: int| 0 <= j < i ==> x@[j] == y@[j],
            before(x@, y@) == before(x@.skip(i as int), y@.skip(i as int)),
            before(y@, x@) == before(y@.skip(i as int), x@.skip(i as int)),
        decreases x@.len() - i,
    {
        assert(x@.skip(i as int).skip(1) == x@.skip(i + 1));
        assert(y@.skip(i as int).skip(1) == y@.skip(i + 1));
        if x[i] < y[i] {
            return KeyOrder::Before;
        }
        if y[i] < x[i] {
            return KeyOrder::After;
        }
        i += 1;
    }
    if i < y.len() {
        KeyOrder::Before
    } else if i < x.len() {
        KeyOrder::After
    } else {
        assert(x@ == y@);
        KeyOrder::Same
    }
}

/// `pairs` has its keys in strictly ascending order.
pub open spec fn ascending(pairs: Seq<(Seq<char>, Seq<char>)>) -> bool {
    forall|i: int, j: int|
        0 <= i < j < pairs.len() ==> before((#[trigger] pairs[i]).0, (#[trigger] pairs[j]).0)
}

/// `pairs` is the list of everything in `m`, in key order.
pub open spec fn lists(pairs: Seq<(Seq<char>, Seq<char>)>, m: Map<Seq<char>, Seq<char>>) -> bool {
    &&& ascending(pairs)
    &&& forall|i: int|
        0 <= i < pairs.len() ==> m.contains_pair((#[trigger] pairs[i]).0, pairs[i].1)
    &&& forall|k: Seq<char>| #[trigger]
        m.contains_key(k) ==> exists|i: int| 0 <= i < pairs.len() && (#[trigger] pairs[i]).0 == k
}

/// The map that an ascending list of pairs stands for.
spec fn map_of(pairs: Seq<(Seq<char>, Seq<char>)>) -> Map<Seq<char>, Seq<char>>
    decreases pairs.len(),
{
    if pairs.len() == 0 {
        Map::empty()
    } else {
        map_of(pairs.drop_last()).insert(pairs.last().0, pairs.last().1)
    }
}

proof fn lemma_map_of(pairs: Seq<(Seq<char>, Seq<char>)>)
    requires
        ascending(pairs),
    ensures
        lists(pairs, map_of(pairs)),
        map_of(pairs).dom().finite(),
        map_of(pairs).len() == pairs.len(),
    decreases pairs.len(),
{
    if pairs.len() > 0 {
        let init = pairs.drop_last();
        let m = map_of(init);
        let k = pairs.last().0;
        lemma_map_of(init);
        assert forall|i: int| 0 <= i < init.len() implies (#[trigger] init[i]).0 != k by {
            assert(before(pairs[i].0, pairs[pairs.len() - 1].0));
            lemma_before_irreflexive(k);
        }
        assert(!m.contains_key(k));
        let full = map_of(pairs);
        assert forall|i: int| 0 <= i < pairs.len() implies full.contains_pair(
            (#[trigger] pairs[i]).0,
            pairs[i].1,
        ) by {
            if i < init.len() {
                assert(m.contains_pair(init[i].0, init[i].1));
            }
        }
        assert forall|q: Seq<char>| #[trigger] full.contains_key(q) implies exists|i: int|
            0 <= i < pairs.len() && (#[trigger] pairs[i]).0 == q by {
            if q == k {
                assert(pairs[pairs.len() - 1].0 == q);
            } else {
                assert(m.contains_key(q));
                let i = choose|i: int| 0 <= i < init.len() && (#[trigger] init[i]).0 == q;
                assert(pairs[i].0 == q);
            }
        }
        assert(full.dom() == m.dom().insert(k));
    }
}

/// Two lists of the same map are the same list.
pub proof fn listing_is_unique(
    p: Seq<(Seq<char>, Seq<char>)>,
    q: Seq<(Seq<char>, Seq<char>)>,
    m: Map<Seq<char>, Seq<char>>,
)
    requires
        lists(p, m),
        lists(q, m),
    ensures
        p == q,
{
    lemma_no_longer(p, q, m);
    lemma_no_longer(q, p, m);
    assert forall|i: int| 0 <= i < p.len() implies p[i] == q[i] by {
        lemma_same_at(p, q, m, i);
    }
    assert(p == q);
}

/// Everything in `m`, in key order.
pub open spec fn listing(m: Map<Seq<char>, Seq<char>>) -> Seq<(Seq<char>, Seq<char>)> {
    choose|p: Seq<(Seq<char>, Seq<char>)>| lists(p, m)
}

pub proof fn lemma_listing(p: Seq<(Seq<char>, Seq<char>)>, m: Map<Seq<char>, Seq<char>>)
    requires
        lists(p, m),
    ensures
        listing(m) == p,
{
    listing_is_unique(listing(m), p, m);
}

proof fn lemma_place(p: Seq<(Seq<char>, Seq<char>)>, k: Seq<char>) -> (at: int)
    requires
        ascending(p),
        forall|i: int| 0 <= i < p.len() ==> (#[trigger] p[i]).0 != k,
    ensures
        0 <= at <= p.len(),
        forall|i: int| 0 <= i < at ==> before((#[trigger] p[i]).0, k),
        forall|i: int| at <= i < p.len() ==> before(k, (#[trigger] p[i]).0),
    decreases p.len(),
{
    if p.len() == 0 {
        0
    } else {
        let init = p.drop_last();
        assert(ascending(init)) by {
            assert forall|i: int, j: int| 0 <= i < j < init.len() implies before(
                (#[trigger] init[i]).0,
                (#[trigger] init[j]).0,
            ) by {
                assert(before(p[i].0, p[j].0));
            }
        }
        assert forall|i: int| 0 <= i < init.len() implies (#[trigger] init[i]).0 != k by {
            assert(p[i].0 != k);
        }
        let at = lemma_place(init, k);
        let last = p.len() - 1;
        lemma_before_total(p[last].0, k);
        assert(p[last].0 != k);
        if before(p[last].0, k) {
            assert forall|i: int| 0 <= i < p.len() implies before((#[trigger] p[i]).0, k) by {
                if i < last {
                    assert(before(p[i].0, p[last].0));
                    lemma_before_transitive(p[i].0, p[last].0, k);
                }
            }
            p.len() as int
        } else {
            assert forall|i: int| 0 <= i < at implies before((#[trigger] p[i]).0, k) by {
                assert(init[i] == p[i]);
            }
            assert forall|i: int| at <= i < p.len() implies before(k, (#[trigger] p[i]).0) by {
                if i < last {
                    assert(init[i] == p[i]);
                }
            }
            at
        }
    }
}

proof fn lemma_some_listing(m: Map<Seq<char>, Seq<char>>) -> (p: Seq<(Seq<char>, Seq<char>)>)
    requires
        m.dom().finite(),
    ensures
        lists(p, m),
        p.len() == m.len(),
    decreases m.len(),
{
    if m.len() == 0 {
        assert(m.dom() =~= Set::empty());
        assert forall|k: Seq<char>| #[trigger] m.contains_key(k) implies false by {
            assert(m.dom().contains(k));
        }
        Seq::empty()
    } else {
        let k = m.dom().choose();
        let rest = m.remove(k);
        let p = lemma_some_listing(rest);
        assert forall|i: int| 0 <= i < p.len() implies (#[trigger] p[i]).0 != k by {
            assert(rest.contains_pair(p[i].0, p[i].1));
        }
        let at = lemma_place(p, k);
        let q = p.insert(at, (k, m[k]));
        assert forall|i: int, j: int| 0 <= i < j < q.len() implies before(
            (#[trigger] q[i]).0,
            (#[trigger] q[j]).0,
        ) by {
            if i < at && j > at {
                assert(before(p[i].0, p[j - 1].0));
            } else if i > at {
                assert(before(p[i - 1].0, p[j - 1].0));
            } else if j < at {
                assert(before(p[i].0, p[j].0));
            } else if j == at {
                assert(before(p[i].0, k));
            } else {
                assert(before(k, p[j - 1].0));
            }
        }
        assert forall|i: int| 0 <= i < q.len() implies m.contains_pair((#[trigger] q[i]).0,
            q[i].1) by {
            if i < at {
                assert(rest.contains_pair(p[i].0, p[i].1));
            } else if i > at {
                assert(rest.contains_pair(p[i - 1].0, p[i - 1].1));
            }
        }
        assert forall|x: Seq<char>| #[trigger] m.contains_key(x) implies exists|i: int|
            0 <= i < q.len() && (#[trigger] q[i]).0 == x by {
            if x == k {
                assert(q[at].0 == x);
            } else {
                assert(rest.contains_key(x));
                let i = choose|i: int| 0 <= i < p.len() && (#[trigger] p[i]).0 == x;
                if i < at {
                    assert(q[i].0 == x);
                } else {
                    assert(q[i + 1].0 == x);
                }
            }
        }
        q
    }
}

proof fn lemma_map_of_finite(pairs: Seq<(Seq<char>, Seq<char>)>)
    ensures
        map_of(pairs).dom().finite(),
    decreases pairs.len(),
{
    if pairs.len() > 0 {
        lemma_map_of_finite(pairs.drop_last());
    }
}

/// A map's listing holds every one of its keys once, with its value, and
/// nothing else.
pub proof fn listing_is_complete(m: StrMap)
    ensures
        m@.dom().finite(),
        lists(listing(m@), m@),
        listing(m@).len() == m@.len(),
{
    lemma_map_of_finite(pair_texts(m.entries@));
    let p = lemma_some_listing(m@);
    lemma_listing(p, m@);
}

proof fn lemma_same_at(
    p: Seq<(Seq<char>, Seq<char>)>,
    q: Seq<(Seq<char>, Seq<char>)>,
    m: Map<Seq<char>, Seq<char>>,
    i: int,
)
    requires
        lists(p, m),
        lists(q, m),
        0 <= i < p.len(),
    ensures
        i < q.len(),
        p[i] == q[i],
    decreases i,
{
    assert forall|j: int| 0 <= j < i implies j < q.len() && p[j] == q[j] by {
        lemma_same_at(p, q, m, j);
    }
    assert(m.contains_pair(p[i].0, p[i].1));
    let a = choose|a: int| 0 <= a < q.len() && (#[trigger] q[a]).0 == p[i].0;
    assert(m.contains_pair(q[a].0, q[a].1));
    if a < i {
        assert(q[a] == p[a]);
        assert(before(p[a].0, p[i].0));
        lemma_before_irreflexive(p[i].0);
    }
    if a > i {
        assert(m.contains_pair(q[i].0, q[i].1));
        let b = choose|b: int| 0 <= b < p.len() && (#[trigger] p[b]).0 == q[i].0;
        assert(before(q[i].0, q[a].0));
        if b < i {
            assert(p[b] == q[b]);
            assert(before(q[b].0, q[i].0));
            lemma_before_irreflexive(q[i].0);
        } else if b > i {
            assert(before(p[i].0, p[b].0));
            lemma_before_transitive(q[i].0, p[i].0, p[b].0);
            lemma_before_irreflexive(q[i].0);
        } else {
            lemma_before_irreflexive(p[i].0);
        }
    }
}

proof fn lemma_no_longer(
    p: Seq<(Seq<char>, Seq<char>)>,
    q: Seq<(Seq<char>, Seq<char>)>,
    m: Map<Seq<char>, Seq<char>>,
)
    requires
        lists(p, m),
        lists(q, m),
    ensures
        p.len() <= q.len(),
{
    if p.len() > 0 {
        lemma_same_at(p, q, m, p.len() - 1);
    }
}

/// A map from text to text. No key occurs twice, and listing it gives the keys
/// in order.
#[derive(Debug, PartialEq, Eq)]
pub struct StrMap {
    entries: Vec<(String, String)>,
}

impl View for StrMap {
    type V = Map<Seq<char>, Seq<char>>;

    closed spec fn view(&self) -> Map<Seq<char>, Seq<char>> {
        map_of(pair_texts(self.entries@))
    }
}

impl StrMap {
    #[verifier::type_invariant]
    spec fn well_formed(self) -> bool {
        ascending(pair_texts(self.entries@))
    }

    /// The empty map.
    pub fn new() -> (r: StrMap)
        ensures
            r@ == Map::<Seq<char>, Seq<char>>::empty(),
    {
        StrMap { entries: Vec::new() }
    }

    /// How many keys there are.
    pub fn len(&self) -> (r: usize)
        ensures
            r == self@.len(),
            self@.dom().finite(),
    {
        proof {
            use_type_invariant(self);
            lemma_map_of(pair_texts(self.entries@));
        }
        self.entries.len()
    }

    /// The value of `key`.
    pub fn get(&self, key: &str) -> (r: Option<&String>)
        ensures
            match r {
                Some(v) => self@.contains_pair(key@, v@),
                None => !self@.contains_key(key@),
            },
    {
        proof {
            use_type_invariant(self);
            lemma_map_of(pair_texts(self.entries@));
        }
        let ghost pairs = pair_texts(self.entries@);
        let mut i: usize = 0;
        while i < self.entries.len()
            invariant
                i <= self.entries@.len(),
                pairs == pair_texts(self.entries@),
                lists(pairs, self@),
                forall|j: int| 0 <= j < i ==> (#[trigger] pairs[j]).0 != key@,
            decreases self.entries@.len() - i,
        {
            assert(pairs[i as int] == (self.entries@[i as int].0@, self.entries@[i as int].1@));
            if crate::text::same_text(self.entries[i].0.as_str(), key) {
                assert(self@.contains_pair(pairs[i as int].0, pairs[i as int].1));
                return Some(&self.entries[i].1);
            }
            i += 1;
        }
        None
    }

    /// Give `key` the value `value`, replacing any it had.
    pub fn insert(&mut self, key: String, value: String)
        ensures
            final(self)@ == old(self)@.insert(key@, value@),
    {
        proof {
            use_type_invariant(&*self);
        }
        let mut entries: Vec<(String, String)> = Vec::new();
        std::mem::swap(&mut entries, &mut self.entries);
        let ghost old_pairs = pair_texts(entries@);
        proof {
            lemma_map_of(old_pairs);
        }
        let ghost m = map_of(old_pairs);
        let mut i: usize = 0;
        let mut same: bool = false;
        while i < entries.len()
            invariant_except_break
                !same,
                i <= entries@.len(),
                forall|j: int| 0 <= j < i ==> before((#[trigger] old_pairs[j]).0, key@),
            invariant
                old_pairs == pair_texts(entries@),
                ascending(old_pairs),
            ensures
                i <= entries@.len(),
                same ==> i < entries@.len() && old_pairs[i as int].0 == key@,
                forall|j: int| 0 <= j < i ==> before((#[trigger] old_pairs[j]).0, key@),
                !same && i < entries@.len() ==> before(key@, old_pairs[i as int].0),
            decreases entries@.len() - i,
        {
            assert(old_pairs[i as int].0 == entries@[i as int].0@);
            match compare_keys(entries[i].0.as_str(), key.as_str()) {
                KeyOrder::Before => {},
                KeyOrder::Same => {
                    same = true;
                    break;
                },
                KeyOrder::After => {
                    break;
                },
            }
            i += 1;
        }
        let ghost k = key@;
        let ghost v = value@;
        if same {
            entries.set(i, (key, value));
            let ghost pairs = pair_texts(entries@);
            assert(pairs == old_pairs.update(i as int, (k, v)));
            assert(ascending(pairs)) by {
                assert forall|a: int, b: int| 0 <= a < b < pairs.len() implies before(
                    (#[trigger] pairs[a]).0,
                    (#[trigger] pairs[b]).0,
                ) by {
                    assert(pairs[a].0 == old_pairs[a].0);
                    assert(pairs[b].0 == old_pairs[b].0);
                }
            }
            proof {
                lemma_map_of(pairs);
                assert(lists(pairs, m.insert(k, v))) by {
                    assert forall|a: int| 0 <= a < pairs.len() implies m.insert(k, v).contains_pair(
                        (#[trigger] pairs[a]).0,
                        pairs[a].1,
                    ) by {
                        assert(m.contains_pair(old_pairs[a].0, old_pairs[a].1));
                        if a < i {
                            assert(before(old_pairs[a].0, old_pairs[i as int].0));
                            lemma_before_irreflexive(k);
                        } else if a > i {
                            assert(before(old_pairs[i as int].0, old_pairs[a].0));
                            lemma_before_irreflexive(k);
                        }
                    }
                    assert forall|q: Seq<char>| #[trigger]
                        m.insert(k, v).contains_key(q) implies exists|a: int|
                        0 <= a < pairs.len() && (#[trigger] pairs[a]).0 == q by {
                        if q == k {
                            assert(pairs[i as int].0 == q);
                        } else {
                            assert(m.contains_key(q));
                            let a = choose|a: int|
                                0 <= a < old_pairs.len() && (#[trigger] old_pairs[a]).0 == q;
                            assert(pairs[a].0 == q);
                        }
                    }
                }
                lemma_same_map(pairs, map_of(pairs), m.insert(k, v));
            }
        } else {
            entries.insert(i, (key, value));
            let ghost pairs = pair_texts(entries@);
            assert(pairs == old_pairs.insert(i as int, (k, v)));
            assert(ascending(pairs)) by {
                assert forall|a: int, b: int| 0 <= a < b < pairs.len() implies before(
                    (#[trigger] pairs[a]).0,
                    (#[trigger] pairs[b]).0,
                ) by {
                    if b < i {
                        assert(before(old_pairs[a].0, old_pairs[b].0));
                    } else if b == i {
                        assert(before(old_pairs[a].0, k));
                    } else if a < i {
                        assert(before(old_pairs[a].0, old_pairs[b - 1].0));
                    } else if a == i {
                        if b - 1 > i {
                            assert(before(old_pairs[i as int].0, old_pairs[b - 1].0));
                            lemma_before_transitive(k, old_pairs[i as int].0, old_pairs[b - 1].0);
                        }
                    } else {
                        assert(before(old_pairs[a - 1].0, old_pairs[b - 1].0));
                    }
                }
            }
            proof {
                lemma_map_of(pairs);
                assert(lists(pairs, m.insert(k, v))) by {
                    assert forall|a: int| 0 <= a < pairs.len() implies m.insert(k, v).contains_pair(
                        (#[trigger] pairs[a]).0,
                        pairs[a].1,
                    ) by {
                        if a != i {
                            let c = if a < i {
                                a
                            } else {
                                a - 1
                            };
                            assert(pairs[a] == old_pairs[c]);
                            assert(m.contains_pair(old_pairs[c].0, old_pairs[c].1));
                            if a < i {
                                assert(before(pairs[a].0, pairs[i as int].0));
                            } else {
                                assert(before(pairs[i as int].0, pairs[a].0));
                            }
                            lemma_before_irreflexive(k);
                        }
                    }
                    assert forall|q: Seq<char>| #[trigger]
                        m.insert(k, v).contains_key(q) implies exists|a: int|
                        0 <= a < pairs.len() && (#[trigger] pairs[a]).0 == q by {
                        if q == k {
                            assert(pairs[i as int].0 == q);
                        } else {
                            assert(m.contains_key(q));
                            let a = choose|a: int|
                                0 <= a < old_pairs.len() && (#[trigger] old_pairs[a]).0 == q;
                            if a < i {
                                assert(pairs[a].0 == q);
                            } else {
                                assert(pairs[a + 1].0 == q);
                            }
                        }
                    }
                }
                lemma_same_map(pairs, map_of(pairs), m.insert(k, v));
            }
        }
        self.entries = entries;
    }

    /// Everything in the map, in key order.
    pub fn entries(&self) -> (r: &Vec<(String, String)>)
        ensures
            lists(pair_texts(r@), self@),
    {
        proof {
            use_type_invariant(self);
            lemma_map_of(pair_texts(self.entries@));
        }
        &self.entries
    }
}

proof fn lemma_same_map(
    pairs: Seq<(Seq<char>, Seq<char>)>,
    m: Map<Seq<char>, Seq<char>>,
    n: Map<Seq<char>, Seq<char>>,
)
    requires
        lists(pairs, m),
        lists(pairs, n),
    ensures
        m == n,
{
    assert forall|k: Seq<char>| m.contains_key(k) == n.contains_key(k) && (m.contains_key(k)
        ==> m[k] == n[k]) by {
        if m.contains_key(k) {
            let i = choose|i: int| 0 <= i < pairs.len() && (#[trigger] pairs[i]).0 == k;
            assert(m.contains_pair(pairs[i].0, pairs[i].1));
            assert(n.contains_pair(pairs[i].0, pairs[i].1));
        }
        if n.contains_key(k) {
            let i = choose|i: int| 0 <= i < pairs.len() && (#[trigger] pairs[i]).0 == k;
            assert(m.contains_pair(pairs[i].0, pairs[i].1));
            assert(n.contains_pair(pairs[i].0, pairs[i].1));
        }
    }
    assert(m =~= n);
}

impl Clone for StrMap {
    fn clone(&self) -> (r: StrMap)
        ensures
            r@ == self@,
    {
        let mut r = StrMap::new();
        let list = self.entries();
        let ghost pairs = pair_texts(list@);
        let mut i: usize = 0;
        while i < list.len()
            invariant
                i <= list@.len(),
                pairs == pair_texts(list@),
                ascending(pairs),
                lists(pairs, self@),
                r@ == map_of(pairs.take(i as int)),
            decreases list@.len() - i,
        {
            r.insert(list[i].0.clone(), list[i].1.clone());
            assert(pairs.take(i + 1).drop_last() == pairs.take(i as int));
            i += 1;
        }
        assert(pairs.take(i as int) == pairs);
        proof {
            lemma_map_of(pairs);
            lemma_same_map(pairs, r@, self@);
        }
        r
    }
}

} // verus!
