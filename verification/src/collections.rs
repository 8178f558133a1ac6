//! In-memory collections used by every feature: a key/value map and an
//! insertion-ordered set of strings that removes by swapping in the last
//! element, the way an unordered set stored on a NEAR account behaves.
use vstd::prelude::*;

verus! {

/// A key that the collections can compare and copy with a stated result.
pub trait MapKey: View + Sized {
    fn key_eq(&self, other: &Self) -> (b: bool)
        ensures
            b == (self@ == other@),
    ;

    fn key_copy(&self) -> (c: Self)
        ensures
            c@ == self@,
    ;
}

impl MapKey for String {
    fn key_eq(&self, other: &Self) -> (b: bool) {
        *self == *other
    }

    fn key_copy(&self) -> (c: Self) {
        self.clone()
    }
}

impl MapKey for u8 {
    fn key_eq(&self, other: &Self) -> (b: bool) {
        *self == *other
    }

    fn key_copy(&self) -> (c: Self) {
        *self
    }
}

impl MapKey for u64 {
    fn key_eq(&self, other: &Self) -> (b: bool) {
        *self == *other
    }

    fn key_copy(&self) -> (c: Self) {
        *self
    }
}

pub open spec fn key_views<K: View>(v: Seq<K>) -> Seq<<K as View>::V> {
    v.map_values(|k: K| k@)
}

/// A finite map kept as two parallel vectors of keys and values.
pub struct AssocMap<K: MapKey, V> {
    keys: Vec<K>,
    vals: Vec<V>,
    ghost_map: Ghost<Map<<K as View>::V, V>>,
}

impl<K: MapKey, V> AssocMap<K, V> {
    pub closed spec fn key_seq(&self) -> Seq<<K as View>::V> {
        self.keys@.map_values(|k: K| k@)
    }

    #[verifier::type_invariant]
    closed spec fn inv(&self) -> bool {
        &&& self.keys@.len() == self.vals@.len()
        &&& self.key_seq().no_duplicates()
        &&& forall|k: <K as View>::V| #[trigger]
            self.ghost_map@.contains_key(k) <==> self.key_seq().contains(k)
        &&& forall|i: int|
            0 <= i < self.keys@.len() ==> #[trigger] self.ghost_map@[self.keys@[i]@] == self.vals@[i]
    }

    /// The map as a mathematical map.
    pub closed spec fn map(&self) -> Map<<K as View>::V, V> {
        self.ghost_map@
    }

    pub fn new() -> (r: Self)
        ensures
            r.map() == Map::<<K as View>::V, V>::empty(),
    {
        let r = AssocMap { keys: Vec::new(), vals: Vec::new(), ghost_map: Ghost(Map::empty()) };
        assert(r.key_seq() =~= Seq::empty());
        r
    }

    pub fn len(&self) -> (n: usize)
        ensures
            n == self.map().dom().len(),
    {
        proof {
            use_type_invariant(self);
            self.lemma_dom_is_key_set();
            self.key_seq().unique_seq_to_set();
        }
        self.keys.len()
    }

    proof fn lemma_dom_is_key_set(&self)
        requires
            self.inv(),
        ensures
            self.map().dom() == self.key_seq().to_set(),
            self.map().dom().finite(),
    {
        assert(self.map().dom() =~= self.key_seq().to_set());
        self.key_seq().lemma_cardinality_of_set();
    }

    fn find(&self, k: &K) -> (r: Option<usize>)
        requires
            self.inv(),
        ensures
            match r {
                Some(i) => i < self.keys@.len() && self.keys@[i as int]@ == k@,
                None => !self.key_seq().contains(k@),
            },
    {
        let mut i: usize = 0;
        while i < self.keys.len()
            invariant
                i <= self.keys@.len(),
                forall|j: int| 0 <= j < i ==> self.keys@[j]@ != k@,
            decreases self.keys@.len() - i,
        {
            if self.keys[i].key_eq(k) {
                return Some(i);
            }
            i = i + 1;
        }
        proof {
            if self.key_seq().contains(k@) {
                let j = choose|j: int| 0 <= j < self.key_seq().len() && self.key_seq()[j] == k@;
                assert(self.keys@[j]@ == k@);
            }
        }
        None
    }

    pub fn contains_key(&self, k: &K) -> (b: bool)
        ensures
            b == self.map().contains_key(k@),
    {
        proof {
            use_type_invariant(self);
        }
        match self.find(k) {
            Some(i) => {
                assert(self.key_seq()[i as int] == k@);
                true
            },
            None => false,
        }
    }

    pub fn get(&self, k: &K) -> (r: Option<&V>)
        ensures
            match r {
                Some(v) => self.map().contains_key(k@) && *v == self.map()[k@],
                None => !self.map().contains_key(k@),
            },
    {
        proof {
            use_type_invariant(self);
        }
        match self.find(k) {
            Some(i) => {
                assert(self.key_seq()[i as int] == k@);
                Some(&self.vals[i])
            },
            None => None,
        }
    }

    pub fn insert(&mut self, k: K, v: V) -> (old_v: Option<V>)
        ensures
            final(self).map() == old(self).map().insert(k@, v),
            match old_v {
                Some(o) => old(self).map().contains_key(k@) && o == old(self).map()[k@],
                None => !old(self).map().contains_key(k@),
            },
    {
        proof {
            use_type_invariant(&*self);
        }
        let ghost kv = k@;
        let ghost new_map = self.ghost_map@.insert(kv, v);
        match self.find(&k) {
            Some(i) => {
                let ghost old_keys = self.keys@;
                let mut whole = AssocMap::new();
                std::mem::swap(&mut whole, self);
                let AssocMap { keys, mut vals, ghost_map: _ } = whole;
                let old_val = vals.remove(i);
                vals.insert(i, v);
                assert(keys@ == old_keys);
                proof {
                    assert(old_keys.map_values(|x: K| x@)[i as int] == kv);
                    assert forall|j: int| 0 <= j < keys@.len() implies #[trigger] new_map[keys@[j]@]
                        == vals@[j] by {
                        if j != i {
                            assert(old_keys.map_values(|x: K| x@)[j] == keys@[j]@);
                            assert(keys@[j]@ != kv);
                        }
                    }
                    assert forall|x: <K as View>::V| #[trigger]
                        new_map.contains_key(x) <==> keys@.map_values(|y: K| y@).contains(x) by {
                        if x == kv {
                            assert(keys@.map_values(|y: K| y@)[i as int] == x);
                        }
                    }
                }
                *self = AssocMap { keys, vals, ghost_map: Ghost(new_map) };
                Some(old_val)
            },
            None => {
                let ghost old_keys = self.keys@;
                let ghost old_vals = self.vals@;
                let mut whole = AssocMap::new();
                std::mem::swap(&mut whole, self);
                let AssocMap { mut keys, mut vals, ghost_map: _ } = whole;
                assert(keys@ == old_keys);
                keys.push(k);
                vals.push(v);
                proof {
                    let ks = keys@.map_values(|y: K| y@);
                    let oks = old_keys.map_values(|y: K| y@);
                    assert(ks =~= oks.push(kv));
                    assert forall|j: int| 0 <= j < keys@.len() implies #[trigger] new_map[keys@[j]@]
                        == vals@[j] by {
                        if j < old_keys.len() {
                            assert(oks[j] == keys@[j]@);
                            assert(oks.contains(oks[j]));
                        }
                    }
                    assert forall|x: <K as View>::V| #[trigger]
                        new_map.contains_key(x) <==> ks.contains(x) by {
                        if x == kv {
                            assert(ks[old_keys.len() as int] == x);
                        } else if oks.contains(x) {
                            let j = choose|j: int| 0 <= j < oks.len() && oks[j] == x;
                            assert(ks[j] == x);
                        } else if ks.contains(x) {
                            let j = choose|j: int| 0 <= j < ks.len() && ks[j] == x;
                            assert(oks[j] == x);
                        }
                    }
                }
                *self = AssocMap { keys, vals, ghost_map: Ghost(new_map) };
                None
            },
        }
    }

    pub fn remove(&mut self, k: &K) -> (old_v: Option<V>)
        ensures
            final(self).map() == old(self).map().remove(k@),
            match old_v {
                Some(o) => old(self).map().contains_key(k@) && o == old(self).map()[k@],
                None => !old(self).map().contains_key(k@),
            },
    {
        proof {
            use_type_invariant(&*self);
        }
        let ghost kv = k@;
        let ghost new_map = self.ghost_map@.remove(kv);
        match self.find(k) {
            Some(i) => {
                let ghost old_keys = self.keys@;
                let ghost old_vals = self.vals@;
                let mut whole = AssocMap::new();
                std::mem::swap(&mut whole, self);
                let AssocMap { mut keys, mut vals, ghost_map: _ } = whole;
                assert(keys@ == old_keys);
                keys.remove(i);
                let old_val = vals.remove(i);
                proof {
                    let ks = keys@.map_values(|y: K| y@);
                    let oks = old_keys.map_values(|y: K| y@);
                    assert(ks =~= oks.remove(i as int));
                    assert(oks[i as int] == kv);
                    assert forall|j: int| 0 <= j < keys@.len() implies #[trigger] new_map[keys@[j]@]
                        == vals@[j] by {
                        if j < i {
                            assert(oks[j] == keys@[j]@);
                        } else {
                            assert(oks[j + 1] == keys@[j]@);
                        }
                    }
                    assert forall|x: <K as View>::V| #[trigger]
                        new_map.contains_key(x) <==> ks.contains(x) by {
                        if ks.contains(x) {
                            let j = choose|j: int| 0 <= j < ks.len() && ks[j] == x;
                            if j < i {
                                assert(oks[j] == x);
                            } else {
                                assert(oks[j + 1] == x);
                            }
                        }
                        if new_map.contains_key(x) {
                            let j = choose|j: int| 0 <= j < oks.len() && oks[j] == x;
                            if j < i {
                                assert(ks[j] == x);
                            } else {
                                assert(ks[j - 1] == x);
                            }
                        }
                    }
                }
                *self = AssocMap { keys, vals, ghost_map: Ghost(new_map) };
                Some(old_val)
            },
            None => {
                assert(self.ghost_map@ =~= new_map);
                None
            },
        }
    }

    /// The keys, in the order the map holds them.
    pub fn keys(&self) -> (r: Vec<K>)
        ensures
            key_views(r@).to_set() == self.map().dom(),
            key_views(r@).no_duplicates(),
    {
        proof {
            use_type_invariant(self);
            self.lemma_dom_is_key_set();
        }
        let mut r: Vec<K> = Vec::new();
        let mut i: usize = 0;
        while i < self.keys.len()
            invariant
                self.inv(),
                i <= self.keys@.len(),
                r@.len() == i,
                forall|j: int| 0 <= j < i ==> #[trigger] r@[j]@ == self.keys@[j]@,
            decreases self.keys@.len() - i,
        {
            let c = self.keys[i].key_copy();
            r.push(c);
            i = i + 1;
        }
        assert(r@.map_values(|k: K| k@) =~= self.key_seq());
        r
    }
}

/// An insertion-ordered set of strings. Removal moves the last element into
/// the freed slot.
pub struct StrSet {
    items: Vec<String>,
}

/// The sequence left after removing `x` from `s` by moving the last element
/// into its slot (unchanged when `x` is absent).
pub open spec fn seq_swap_remove(s: Seq<Seq<char>>, x: Seq<char>) -> Seq<Seq<char>> {
    if s.contains(x) {
        let i = s.index_of(x);
        s.update(i, s.last()).drop_last()
    } else {
        s
    }
}

impl StrSet {
    #[verifier::type_invariant]
    closed spec fn inv(&self) -> bool {
        self.items@.map_values(|s: String| s@).no_duplicates()
    }

    /// The elements in enumeration order.
    pub closed spec fn seq(&self) -> Seq<Seq<char>> {
        self.items@.map_values(|s: String| s@)
    }

    pub open spec fn set(&self) -> Set<Seq<char>> {
        self.seq().to_set()
    }

    pub fn new() -> (r: Self)
        ensures
            r.seq() == Seq::<Seq<char>>::empty(),
    {
        let r = StrSet { items: Vec::new() };
        assert(r.seq() =~= Seq::empty());
        r
    }

    pub fn len(&self) -> (n: usize)
        ensures
            n == self.seq().len(),
            n == self.set().len(),
            self.seq().no_duplicates(),
    {
        proof {
            use_type_invariant(self);
            self.seq().unique_seq_to_set();
        }
        self.items.len()
    }

    pub fn index(&self, i: usize) -> (r: &String)
        requires
            i < self.seq().len(),
        ensures
            r@ == self.seq()[i as int],
    {
        &self.items[i]
    }

    pub fn contains(&self, x: &String) -> (b: bool)
        ensures
            b == self.seq().contains(x@),
    {
        let mut i: usize = 0;
        while i < self.items.len()
            invariant
                i <= self.items@.len(),
                forall|j: int| 0 <= j < i ==> self.items@[j]@ != x@,
            decreases self.items@.len() - i,
        {
            if self.items[i] == *x {
                assert(self.seq()[i as int] == x@);
                return true;
            }
            i = i + 1;
        }
        proof {
            if self.seq().contains(x@) {
                let j = choose|j: int| 0 <= j < self.seq().len() && self.seq()[j] == x@;
                assert(self.items@[j]@ == x@);
            }
        }
        false
    }

    /// Adds `x` at the end unless it is already present; says whether it was added.
    pub fn insert(&mut self, x: String) -> (added: bool)
        ensures
            added == !old(self).seq().contains(x@),
            final(self).seq() == if added {
                old(self).seq().push(x@)
            } else {
                old(self).seq()
            },
    {
        proof {
            use_type_invariant(&*self);
        }
        if self.contains(&x) {
            false
        } else {
            let ghost old_seq = self.seq();
            let ghost xv = x@;
            let mut whole = StrSet::new();
            std::mem::swap(&mut whole, self);
            let StrSet { mut items } = whole;
            items.push(x);
            proof {
                assert(items@.map_values(|s: String| s@) =~= old_seq.push(xv));
                assert forall|i: int, j: int|
                    0 <= i < old_seq.len() + 1 && 0 <= j < old_seq.len() + 1 && i != j implies
                    old_seq.push(xv)[i] != old_seq.push(xv)[j] by {
                    if i < old_seq.len() && j == old_seq.len() {
                        assert(old_seq.contains(old_seq[i]));
                    }
                    if j < old_seq.len() && i == old_seq.len() {
                        assert(old_seq.contains(old_seq[j]));
                    }
                }
            }
            *self = StrSet { items };
            true
        }
    }

    /// Removes `x` if present, moving the last element into its slot; says
    /// whether it was present.
    pub fn remove(&mut self, x: &String) -> (removed: bool)
        ensures
            removed == old(self).seq().contains(x@),
            final(self).seq() == seq_swap_remove(old(self).seq(), x@),
            final(self).set() == old(self).set().remove(x@),
    {
        proof {
            use_type_invariant(&*self);
        }
        let ghost old_seq = self.seq();
        let mut i: usize = 0;
        while i < self.items.len()
            invariant
                i <= self.items@.len(),
                old_seq == self.items@.map_values(|s: String| s@),
                old_seq == old(self).seq(),
                old_seq.no_duplicates(),
                forall|j: int| 0 <= j < i ==> self.items@[j]@ != x@,
            decreases self.items@.len() - i,
        {
            if self.items[i] == *x {
                let mut whole = StrSet::new();
            std::mem::swap(&mut whole, self);
            let StrSet { mut items } = whole;
                let ghost before = items@;
                items.swap_remove(i);
                proof {
                    assert(old_seq[i as int] == x@);
                    assert(old_seq.contains(x@));
                    let k = old_seq.index_of(x@);
                    assert(k == i as int);
                    let ns = items@.map_values(|s: String| s@);
                    assert(ns =~= old_seq.update(i as int, old_seq.last()).drop_last());
                    assert forall|a: int, b: int|
                        0 <= a < ns.len() && 0 <= b < ns.len() && a != b implies ns[a]
                        != ns[b] by {
                        let a2 = if a == i { old_seq.len() - 1 } else { a };
                        let b2 = if b == i { old_seq.len() - 1 } else { b };
                        assert(ns[a] == old_seq[a2]);
                        assert(ns[b] == old_seq[b2]);
                    }
                    assert forall|y: Seq<char>| #[trigger]
                        ns.to_set().contains(y) <==> old_seq.to_set().remove(x@).contains(y) by {
                        if ns.contains(y) {
                            let a = choose|a: int| 0 <= a < ns.len() && ns[a] == y;
                            let a2 = if a == i { old_seq.len() - 1 } else { a };
                            assert(ns[a] == old_seq[a2]);
                            assert(a2 != i);
                        }
                        if old_seq.contains(y) && y != x@ {
                            let a = choose|a: int| 0 <= a < old_seq.len() && old_seq[a] == y;
                            assert(a != i);
                            if a == old_seq.len() - 1 {
                                assert(ns[i as int] == y);
                            } else {
                                assert(ns[a] == y);
                            }
                        }
                    }
                    assert(ns.to_set() =~= old_seq.to_set().remove(x@));
                }
                *self = StrSet { items };
                return true;
            }
            i = i + 1;
        }
        proof {
            if old_seq.contains(x@) {
                let j = choose|j: int| 0 <= j < old_seq.len() && old_seq[j] == x@;
                assert(self.items@[j]@ == x@);
            }
            assert(old_seq.to_set() =~= old_seq.to_set().remove(x@));
        }
        false
    }

    /// A copy of the elements in enumeration order.
    pub fn to_vec(&self) -> (r: Vec<String>)
        ensures
            r@.map_values(|s: String| s@) == self.seq(),
    {
        let mut r: Vec<String> = Vec::new();
        let mut i: usize = 0;
        while i < self.items.len()
            invariant
                i <= self.items@.len(),
                r@.len() == i,
                forall|j: int| 0 <= j < i ==> #[trigger] r@[j]@ == self.items@[j]@,
            decreases self.items@.len() - i,
        {
            r.push(self.items[i].clone());
            i = i + 1;
        }
        assert(r@.map_values(|s: String| s@) =~= self.seq());
        r
    }
}


impl<K: MapKey, V: Copy> AssocMap<K, V> {
    /// A copy holding the same entries.
    pub fn copy_map(&self) -> (r: Self)
        ensures
            r.map() == self.map(),
    {
        let ks = self.keys();
        let mut r: AssocMap<K, V> = AssocMap::new();
        let mut i: usize = 0;
        while i < ks.len()
            invariant
                i <= ks@.len(),
                key_views(ks@).to_set() == self.map().dom(),
                r.map().dom() == ks@.subrange(0, i as int).map_values(|k: K| k@).to_set(),
                forall|k: <K as View>::V| #[trigger] r.map().contains_key(k) ==> r.map()[k] == self.map()[k],
            decreases ks@.len() - i,
        {
            let ghost before = r.map();
            let ghost kv = ks@[i as int]@;
            assert(ks@.map_values(|k: K| k@)[i as int] == kv);
            assert(self.map().contains_key(kv));
            let k = ks[i].key_copy();
            match self.get(&ks[i]) {
                Some(v) => {
                    r.insert(k, *v);
                },
                None => {},
            }
            proof {
                let prev = ks@.subrange(0, i as int).map_values(|k: K| k@);
                assert(ks@.subrange(0, i + 1).map_values(|k: K| k@) =~= prev.push(kv));
                prev.lemma_push_to_set_commute(kv);
                assert(r.map().dom() =~= ks@.subrange(0, i + 1).map_values(|k: K| k@).to_set());
            }
            i = i + 1;
        }
        assert(ks@.subrange(0, ks@.len() as int) =~= ks@);
        assert(r.map() =~= self.map());
        r
    }
}

/// `s` with `x` appended unless already present.
pub open spec fn seq_insert(s: Seq<Seq<char>>, x: Seq<char>) -> Seq<Seq<char>> {
    if s.contains(x) {
        s
    } else {
        s.push(x)
    }
}

/// A map of string sets, seen as a map of sequences.
pub open spec fn set_map_view(m: Map<Seq<char>, StrSet>) -> Map<Seq<char>, Seq<Seq<char>>> {
    m.map_values(|s: StrSet| s.seq())
}

/// The set stored under `k`, or the empty one.
pub open spec fn entry_or_empty(m: Map<Seq<char>, Seq<Seq<char>>>, k: Seq<char>) -> Seq<Seq<char>> {
    if m.contains_key(k) {
        m[k]
    } else {
        Seq::empty()
    }
}

/// The map after removing `x` from the set under `k`, dropping the entry
/// when that set becomes empty (unchanged when `k` has no entry).
pub open spec fn set_map_removed(
    m: Map<Seq<char>, Seq<Seq<char>>>,
    k: Seq<char>,
    x: Seq<char>,
) -> Map<Seq<char>, Seq<Seq<char>>> {
    if m.contains_key(k) {
        let ns = seq_swap_remove(m[k], x);
        if ns.len() == 0 {
            m.remove(k)
        } else {
            m.insert(k, ns)
        }
    } else {
        m
    }
}

/// Adds `x` to the set stored under `key`, creating the set when missing;
/// says whether `x` was new.
pub fn set_map_add(m: &mut AssocMap<String, StrSet>, key: &String, x: String) -> (added: bool)
    ensures
        set_map_view(final(m).map()) == set_map_view(old(m).map()).insert(
            key@,
            seq_insert(entry_or_empty(set_map_view(old(m).map()), key@), x@),
        ),
        added == !entry_or_empty(set_map_view(old(m).map()), key@).contains(x@),
{
    let ghost old_view = set_map_view(m.map());
    let mut s = match m.remove(key) {
        Some(s) => s,
        None => StrSet::new(),
    };
    assert(s.seq() == entry_or_empty(old_view, key@));
    let added = s.insert(x);
    let ghost ns = s.seq();
    m.insert(key.clone(), s);
    assert(set_map_view(m.map()) =~= old_view.insert(key@, ns));
    added
}

/// Removes `x` from the set stored under `key`, dropping the entry when the
/// set becomes empty; says whether `key` had an entry.
pub fn set_map_remove(m: &mut AssocMap<String, StrSet>, key: &String, x: &String) -> (found: bool)
    ensures
        found == set_map_view(old(m).map()).contains_key(key@),
        set_map_view(final(m).map()) == set_map_removed(set_map_view(old(m).map()), key@, x@),
{
    let ghost old_view = set_map_view(m.map());
    match m.remove(key) {
        Some(mut s) => {
            s.remove(x);
            let ghost ns = s.seq();
            if s.len() == 0 {
                assert(set_map_view(m.map()) =~= old_view.remove(key@));
            } else {
                m.insert(key.clone(), s);
                assert(set_map_view(m.map()) =~= old_view.insert(key@, ns));
            }
            true
        },
        None => {
            assert(set_map_view(m.map()) =~= old_view);
            false
        },
    }
}

/// The value under `k`, if any.
pub open spec fn map_get<V>(m: Map<Seq<char>, V>, k: Seq<char>) -> Option<V> {
    if m.contains_key(k) {
        Some(m[k])
    } else {
        None
    }
}

/// A map of strings, seen as a map of character sequences.
pub open spec fn str_map_view(m: Map<Seq<char>, String>) -> Map<Seq<char>, Seq<char>> {
    m.map_values(|s: String| s@)
}

/// A map of maps of string sets, seen through sequences.
pub open spec fn nested_view(m: Map<Seq<char>, AssocMap<String, StrSet>>) -> Map<
    Seq<char>,
    Map<Seq<char>, Seq<Seq<char>>>,
> {
    m.map_values(|inner: AssocMap<String, StrSet>| set_map_view(inner.map()))
}

/// The inner map under `k`, or the empty one.
pub open spec fn inner_or_empty(m: Map<Seq<char>, Map<Seq<char>, Seq<Seq<char>>>>, k: Seq<char>) -> Map<
    Seq<char>,
    Seq<Seq<char>>,
> {
    if m.contains_key(k) {
        m[k]
    } else {
        Map::empty()
    }
}

/// Adds `x` to the set under `k1`, then `k2`, creating what is missing.
pub fn nested_add(m: &mut AssocMap<String, AssocMap<String, StrSet>>, k1: &String, k2: &String, x: String)
    ensures
        nested_view(final(m).map()) == nested_view(old(m).map()).insert(
            k1@,
            inner_or_empty(nested_view(old(m).map()), k1@).insert(
                k2@,
                seq_insert(entry_or_empty(inner_or_empty(nested_view(old(m).map()), k1@), k2@), x@),
            ),
        ),
{
    let ghost old_view = nested_view(m.map());
    let mut inner = match m.remove(k1) {
        Some(i) => i,
        None => AssocMap::new(),
    };
    assert(set_map_view(inner.map()) =~= inner_or_empty(old_view, k1@));
    set_map_add(&mut inner, k2, x);
    let ghost iv = set_map_view(inner.map());
    m.insert(k1.clone(), inner);
    assert(nested_view(m.map()) =~= old_view.insert(k1@, iv));
}

} // verus!
