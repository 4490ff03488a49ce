//! Counts per camera model, kept in key order.

use vstd::prelude::*;
use crate::text::{chars_of, lex_lt, lex_lt_exec, vec_eq, lemma_lex_lt_trans, lemma_lex_lt_irrefl, lemma_lex_lt_total};

verus! {

/// Keys strictly increasing (so no key occurs twice).
pub open spec fn strictly_sorted(s: Seq<(Seq<char>, u32)>) -> bool {
    forall|i: int, j: int| 0 <= i < j < s.len() ==> lex_lt(#[trigger] s[i].0, #[trigger] s[j].0)
}

/// The count recorded for `key`, if any.
pub open spec fn count_of(s: Seq<(Seq<char>, u32)>, key: Seq<char>) -> Option<u32>
    decreases s.len(),
{
    if s.len() == 0 {
        None
    } else if s[0].0 == key {
        Some(s[0].1)
    } else {
        count_of(s.drop_first(), key)
    }
}

/// The sum of all counts.
pub open spec fn sum_counts(s: Seq<(Seq<char>, u32)>) -> nat
    decreases s.len(),
{
    if s.len() == 0 { 0 } else { s[0].1 as nat + sum_counts(s.drop_first()) }
}

proof fn lemma_count_of_index(s: Seq<(Seq<char>, u32)>, key: Seq<char>)
    requires
        strictly_sorted(s),
    ensures
        count_of(s, key) matches Some(c) ==> exists|i: int| 0 <= i < s.len() && s[i].0 == key && s[i].1 == c,
        count_of(s, key) is None ==> forall|i: int| 0 <= i < s.len() ==> s[i].0 != key,
        forall|i: int| 0 <= i < s.len() && s[i].0 == key ==> count_of(s, key) == Some(s[i].1),
    decreases s.len(),
{
    if s.len() > 0 {
        assert(strictly_sorted(s.drop_first()));
        lemma_count_of_index(s.drop_first(), key);
        if s[0].0 == key {
            assert forall|i: int| 0 <= i < s.len() && s[i].0 == key implies count_of(s, key) == Some(s[i].1) by {
                if i > 0 {
                    lemma_lex_lt_irrefl(key);
                }
            }
        } else {
            if let Some(c) = count_of(s, key) {
                let i = choose|i: int| 0 <= i < s.drop_first().len() && s.drop_first()[i].0 == key && s.drop_first()[i].1 == c;
                assert(s[i + 1].0 == key);
            }
            assert forall|i: int| 0 <= i < s.len() && s[i].0 == key implies count_of(s, key) == Some(s[i].1) by {
                assert(i > 0);
                assert(s.drop_first()[i - 1] == s[i]);
            }
        }
    }
}

proof fn lemma_sum_update(s: Seq<(Seq<char>, u32)>, i: int, e: (Seq<char>, u32))
    requires
        0 <= i < s.len(),
    ensures
        sum_counts(s.update(i, e)) + s[i].1 == sum_counts(s) + e.1,
    decreases s.len(),
{
    if i > 0 {
        lemma_sum_update(s.drop_first(), i - 1, e);
        assert(s.update(i, e).drop_first() =~= s.drop_first().update(i - 1, e));
    } else {
        assert(s.update(i, e).drop_first() =~= s.drop_first());
    }
}

proof fn lemma_sum_insert(s: Seq<(Seq<char>, u32)>, i: int, e: (Seq<char>, u32))
    requires
        0 <= i <= s.len(),
    ensures
        sum_counts(s.insert(i, e)) == sum_counts(s) + e.1,
    decreases s.len(),
{
    if i > 0 {
        lemma_sum_insert(s.drop_first(), i - 1, e);
        assert(s.insert(i, e).drop_first() =~= s.drop_first().insert(i - 1, e));
    } else {
        assert(s.insert(i, e).drop_first() =~= s);
    }
}

/// Counts per key, in increasing key order (the order of a `BTreeMap`).
#[derive(Debug)]
pub struct CameraCounts {
    items: Vec<(String, u32)>,
}

impl View for CameraCounts {
    type V = Seq<(Seq<char>, u32)>;

    closed spec fn view(&self) -> Seq<(Seq<char>, u32)> {
        self.items@.map_values(|e: (String, u32)| (e.0@, e.1))
    }
}

impl CameraCounts {
    #[verifier::type_invariant]
    closed spec fn wf(self) -> bool {
        strictly_sorted(self@)
    }

    /// No counts.
    pub fn new() -> (r: CameraCounts)
        ensures
            r@ == Seq::<(Seq<char>, u32)>::empty(),
    {
        let r = CameraCounts { items: Vec::new() };
        assert(r@ =~= Seq::<(Seq<char>, u32)>::empty());
        r
    }

    /// The number of keys.
    pub fn len(&self) -> (r: usize)
        ensures
            r == self@.len(),
    {
        self.items.len()
    }

    /// Whether there is no key.
    pub fn is_empty(&self) -> (r: bool)
        ensures
            r == (self@.len() == 0),
    {
        self.items.len() == 0
    }

    /// The key and count at position `i` in key order.
    pub fn entry(&self, i: usize) -> (r: (&str, u32))
        requires
            i < self@.len(),
        ensures
            r.0@ == self@[i as int].0,
            r.1 == self@[i as int].1,
    {
        (self.items[i].0.as_str(), self.items[i].1)
    }

    /// The count for `key`, if it has one.
    pub fn get(&self, key: &str) -> (r: Option<u32>)
        ensures
            r == count_of(self@, key@),
    {
        proof { use_type_invariant(self); }
        let k = chars_of(key);
        let mut i: usize = 0;
        while i < self.items.len()
            invariant
                i <= self.items.len(),
                k@ == key@,
                strictly_sorted(self@),
                forall|j: int| 0 <= j < i ==> self@[j].0 != key@,
            decreases self.items.len() - i,
        {
            let ki = chars_of(self.items[i].0.as_str());
            if vec_eq(&ki, &k) {
                assert(self@[i as int] == (self.items@[i as int].0@, self.items@[i as int].1));
                proof { lemma_count_of_index(self@, key@); }
                return Some(self.items[i].1);
            }
            i = i + 1;
        }
        proof { lemma_count_of_index(self@, key@); }
        None
    }

    /// The position where `key` is or would be inserted, and whether it is
    /// there.
    fn find(&self, key: &Vec<char>) -> (r: (usize, bool))
        ensures
            r.0 <= self@.len(),
            r.1 ==> r.0 < self@.len() && self@[r.0 as int].0 == key@,
            !r.1 ==> forall|j: int| 0 <= j < r.0 ==> lex_lt(#[trigger] self@[j].0, key@),
            !r.1 ==> forall|j: int| r.0 <= j < self@.len() ==> lex_lt(key@, #[trigger] self@[j].0),
    {
        proof { use_type_invariant(self); }
        let mut i: usize = 0;
        while i < self.items.len()
            invariant
                i <= self.items.len(),
                strictly_sorted(self@),
                forall|j: int| 0 <= j < i ==> lex_lt(#[trigger] self@[j].0, key@),
            decreases self.items.len() - i,
        {
            let ki = chars_of(self.items[i].0.as_str());
            assert(self@[i as int] == (self.items@[i as int].0@, self.items@[i as int].1));
            if vec_eq(&ki, key) {
                return (i, true);
            }
            if lex_lt_exec(key, &ki) {
                proof {
                    assert forall|j: int| i <= j < self@.len() implies lex_lt(key@, #[trigger] self@[j].0) by {
                        if j > i {
                            lemma_lex_lt_trans(key@, self@[i as int].0, self@[j].0);
                        }
                    }
                }
                return (i, false);
            }
            proof { lemma_lex_lt_total(ki@, key@); }
            i = i + 1;
        }
        (i, false)
    }

    /// Sets the count of `key`, returning its previous count (as
    /// `BTreeMap::insert` does).
    pub fn insert(&mut self, key: String, value: u32) -> (r: Option<u32>)
        ensures
            r == count_of(old(self)@, key@),
            count_of(final(self)@, key@) == Some(value),
            forall|k: Seq<char>| k != key@ ==> count_of(final(self)@, k) == count_of(old(self)@, k),
            sum_counts(final(self)@) + (match r { Some(c) => c as nat, None => 0nat })
                == sum_counts(old(self)@) + value,
    {
        proof { use_type_invariant(&*self); }
        let kv = chars_of(key.as_str());
        let (pos, present) = self.find(&kv);
        let ghost old_view = self@;
        if present {
            let prev = self.items[pos].1;
            assert(old_view[pos as int] == (self.items@[pos as int].0@, self.items@[pos as int].1));
            proof { lemma_count_of_index(old_view, key@); }
            self.set_at(pos, key, value);
            proof {
                lemma_sum_update(old_view, pos as int, (key@, value));
                assert(self@[pos as int] == (key@, value));
                lemma_count_of_index(self@, key@);
                assert forall|k: Seq<char>| k != key@ implies count_of(self@, k) == count_of(old_view, k) by {
                    lemma_count_of_index(self@, k);
                    lemma_count_of_index(old_view, k);
                    if let Some(c) = count_of(self@, k) {
                        let i = choose|i: int| 0 <= i < self@.len() && self@[i].0 == k && self@[i].1 == c;
                        assert(old_view[i] == self@[i]);
                    }
                    if let Some(c) = count_of(old_view, k) {
                        let i = choose|i: int| 0 <= i < old_view.len() && old_view[i].0 == k && old_view[i].1 == c;
                        assert(old_view[i] == self@[i]);
                    }
                }
            }
            Some(prev)
        } else {
            proof {
                lemma_count_of_index(old_view, key@);
                lemma_lex_lt_irrefl(key@);
                assert forall|j: int| 0 <= j < old_view.len() implies old_view[j].0 != key@ by {
                    if j < pos {
                        assert(lex_lt(old_view[j].0, key@));
                    } else {
                        assert(lex_lt(key@, old_view[j].0));
                    }
                }
                assert(count_of(old_view, key@) is None);
            }
            self.insert_at(pos, key, value);
            proof {
                lemma_sum_insert(old_view, pos as int, (key@, value));
                assert(self@[pos as int] == (key@, value));
                lemma_count_of_index(self@, key@);
                assert forall|k: Seq<char>| k != key@ implies count_of(self@, k) == count_of(old_view, k) by {
                    lemma_count_of_index(self@, k);
                    lemma_count_of_index(old_view, k);
                    if let Some(c) = count_of(self@, k) {
                        let i = choose|i: int| 0 <= i < self@.len() && self@[i].0 == k && self@[i].1 == c;
                        if i < pos { assert(old_view[i] == self@[i]); } else { assert(old_view[i - 1] == self@[i]); }
                    }
                    if let Some(c) = count_of(old_view, k) {
                        let i = choose|i: int| 0 <= i < old_view.len() && old_view[i].0 == k && old_view[i].1 == c;
                        if i < pos { assert(old_view[i] == self@[i]); } else { assert(old_view[i] == self@[i + 1]); }
                    }
                }
            }
            None
        }
    }

    /// Adds one to the count of `key`, starting from zero.
    pub fn increment(&mut self, key: &String)
        requires
            match count_of(old(self)@, key@) {
                Some(c) => c < u32::MAX,
                None => true,
            },
        ensures
            count_of(final(self)@, key@) == Some(
                (match count_of(old(self)@, key@) {
                    Some(c) => c + 1,
                    None => 1,
                }) as u32,
            ),
            forall|k: Seq<char>| k != key@ ==> count_of(final(self)@, k) == count_of(old(self)@, k),
            sum_counts(final(self)@) == sum_counts(old(self)@) + 1,
    {
        let cur = self.get(key.as_str());
        let next: u32 = match cur {
            Some(c) => c + 1,
            None => 1,
        };
        let _ = self.insert(key.clone(), next);
    }

    /// The sum of all counts.
    pub fn total(&self) -> (r: u128)
        ensures
            r == sum_counts(self@),
            r <= self@.len() * 0xffff_ffff,
            r <= 0xffff_ffff_ffff_ffff_ffff_ffff,
    {
        let mut i = self.items.len();
        let mut t: u128 = 0;
        assert(self@.subrange(i as int, self@.len() as int) =~= Seq::<(Seq<char>, u32)>::empty());
        while i > 0
            invariant
                i <= self.items.len(),
                self@.len() == self.items.len(),
                t == sum_counts(self@.subrange(i as int, self@.len() as int)),
                t <= (self.items.len() - i) * 0xffff_ffff,
            decreases i,
        {
            let c = self.items[i - 1].1;
            proof {
                let sub = self@.subrange(i - 1, self@.len() as int);
                assert(sub.drop_first() =~= self@.subrange(i as int, self@.len() as int));
                assert(sub[0].1 == c);
            }
            t = t + c as u128;
            i = i - 1;
        }
        assert(self@.subrange(0, self@.len() as int) =~= self@);
        assert(self.items.len() * 0xffff_ffff <= 0xffff_ffff_ffff_ffff_ffff_ffffnat) by (nonlinear_arith)
            requires self.items.len() <= 0xffff_ffff_ffff_ffffnat;
        t
    }

    fn set_at(&mut self, pos: usize, key: String, value: u32)
        requires
            pos < old(self)@.len(),
            old(self)@[pos as int].0 == key@,
        ensures
            final(self)@ == old(self)@.update(pos as int, (key@, value)),
    {
        proof { use_type_invariant(&*self); }
        let ghost v0 = self@;
        let mut items: Vec<(String, u32)> = Vec::new();
        std::mem::swap(&mut items, &mut self.items);
        items.set(pos, (key, value));
        let ghost nv = items@.map_values(|e: (String, u32)| (e.0@, e.1));
        assert(nv =~= v0.update(pos as int, (key@, value)));
        proof {
            assert forall|i: int, j: int| 0 <= i < j < nv.len() implies lex_lt(#[trigger] nv[i].0, #[trigger] nv[j].0) by {
                assert(nv[i].0 == v0[i].0 && nv[j].0 == v0[j].0);
            }
        }
        self.items = items;
    }

    fn insert_at(&mut self, pos: usize, key: String, value: u32)
        requires
            pos <= old(self)@.len(),
            forall|j: int| 0 <= j < pos ==> lex_lt(#[trigger] old(self)@[j].0, key@),
            forall|j: int| pos <= j < old(self)@.len() ==> lex_lt(key@, #[trigger] old(self)@[j].0),
        ensures
            final(self)@ == old(self)@.insert(pos as int, (key@, value)),
    {
        proof { use_type_invariant(&*self); }
        let ghost v0 = self@;
        let mut items: Vec<(String, u32)> = Vec::new();
        std::mem::swap(&mut items, &mut self.items);
        items.insert(pos, (key, value));
        let ghost nv = items@.map_values(|e: (String, u32)| (e.0@, e.1));
        assert(nv =~= v0.insert(pos as int, (key@, value)));
        proof {
            assert forall|i: int, j: int| 0 <= i < j < nv.len() implies lex_lt(#[trigger] nv[i].0, #[trigger] nv[j].0) by {
                if i < pos && j < pos {
                } else if i < pos && j == pos {
                } else if i < pos {
                    assert(nv[j] == v0[j - 1]);
                } else if i == pos {
                    assert(nv[j] == v0[j - 1]);
                } else {
                    assert(nv[i] == v0[i - 1] && nv[j] == v0[j - 1]);
                }
            }
        }
        self.items = items;
    }
}

impl Default for CameraCounts {
    fn default() -> (r: Self)
        ensures
            r@ == Seq::<(Seq<char>, u32)>::empty(),
    {
        CameraCounts::new()
    }
}

} // verus!
