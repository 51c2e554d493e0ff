//! The in-memory cache of fitted models, keyed by `fit_id`.

use vstd::prelude::*;

use crate::dto::StartValue;
use crate::model::ModelKind;
use crate::text::same_text;

verus! {

/// A fitted model with its semantic metadata. `F` is the statistical engine's
/// fit, which the library carries without looking inside; the facts that the
/// library reports about it are copied into the plain fields when it is cached.
pub struct CachedFit<F> {
    pub model_kind: ModelKind,
    pub formula: String,
    /// The resolved path of the data the model was fitted to.
    pub data_path: String,
    pub reml: Option<bool>,
    pub n_agq: Option<usize>,
    pub start: Option<Vec<StartValue>>,
    pub num_obs: usize,
    pub converged: Option<bool>,
    pub fixed_names: Option<Vec<String>>,
    /// The family the engine reports for the fit, if any.
    pub family_name: Option<String>,
    /// The link the engine reports for the fit, if any.
    pub link_name: Option<String>,
    pub fit: F,
}

/// No key occurs twice in the entries.
pub open spec fn unique_keys<F>(s: Seq<(String, CachedFit<F>)>) -> bool {
    forall|i: int, j: int|
        0 <= i < s.len() && 0 <= j < s.len() && i != j ==> #[trigger] s[i].0@ != #[trigger] s[j].0@
}

/// Some entry has key `k`.
pub open spec fn has_key<F>(s: Seq<(String, CachedFit<F>)>, k: Seq<char>) -> bool {
    exists|i: int| 0 <= i < s.len() && #[trigger] s[i].0@ == k
}

/// The map from keys to fits that the entries hold.
pub open spec fn map_of<F>(s: Seq<(String, CachedFit<F>)>) -> Map<Seq<char>, CachedFit<F>> {
    Map::new(
        |k: Seq<char>| has_key(s, k),
        |k: Seq<char>| s[choose|i: int| 0 <= i < s.len() && #[trigger] s[i].0@ == k].1,
    )
}

proof fn lemma_map_of_at<F>(s: Seq<(String, CachedFit<F>)>, i: int)
    requires
        unique_keys(s),
        0 <= i < s.len(),
    ensures
        map_of(s).contains_key(s[i].0@),
        map_of(s)[s[i].0@] == s[i].1,
{
    let k = s[i].0@;
    assert(has_key(s, k));
    let j = choose|j: int| 0 <= j < s.len() && #[trigger] s[j].0@ == k;
    assert(s[j].0@ == k);
    assert(j == i);
}

/// An in-memory cache of fits keyed by `fit_id`. Its view is the map from each
/// `fit_id` to the cached fit.
pub struct FitSession<F> {
    entries: Vec<(String, CachedFit<F>)>,
}

impl<F> View for FitSession<F> {
    type V = Map<Seq<char>, CachedFit<F>>;

    closed spec fn view(&self) -> Map<Seq<char>, CachedFit<F>> {
        map_of(self.entries@)
    }
}

impl<F> FitSession<F> {
    #[verifier::type_invariant]
    closed spec fn keys_unique(self) -> bool {
        unique_keys(self.entries@)
    }

    /// An empty session.
    pub fn new() -> (s: Self)
        ensures
            s@ == Map::<Seq<char>, CachedFit<F>>::empty(),
    {
        let s = FitSession { entries: Vec::new() };
        assert(s@ =~= Map::<Seq<char>, CachedFit<F>>::empty());
        s
    }

    /// The position of the entry with key `fit_id`, if there is one.
    fn find(&self, fit_id: &str) -> (r: Option<usize>)
        ensures
            match r {
                Some(i) => i < self.entries@.len() && self.entries@[i as int].0@ == fit_id@,
                None => !has_key(self.entries@, fit_id@),
            },
    {
        let n = self.entries.len();
        let mut i: usize = 0;
        while i < n
            invariant
                n == self.entries@.len(),
                i <= n,
                forall|j: int| 0 <= j < i ==> #[trigger] self.entries@[j].0@ != fit_id@,
            decreases n - i,
        {
            if same_text(self.entries[i].0.as_str(), fit_id) {
                return Some(i);
            }
            i = i + 1;
        }
        None
    }

    /// Caches `entry` under `fit_id`, replacing what was cached there before.
    pub fn insert(&mut self, fit_id: String, entry: CachedFit<F>)
        ensures
            final(self)@ == old(self)@.insert(fit_id@, entry),
    {
        proof {
            use_type_invariant(&*self);
        }
        let ghost old_s = self.entries@;
        let found = self.find(fit_id.as_str());
        let mut entries: Vec<(String, CachedFit<F>)> = Vec::new();
        std::mem::swap(&mut entries, &mut self.entries);
        match found {
            Some(i) => {
                entries.set(i, (fit_id, entry));
                proof {
                    let s = entries@;
                    assert forall|a: int, b: int|
                        0 <= a < s.len() && 0 <= b < s.len() && a != b implies #[trigger] s[a].0@
                        != #[trigger] s[b].0@ by {
                        if a != i && b != i {
                            assert(s[a] == old_s[a]);
                            assert(s[b] == old_s[b]);
                        } else if a == i {
                            assert(s[b] == old_s[b]);
                        } else {
                            assert(s[a] == old_s[a]);
                        }
                    }
                    assert(entries@ == old_s.update(i as int, entries@[i as int]));
                    Self::lemma_map_update(old_s, entries@, i as int);
                }
                self.entries = entries;
            },
            None => {
                entries.push((fit_id, entry));
                proof {
                    let s = entries@;
                    assert forall|a: int, b: int|
                        0 <= a < s.len() && 0 <= b < s.len() && a != b implies #[trigger] s[a].0@
                        != #[trigger] s[b].0@ by {
                        if a < old_s.len() && b < old_s.len() {
                            assert(s[a] == old_s[a]);
                            assert(s[b] == old_s[b]);
                        } else if a < old_s.len() {
                            assert(s[a] == old_s[a]);
                        } else {
                            assert(s[b] == old_s[b]);
                        }
                    }
                    assert(entries@.subrange(0, old_s.len() as int) =~= old_s);
                    Self::lemma_map_push(old_s, entries@);
                }
                self.entries = entries;
            },
        }
    }

    proof fn lemma_map_update(old_s: Seq<(String, CachedFit<F>)>, s: Seq<(String, CachedFit<F>)>, i: int)
        requires
            unique_keys(old_s),
            unique_keys(s),
            0 <= i < old_s.len(),
            s == old_s.update(i, s[i]),
            s[i].0@ == old_s[i].0@,
        ensures
            map_of(s) == map_of(old_s).insert(old_s[i].0@, s[i].1),
    {
        let m = map_of(old_s).insert(old_s[i].0@, s[i].1);
        assert forall|k: Seq<char>| #[trigger] map_of(s).contains_key(k) == m.contains_key(k) by {
            if has_key(s, k) {
                let j = choose|j: int| 0 <= j < s.len() && #[trigger] s[j].0@ == k;
                if j != i {
                    assert(old_s[j] == s[j]);
                    assert(has_key(old_s, k));
                }
            }
            if has_key(old_s, k) {
                let j = choose|j: int| 0 <= j < old_s.len() && #[trigger] old_s[j].0@ == k;
                if j != i {
                    assert(old_s[j] == s[j]);
                }
                assert(has_key(s, k));
            }
            if k == old_s[i].0@ {
                assert(s[i].0@ == k);
                assert(has_key(s, k));
            }
        }
        assert forall|k: Seq<char>| #[trigger] map_of(s).contains_key(k) implies map_of(s)[k] == m[k] by {
            let j = choose|j: int| 0 <= j < s.len() && #[trigger] s[j].0@ == k;
            lemma_map_of_at(s, j);
            if j != i {
                assert(old_s[j] == s[j]);
                lemma_map_of_at(old_s, j);
            }
        }
        assert(map_of(s) =~= m);
    }

    proof fn lemma_map_push(old_s: Seq<(String, CachedFit<F>)>, s: Seq<(String, CachedFit<F>)>)
        requires
            unique_keys(old_s),
            unique_keys(s),
            s.len() == old_s.len() + 1,
            s.subrange(0, old_s.len() as int) == old_s,
        ensures
            map_of(s) == map_of(old_s).insert(s.last().0@, s.last().1),
    {
        let n = old_s.len() as int;
        let m = map_of(old_s).insert(s[n].0@, s[n].1);
        assert forall|j: int| 0 <= j < n implies #[trigger] s[j] == old_s[j] by {
            assert(s.subrange(0, n)[j] == s[j]);
        }
        assert forall|k: Seq<char>| #[trigger] map_of(s).contains_key(k) == m.contains_key(k) by {
            if has_key(s, k) {
                let j = choose|j: int| 0 <= j < s.len() && #[trigger] s[j].0@ == k;
                if j < n {
                    assert(old_s[j] == s[j]);
                    assert(has_key(old_s, k));
                }
            }
            if has_key(old_s, k) {
                let j = choose|j: int| 0 <= j < old_s.len() && #[trigger] old_s[j].0@ == k;
                assert(old_s[j] == s[j]);
                assert(has_key(s, k));
            }
            if k == s[n].0@ {
                assert(has_key(s, k));
            }
        }
        assert forall|k: Seq<char>| #[trigger] map_of(s).contains_key(k) implies map_of(s)[k] == m[k] by {
            let j = choose|j: int| 0 <= j < s.len() && #[trigger] s[j].0@ == k;
            lemma_map_of_at(s, j);
            if j < n {
                assert(old_s[j] == s[j]);
                lemma_map_of_at(old_s, j);
            }
        }
        assert(map_of(s) =~= m);
    }

    /// The fit cached under `fit_id`, if any.
    pub fn get(&self, fit_id: &str) -> (r: Option<&CachedFit<F>>)
        ensures
            match r {
                Some(c) => self@.contains_key(fit_id@) && *c == self@[fit_id@],
                None => !self@.contains_key(fit_id@),
            },
    {
        proof {
            use_type_invariant(self);
        }
        match self.find(fit_id) {
            Some(i) => {
                proof {
                    lemma_map_of_at(self.entries@, i as int);
                }
                Some(&self.entries[i].1)
            },
            None => None,
        }
    }

    /// The order in which [`Self::list`] reports the cached handles: a function of
    /// the session's state (the order of caching), each handle once.
    pub closed spec fn key_order(&self) -> Seq<Seq<char>> {
        self.entries@.map_values(|e: (String, CachedFit<F>)| e.0@)
    }

    /// Every cached fit with its `fit_id`, each once, in the session's key order.
    pub fn list(&self) -> (r: Vec<(String, &CachedFit<F>)>)
        ensures
            r@.len() == self.key_order().len(),
            forall|i: int| 0 <= i < r@.len() ==> #[trigger] r@[i].0@ == self.key_order()[i],
            forall|i: int|
                0 <= i < r@.len() ==> self@.contains_key(#[trigger] r@[i].0@) && *r@[i].1
                    == self@[r@[i].0@],
            forall|k: Seq<char>|
                #[trigger] self@.contains_key(k) ==> exists|i: int|
                    0 <= i < r@.len() && #[trigger] r@[i].0@ == k,
            forall|i: int, j: int|
                0 <= i < r@.len() && 0 <= j < r@.len() && i != j ==> #[trigger] r@[i].0@
                    != #[trigger] r@[j].0@,
    {
        proof {
            use_type_invariant(self);
        }
        let n = self.entries.len();
        let mut r: Vec<(String, &CachedFit<F>)> = Vec::new();
        let mut i: usize = 0;
        while i < n
            invariant
                n == self.entries@.len(),
                unique_keys(self.entries@),
                i <= n,
                r@.len() == i,
                forall|j: int|
                    0 <= j < i ==> #[trigger] r@[j].0@ == self.entries@[j].0@ && *r@[j].1
                        == self.entries@[j].1,
            decreases n - i,
        {
            let e = &self.entries[i];
            r.push((e.0.clone(), &e.1));
            i = i + 1;
        }
        proof {
            let s = self.entries@;
            assert forall|j: int| 0 <= j < r@.len() implies self@.contains_key(#[trigger] r@[j].0@)
                && *r@[j].1 == self@[r@[j].0@] by {
                lemma_map_of_at(s, j);
            }
            assert forall|k: Seq<char>| #[trigger] self@.contains_key(k) implies exists|j: int|
                0 <= j < r@.len() && #[trigger] r@[j].0@ == k by {
                let j = choose|j: int| 0 <= j < s.len() && #[trigger] s[j].0@ == k;
                assert(r@[j].0@ == k);
            }
            assert forall|a: int, b: int|
                0 <= a < r@.len() && 0 <= b < r@.len() && a != b implies #[trigger] r@[a].0@
                != #[trigger] r@[b].0@ by {
                assert(r@[a].0@ == s[a].0@);
                assert(r@[b].0@ == s[b].0@);
            }
        }
        r
    }

    /// Drops the fit cached under `fit_id`; tells whether there was one.
    pub fn remove(&mut self, fit_id: &str) -> (r: bool)
        ensures
            r == old(self)@.contains_key(fit_id@),
            final(self)@ == old(self)@.remove(fit_id@),
    {
        proof {
            use_type_invariant(&*self);
        }
        let ghost old_s = self.entries@;
        match self.find(fit_id) {
            Some(i) => {
                let mut entries: Vec<(String, CachedFit<F>)> = Vec::new();
                std::mem::swap(&mut entries, &mut self.entries);
                entries.remove(i);
                proof {
                    let s = entries@;
                    let k = fit_id@;
                    lemma_map_of_at(old_s, i as int);
                    assert forall|j: int| 0 <= j < s.len() implies #[trigger] s[j] == (if j < i {
                        old_s[j]
                    } else {
                        old_s[j + 1]
                    }) by {}
                    assert forall|a: int, b: int|
                        0 <= a < s.len() && 0 <= b < s.len() && a != b implies #[trigger] s[a].0@
                        != #[trigger] s[b].0@ by {
                        let a2 = if a < i { a } else { a + 1 };
                        let b2 = if b < i { b } else { b + 1 };
                        assert(s[a] == old_s[a2]);
                        assert(s[b] == old_s[b2]);
                    }
                    let m = map_of(old_s).remove(k);
                    assert forall|key: Seq<char>| #[trigger] map_of(s).contains_key(key)
                        == m.contains_key(key) by {
                        if has_key(s, key) {
                            let j = choose|j: int| 0 <= j < s.len() && #[trigger] s[j].0@ == key;
                            let j2 = if j < i { j } else { j + 1 };
                            assert(s[j] == old_s[j2]);
                            assert(old_s[j2].0@ == key);
                            assert(has_key(old_s, key));
                            assert(j2 != i);
                        }
                        if has_key(old_s, key) && key != k {
                            let j = choose|j: int| 0 <= j < old_s.len() && #[trigger] old_s[j].0@ == key;
                            assert(j != i);
                            let j2 = if j < i { j } else { j - 1 };
                            assert(s[j2] == old_s[j]);
                            assert(has_key(s, key));
                        }
                    }
                    assert forall|key: Seq<char>| #[trigger] map_of(s).contains_key(key) implies map_of(
                        s,
                    )[key] == m[key] by {
                        let j = choose|j: int| 0 <= j < s.len() && #[trigger] s[j].0@ == key;
                        let j2 = if j < i { j } else { j + 1 };
                        assert(s[j] == old_s[j2]);
                        lemma_map_of_at(s, j);
                        lemma_map_of_at(old_s, j2);
                    }
                    assert(map_of(s) =~= m);
                }
                self.entries = entries;
                true
            },
            None => {
                proof {
                    assert(self@ =~= old(self)@.remove(fit_id@));
                }
                false
            },
        }
    }
}

impl<F> Default for FitSession<F> {
    fn default() -> (r: Self)
        ensures
            r@ == Map::<Seq<char>, CachedFit<F>>::empty(),
    {
        Self::new()
    }
}

} // verus!
