//! An append-only arena of formatter engines, keyed by a canonical locale and
//! an encoded configuration.
//!
//! Entries are created lazily, never updated in place and never evicted: the
//! arena only grows, and an entry's index stays valid for the arena's whole
//! life. The key space (locales crossed with small configuration
//! enumerations) is small and bounded by the locales an application ships, so
//! unbounded growth is the intended trade-off.

use vstd::prelude::*;
use crate::text::str_eq;

verus! {

/// The token of a failed engine construction at the locale-data boundary.
#[derive(Debug, Clone, Copy, PartialEq, Eq, Structural)]
pub struct EngineError;

/// The index of the first entry of `keys` equal to `(loc, cfg)`, if any.
pub open spec fn spec_find_key(keys: Seq<(Seq<char>, u64)>, loc: Seq<char>, cfg: u64) -> Option<
    int,
>
    decreases keys.len(),
{
    if keys.len() == 0 {
        Option::None
    } else if keys[0] == (loc, cfg) {
        Option::Some(0int)
    } else {
        match spec_find_key(keys.drop_first(), loc, cfg) {
            Option::Some(i) => Option::Some(i + 1),
            Option::None => Option::None,
        }
    }
}

/// `spec_find_key` finds exactly the first occurrence of the key, and fails
/// exactly when the key is absent.
pub proof fn lemma_find_key_properties(keys: Seq<(Seq<char>, u64)>, loc: Seq<char>, cfg: u64)
    ensures
        match spec_find_key(keys, loc, cfg) {
            Option::Some(i) => 0 <= i < keys.len() && keys[i] == (loc, cfg) && (forall|k: int|
                0 <= k < i ==> keys[k] != (loc, cfg)),
            Option::None => forall|k: int| 0 <= k < keys.len() ==> keys[k] != (loc, cfg),
        },
    decreases keys.len(),
{
    if keys.len() > 0 && keys[0] != (loc, cfg) {
        let rest = keys.drop_first();
        lemma_find_key_properties(rest, loc, cfg);
        assert(forall|k: int| 1 <= k < keys.len() ==> keys[k] == rest[k - 1]);
        match spec_find_key(rest, loc, cfg) {
            Option::Some(i) => {
                assert(keys[i + 1] == rest[i]);
                assert forall|k: int| 0 <= k < i + 1 implies keys[k] != (loc, cfg) by {
                    if k >= 1 {
                        assert(keys[k] == rest[k - 1]);
                    }
                }
            },
            Option::None => {
                assert forall|k: int| 0 <= k < keys.len() implies keys[k] != (loc, cfg) by {
                    if k >= 1 {
                        assert(keys[k] == rest[k - 1]);
                    }
                }
            },
        }
    }
}

/// Cache partitioning: appending an entry under one key leaves the lookup of
/// every other key unchanged.
pub proof fn lemma_push_preserves_other_lookups(
    keys: Seq<(Seq<char>, u64)>,
    k: (Seq<char>, u64),
    loc: Seq<char>,
    cfg: u64,
)
    requires
        k != (loc, cfg),
    ensures
        spec_find_key(keys.push(k), loc, cfg) == spec_find_key(keys, loc, cfg),
    decreases keys.len(),
{
    let pushed = keys.push(k);
    if keys.len() == 0 {
        assert(pushed[0] == k);
        assert(pushed.drop_first() =~= Seq::<(Seq<char>, u64)>::empty());
        assert(spec_find_key(pushed.drop_first(), loc, cfg) is None);
        assert(spec_find_key(pushed, loc, cfg) is None);
    } else {
        assert(pushed[0] == keys[0]);
        lemma_push_preserves_other_lookups(keys.drop_first(), k, loc, cfg);
        assert(pushed.drop_first() =~= keys.drop_first().push(k));
        assert(spec_find_key(pushed.drop_first(), loc, cfg) == spec_find_key(
            keys.drop_first(),
            loc,
            cfg,
        ));
    }
}

/// A fresh key is found exactly at the index where it was appended.
pub proof fn lemma_find_key_push(keys: Seq<(Seq<char>, u64)>, loc: Seq<char>, cfg: u64)
    requires
        spec_find_key(keys, loc, cfg) is None,
    ensures
        spec_find_key(keys.push((loc, cfg)), loc, cfg) == Option::Some(keys.len() as int),
{
    let pushed = keys.push((loc, cfg));
    lemma_find_key_properties(keys, loc, cfg);
    lemma_find_key_properties(pushed, loc, cfg);
    assert(pushed[keys.len() as int] == (loc, cfg));
    match spec_find_key(pushed, loc, cfg) {
        Option::Some(i) => {
            if i < keys.len() {
                assert(pushed[i] == keys[i]);
            }
        },
        Option::None => {
            assert(pushed[keys.len() as int] != (loc, cfg));
        },
    }
}

/// An append-only arena mapping (canonical locale, configuration code) keys
/// to engines of type `E`. Keys are unique; an entry, once inserted, never
/// moves and is never removed.
pub struct EngineArena<E> {
    locales: Vec<String>,
    configs: Vec<u64>,
    engines: Vec<E>,
}

impl<E> EngineArena<E> {
    /// The keys of the entries, in insertion order.
    pub closed spec fn keys(&self) -> Seq<(Seq<char>, u64)> {
        Seq::new(self.locales@.len(), |i: int| (self.locales@[i]@, self.configs@[i]))
    }

    /// The number of entries.
    pub open spec fn spec_len(&self) -> nat {
        self.keys().len()
    }

    /// The engine stored at index `i`.
    pub closed spec fn engine_at(&self, i: int) -> E {
        self.engines@[i]
    }

    /// Well-formed: the columns line up and no key occurs twice.
    pub closed spec fn wf(&self) -> bool {
        &&& self.locales@.len() == self.configs@.len()
        &&& self.locales@.len() == self.engines@.len()
        &&& forall|i: int, j: int|
            0 <= i < j < self.keys().len() ==> self.keys()[i] != self.keys()[j]
    }

    /// An empty arena.
    pub fn new() -> (r: Self)
        ensures
            r.wf(),
            r.keys() =~= Seq::<(Seq<char>, u64)>::empty(),
    {
        EngineArena { locales: Vec::new(), configs: Vec::new(), engines: Vec::new() }
    }

    /// The number of entries.
    pub fn entry_count(&self) -> (n: usize)
        ensures
            n as nat == self.spec_len(),
    {
        self.locales.len()
    }

    /// Looks the key up; returns the index of its entry, if there is one.
    pub fn find(&self, locale: &str, config: u64) -> (r: Option<usize>)
        requires
            self.wf(),
        ensures
            match r {
                Option::Some(i) => spec_find_key(self.keys(), locale@, config) == Option::Some(
                    i as int,
                ),
                Option::None => spec_find_key(self.keys(), locale@, config) is None,
            },
    {
        let n = self.locales.len();
        let mut i: usize = 0;
        while i < n
            invariant
                self.wf(),
                n == self.locales@.len(),
                i <= n,
                forall|k: int| 0 <= k < i ==> self.keys()[k] != (locale@, config),
            decreases n - i,
        {
            proof {
                assert(self.keys()[i as int] == (self.locales@[i as int]@, self.configs@[i as int]));
            }
            if self.configs[i] == config && str_eq(self.locales[i].as_str(), locale) {
                proof {
                    lemma_find_key_properties(self.keys(), locale@, config);
                    assert(spec_find_key(self.keys(), locale@, config) == Option::Some(i as int));
                }
                return Option::Some(i);
            }
            i += 1;
        }
        proof {
            lemma_find_key_properties(self.keys(), locale@, config);
        }
        Option::None
    }

    /// Appends an entry for a key that is not yet present. Existing entries
    /// keep their indices and their engines.
    pub fn insert(&mut self, locale: String, config: u64, engine: E) -> (i: usize)
        requires
            old(self).wf(),
            spec_find_key(old(self).keys(), locale@, config) is None,
        ensures
            final(self).wf(),
            i as int == old(self).spec_len(),
            final(self).keys() =~= old(self).keys().push((locale@, config)),
            final(self).engine_at(i as int) == engine,
            forall|j: int|
                0 <= j < old(self).spec_len() ==> final(self).engine_at(j) == old(self).engine_at(
                    j,
                ),
    {
        let ghost old_keys = self.keys();
        let i = self.locales.len();
        self.locales.push(locale);
        self.configs.push(config);
        self.engines.push(engine);
        proof {
            assert(self.keys() =~= old_keys.push((locale@, config)));
            lemma_find_key_properties(old_keys, locale@, config);
            assert forall|a: int, b: int|
                0 <= a < b < self.keys().len() implies self.keys()[a] != self.keys()[b] by {
                if b < old_keys.len() {
                    assert(old(self).wf());
                } else {
                    assert(self.keys()[b] == (locale@, config));
                    assert(old_keys[a] != (locale@, config));
                }
            }
        }
        i
    }

    /// Stores the outcome of one engine construction for a key that is not
    /// yet present. A constructed engine is appended and its fresh index
    /// returned; a construction failure leaves the arena exactly as it was
    /// and is passed on — no default or substitute engine is ever stored.
    pub fn insert_built(&mut self, locale: String, config: u64, built: Result<E, EngineError>) -> (r:
        Result<usize, EngineError>)
        requires
            old(self).wf(),
            spec_find_key(old(self).keys(), locale@, config) is None,
        ensures
            final(self).wf(),
            r is Ok <==> built is Ok,
            r matches Ok(i) ==> {
                &&& i as int == old(self).spec_len()
                &&& final(self).keys() =~= old(self).keys().push((locale@, config))
                &&& spec_find_key(final(self).keys(), locale@, config) == Option::Some(i as int)
                &&& final(self).engine_at(i as int) == built->Ok_0
                &&& forall|j: int|
                    0 <= j < old(self).spec_len() ==> final(self).engine_at(j) == old(
                        self,
                    ).engine_at(j)
            },
            r is Err ==> *final(self) == *old(self),
    {
        match built {
            Result::Ok(engine) => {
                let ghost old_keys = self.keys();
                let i = self.insert(locale, config, engine);
                proof {
                    lemma_find_key_push(old_keys, locale@, config);
                }
                Result::Ok(i)
            },
            Result::Err(e) => Result::Err(e),
        }
    }

    /// The engine at an index handed out earlier. The reference stays valid
    /// as long as the arena does, because entries never move.
    pub fn engine(&self, i: usize) -> (r: &E)
        requires
            self.wf(),
            (i as int) < self.spec_len(),
        ensures
            *r == self.engine_at(i as int),
    {
        &self.engines[i]
    }
}

} // verus!
