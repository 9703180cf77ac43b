//! One-time configuration cache.
//!
//! The configuration is loaded from the environment pairs on the first
//! request and memoized in a write-once cell; every later request returns
//! the cached value, whatever the environment holds by then.

use vstd::prelude::*;
use crate::config::{pairs_view, spec_some_path, Config};

verus! {

#[verifier::external_type_specification]
#[verifier::external_body]
#[verifier::reject_recursive_types(T)]
pub struct ExOnceCell<T>(once_cell::sync::OnceCell<T>);

/// What a write-once cell holds: the views of its stored configurations —
/// the empty sequence for an empty cell, one element once it was written.
pub uninterp spec fn cell_contents(cell: once_cell::sync::OnceCell<Config>) -> Seq<Seq<char>>;

/// Relies on once_cell::sync::OnceCell::new: creates an empty cell.
#[verifier::external_body]
fn cell_new() -> (c: once_cell::sync::OnceCell<Config>)
    ensures
        cell_contents(c) == Seq::<Seq<char>>::empty(),
{
    once_cell::sync::OnceCell::new()
}

/// Relies on once_cell::sync::OnceCell::get_or_init: when the cell is
/// empty it runs the initializer — here `Config::from_pairs`, whose result
/// is pinned by its own proved contract — stores the result, and returns
/// it; when the cell is full it returns the stored value unchanged, and
/// the initializer does not run.
#[verifier::external_body]
fn cell_get_or_init(
    cell: &mut once_cell::sync::OnceCell<Config>,
    pairs: &Vec<(String, String)>,
) -> (c: Config)
    ensures
        cell_contents(*old(cell)).len() == 0 ==> {
            &&& cell_contents(*final(cell)) == seq![spec_some_path(pairs_view(pairs@))]
            &&& c@ == spec_some_path(pairs_view(pairs@))
        },
        cell_contents(*old(cell)).len() > 0 ==> {
            &&& cell_contents(*final(cell)) == cell_contents(*old(cell))
            &&& c@ == cell_contents(*old(cell))[0]
        },
{
    cell.get_or_init(|| Config::from_pairs(pairs)).clone()
}

/// What one load does to the cache model and what it returns: an empty
/// cache is filled from the environment pairs; a filled cache stays as it
/// is and hands out its value.
pub open spec fn spec_cache_load(
    m: Seq<Seq<char>>,
    env: Seq<(Seq<char>, Seq<char>)>,
) -> (Seq<Seq<char>>, Seq<char>) {
    if m.len() == 0 {
        (seq![spec_some_path(env)], spec_some_path(env))
    } else {
        (m, m[0])
    }
}

/// Process-wide configuration cache: loads the configuration exactly once.
pub struct ConfigCache {
    cell: once_cell::sync::OnceCell<Config>,
}

impl View for ConfigCache {
    type V = Seq<Seq<char>>;

    /// The cache is modelled by the configurations it has stored: none
    /// before the first load, exactly the one loaded afterwards.
    closed spec fn view(&self) -> Seq<Seq<char>> {
        cell_contents(self.cell)
    }
}

impl ConfigCache {
    /// An empty cache: nothing was loaded yet.
    pub fn new() -> (c: ConfigCache)
        ensures
            c@ == Seq::<Seq<char>>::empty(),
    {
        ConfigCache { cell: cell_new() }
    }

    /// Returns the cached configuration, loading it from the given
    /// environment pairs only on the first call; later calls ignore their
    /// argument and return the value the first call stored.
    pub fn get(&mut self, pairs: &Vec<(String, String)>) -> (c: Config)
        ensures
            (final(self)@, c@) == spec_cache_load(old(self)@, pairs_view(pairs@)),
    {
        cell_get_or_init(&mut self.cell, pairs)
    }
}

/// Loading twice returns the cached value: after a first load from
/// environment `env1`, a load from any environment `env2` — even a changed
/// one — returns exactly what the first load returned, and the cache is
/// left untouched.
pub proof fn lemma_second_load_is_cached(
    env1: Seq<(Seq<char>, Seq<char>)>,
    env2: Seq<(Seq<char>, Seq<char>)>,
)
    ensures
        ({
            let (m1, r1) = spec_cache_load(Seq::empty(), env1);
            let (m2, r2) = spec_cache_load(m1, env2);
            r2 == r1 && m2 == m1
        }),
{
}

} // verus!
