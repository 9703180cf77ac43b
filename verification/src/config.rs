//! Configuration loaded from environment variables.
//!
//! The process environment is handed in as a list of `(name, value)` pairs.
//! Every variable named `<prefix><FIELD>` maps to the configuration field
//! `FIELD`; a field whose variable is absent falls back to its default.

use vstd::prelude::*;

verus! {

/// Namespacing prefix of the configuration's environment variables.
pub open spec fn config_prefix() -> Seq<char> {
    "APP_"@
}

/// Default value of the `some_path` field.
pub open spec fn spec_default_some_path() -> Seq<char> {
    "/some/path"@
}

/// Full name of the environment variable behind the `some_path` field.
pub open spec fn some_path_var() -> Seq<char> {
    config_prefix() + "SOME_PATH"@
}

/// Default value of the `some_path` field, as a fresh string.
pub fn some_path() -> (r: String)
    ensures
        r@ == spec_default_some_path(),
{
    "/some/path".to_owned()
}

/// The environment as the specification sees it: each `(name, value)`
/// pair of strings as a pair of character sequences.
pub open spec fn pairs_view(pairs: Seq<(String, String)>) -> Seq<(Seq<char>, Seq<char>)> {
    pairs.map_values(|p: (String, String)| (p.0@, p.1@))
}

/// Value of the first pair named `name`, if any.
pub open spec fn lookup(env: Seq<(Seq<char>, Seq<char>)>, name: Seq<char>) -> Option<Seq<char>>
    decreases env.len(),
{
    if env.len() == 0 {
        None
    } else if env[0].0 == name {
        Some(env[0].1)
    } else {
        lookup(env.drop_first(), name)
    }
}

/// What loading yields for the `some_path` field: the value set in the
/// environment when its variable is present, its default otherwise.
pub open spec fn spec_some_path(env: Seq<(Seq<char>, Seq<char>)>) -> Seq<char> {
    match lookup(env, some_path_var()) {
        Some(v) => v,
        None => spec_default_some_path(),
    }
}

/// Config of the application, loaded from environment variables.
#[derive(Debug, Clone)]
pub struct Config {
    pub some_path: String,
}

impl View for Config {
    type V = Seq<char>;

    /// A configuration is modelled by the one value it holds: its path.
    open spec fn view(&self) -> Seq<char> {
        self.some_path@
    }
}

proof fn lemma_lookup_found(env: Seq<(Seq<char>, Seq<char>)>, name: Seq<char>, i: int)
    requires
        0 <= i < env.len(),
        env[i].0 == name,
        forall|j: int| 0 <= j < i ==> env[j].0 != name,
    ensures
        lookup(env, name) == Some(env[i].1),
    decreases i,
{
    if i > 0 {
        lemma_lookup_found(env.drop_first(), name, i - 1);
    }
}

proof fn lemma_lookup_none(env: Seq<(Seq<char>, Seq<char>)>, name: Seq<char>)
    requires
        forall|j: int| 0 <= j < env.len() ==> env[j].0 != name,
    ensures
        lookup(env, name) is None,
    decreases env.len(),
{
    if env.len() > 0 {
        lemma_lookup_none(env.drop_first(), name);
    }
}

impl Config {
    /// Builds the configuration from the given environment pairs: a field
    /// whose variable is present takes its value, any other field takes
    /// its default.
    pub fn from_pairs(pairs: &Vec<(String, String)>) -> (c: Config)
        ensures
            c@ == spec_some_path(pairs_view(pairs@)),
    {
        proof {
            reveal_strlit("APP_");
            reveal_strlit("SOME_PATH");
            reveal_strlit("APP_SOME_PATH");
        }
        let var: String = "APP_SOME_PATH".to_owned();
        assert(var@ == some_path_var());
        let ghost env = pairs_view(pairs@);
        let n = pairs.len();
        let mut i: usize = 0;
        while i < n
            invariant
                n == pairs.len(),
                i <= n,
                env == pairs_view(pairs@),
                var@ == some_path_var(),
                forall|j: int| 0 <= j < i ==> env[j].0 != some_path_var(),
            decreases n - i,
        {
            if pairs[i].0 == var {
                let found = Config { some_path: pairs[i].1.clone() };
                proof {
                    lemma_lookup_found(env, some_path_var(), i as int);
                }
                return found;
            }
            i += 1;
        }
        proof {
            lemma_lookup_none(env, some_path_var());
        }
        Config { some_path: some_path() }
    }
}

} // verus!
