//! The layered sources a settings value is drawn from. A source is a
//! list of key/value pairs; the environment layer is consulted by exact
//! variable name, the document layer by normalised key, and the
//! environment always wins over the document.

use vstd::prelude::*;

use crate::strutil::key_matches;
use crate::strutil::norm_key;
use crate::strutil::str_eq;

verus! {

/// The pairs as mathematical sequences of characters.
pub open spec fn pairs_view(v: Seq<(String, String)>) -> Seq<(Seq<char>, Seq<char>)> {
    v.map_values(|p: (String, String)| (p.0@, p.1@))
}

/// The value of the first pair whose key is exactly the given one.
pub open spec fn lookup_exact(pairs: Seq<(Seq<char>, Seq<char>)>, key: Seq<char>) -> Option<
    Seq<char>,
>
    decreases pairs.len(),
{
    if pairs.len() == 0 {
        None
    } else if pairs[0].0 == key {
        Some(pairs[0].1)
    } else {
        lookup_exact(pairs.skip(1), key)
    }
}

/// The value of the first pair whose normalised key is the given
/// canonical one: dash and underscore forms of a key are equivalent.
pub open spec fn lookup_norm(pairs: Seq<(Seq<char>, Seq<char>)>, key: Seq<char>) -> Option<
    Seq<char>,
>
    decreases pairs.len(),
{
    if pairs.len() == 0 {
        None
    } else if norm_key(pairs[0].0) == key {
        Some(pairs[0].1)
    } else {
        lookup_norm(pairs.skip(1), key)
    }
}

/// What the two layers together hold for a field: the environment
/// variable when set, else the document value under the canonical key.
pub open spec fn merged_src(
    doc: Seq<(Seq<char>, Seq<char>)>,
    env: Seq<(Seq<char>, Seq<char>)>,
    doc_key: Seq<char>,
    env_name: Seq<char>,
) -> Option<Seq<char>> {
    match lookup_exact(env, env_name) {
        Some(v) => Some(v),
        None => lookup_norm(doc, doc_key),
    }
}

/// An environment variable set for a field always overrides whatever the
/// document layer holds for it.
pub proof fn lemma_env_overrides_document(
    doc: Seq<(Seq<char>, Seq<char>)>,
    env: Seq<(Seq<char>, Seq<char>)>,
    doc_key: Seq<char>,
    env_name: Seq<char>,
)
    requires
        lookup_exact(env, env_name) is Some,
    ensures
        merged_src(doc, env, doc_key, env_name) == lookup_exact(env, env_name),
{
}

/// Reads an environment variable by its exact name.
pub fn env_lookup(pairs: &Vec<(String, String)>, key: &str) -> (r: Option<String>)
    ensures
        match r {
            None => lookup_exact(pairs_view(pairs@), key@) is None,
            Some(v) => lookup_exact(pairs_view(pairs@), key@) == Some(v@),
        },
{
    let ghost pv = pairs_view(pairs@);
    proof {
        assert(pv.skip(0) =~= pv);
    }
    let n = pairs.len();
    let mut i: usize = 0;
    while i < n
        invariant
            i <= n,
            n == pairs@.len(),
            pv == pairs_view(pairs@),
            pv.len() == n,
            lookup_exact(pv, key@) == lookup_exact(pv.skip(i as int), key@),
        decreases n - i,
    {
        proof {
            assert(pv.skip(i as int)[0] == pv[i as int]);
            assert(pv.skip(i as int).skip(1) =~= pv.skip(i + 1));
        }
        if str_eq(pairs[i].0.as_str(), key) {
            return Some(pairs[i].1.clone());
        }
        i = i + 1;
    }
    proof {
        assert(pv.skip(n as int).len() == 0);
    }
    None
}

/// Reads a document value by its canonical key, accepting dash and
/// underscore forms of the written key alike.
pub fn doc_lookup(pairs: &Vec<(String, String)>, key: &str) -> (r: Option<String>)
    ensures
        match r {
            None => lookup_norm(pairs_view(pairs@), key@) is None,
            Some(v) => lookup_norm(pairs_view(pairs@), key@) == Some(v@),
        },
{
    let ghost pv = pairs_view(pairs@);
    proof {
        assert(pv.skip(0) =~= pv);
    }
    let n = pairs.len();
    let mut i: usize = 0;
    while i < n
        invariant
            i <= n,
            n == pairs@.len(),
            pv == pairs_view(pairs@),
            pv.len() == n,
            lookup_norm(pv, key@) == lookup_norm(pv.skip(i as int), key@),
        decreases n - i,
    {
        proof {
            assert(pv.skip(i as int)[0] == pv[i as int]);
            assert(pv.skip(i as int).skip(1) =~= pv.skip(i + 1));
        }
        if key_matches(pairs[i].0.as_str(), key) {
            return Some(pairs[i].1.clone());
        }
        i = i + 1;
    }
    proof {
        assert(pv.skip(n as int).len() == 0);
    }
    None
}

/// Reads a field's raw value from the merged layers.
pub fn merged_lookup(
    doc: &Vec<(String, String)>,
    env: &Vec<(String, String)>,
    doc_key: &str,
    env_name: &str,
) -> (r: Option<String>)
    ensures
        match r {
            None => merged_src(pairs_view(doc@), pairs_view(env@), doc_key@, env_name@) is None,
            Some(v) => merged_src(pairs_view(doc@), pairs_view(env@), doc_key@, env_name@) == Some(
                v@,
            ),
        },
{
    match env_lookup(env, env_name) {
        Some(v) => Some(v),
        None => doc_lookup(doc, doc_key),
    }
}

} // verus!
