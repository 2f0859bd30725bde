//! The environment composer: the override set injected into a launched
//! process, merging a record's declared variables with the inherited `PATH`.

use vstd::prelude::*;
use vstd::string::{StrSliceExecFns, StringExecFns};

use crate::platform::{delimiter_str, path_list_delimiter, Platform};
use crate::text::str_eq;

verus! {

/// One declared variable after the merge.  A declared `PATH` is prepended
/// to the non-empty inherited `PATH`, joined by the platform's delimiter;
/// an empty inherited `PATH` leaves the declared value verbatim, and every
/// other variable overrides unconditionally.
pub open spec fn compose_pair(
    kv: (Seq<char>, Seq<char>),
    inherited_path: Seq<char>,
    p: Platform,
) -> (Seq<char>, Seq<char>) {
    if kv.0 == "PATH"@ && inherited_path.len() > 0 {
        (kv.0, kv.1 + seq![path_list_delimiter(p)] + inherited_path)
    } else {
        kv
    }
}

/// The whole override set: every declared pair merged, in order; variables
/// the record does not declare are not in the set and pass through to the
/// child by ordinary inheritance.
pub open spec fn compose_env_spec(
    env: Seq<(Seq<char>, Seq<char>)>,
    inherited_path: Seq<char>,
    p: Platform,
) -> Seq<(Seq<char>, Seq<char>)> {
    env.map_values(|kv: (Seq<char>, Seq<char>)| compose_pair(kv, inherited_path, p))
}

/// Law: composing touches only values.  The override set has exactly the
/// declared keys, in the declared order; in particular a key the record
/// does not declare is never overridden.
pub proof fn lemma_compose_keeps_keys(
    env: Seq<(Seq<char>, Seq<char>)>,
    inherited_path: Seq<char>,
    p: Platform,
)
    ensures
        compose_env_spec(env, inherited_path, p).len() == env.len(),
        forall|i: int|
            0 <= i < env.len() ==> (#[trigger] compose_env_spec(env, inherited_path, p)[i]).0
                == env[i].0,
{
}

/// Composes the child process's environment overrides from the record's
/// declared variables and the inherited `PATH` value.
pub fn compose_env(
    env: &Vec<(String, String)>,
    inherited_path: &str,
    p: Platform,
) -> (r: Vec<(String, String)>)
    ensures
        r.deep_view() == compose_env_spec(env.deep_view(), inherited_path@, p),
{
    let ghost es = env.deep_view();
    let mut out: Vec<(String, String)> = Vec::new();
    let mut i: usize = 0;
    while i < env.len()
        invariant
            es == env.deep_view(),
            es.len() == env@.len(),
            i <= env@.len(),
            out.deep_view() == compose_env_spec(es.take(i as int), inherited_path@, p),
        decreases env@.len() - i,
    {
        let key = env[i].0.clone();
        let value = env[i].1.clone();
        let merged: (String, String);
        if str_eq(key.as_str(), "PATH") && inherited_path.unicode_len() > 0 {
            let mut m = value;
            m.append(delimiter_str(p));
            m.append(inherited_path);
            merged = (key, m);
        } else {
            merged = (key, value);
        }
        proof {
            assert(es[i as int] == (env@[i as int].0@, env@[i as int].1@));
            assert(merged.deep_view() == compose_pair(es[i as int], inherited_path@, p));
        }
        out.push(merged);
        proof {
            assert(es.take(i + 1).map_values(
                |kv: (Seq<char>, Seq<char>)| compose_pair(kv, inherited_path@, p),
            ) =~= es.take(i as int).map_values(
                |kv: (Seq<char>, Seq<char>)| compose_pair(kv, inherited_path@, p),
            ).push(compose_pair(es[i as int], inherited_path@, p)));
            assert(out.deep_view() =~= compose_env_spec(es.take(i + 1), inherited_path@, p));
        }
        i = i + 1;
    }
    proof {
        assert(es.take(env@.len() as int) =~= es);
    }
    out
}

} // verus!
