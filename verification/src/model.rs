//! The data model: the active configuration document, named presets, the
//! derived status record, and the environment map they share.
//!
//! The `env` section of the active configuration is held as an ordered list of
//! key/value pairs and is read through its mathematical model, a
//! `Map<Seq<char>, Seq<char>>` in which the first occurrence of a key wins.

use vstd::prelude::*;

verus! {

/// The active configuration document: environment-style string settings,
/// permission lists, and an optional feedback-survey state. Only the four
/// tracked `env` keys carry logic; everything else is passed through.
#[derive(Debug, Clone)]
pub struct ClaudeConfig {
    pub env: Vec<(String, String)>,
    pub permissions: Vec<(String, Vec<String>)>,
    pub feedback_survey_state: Option<Vec<(String, i64)>>,
}

/// A named, reusable bundle of the four tracked credential values. The name
/// is a display label only; identity for matching is the 4-tuple of the other
/// fields.
#[derive(Debug, Clone)]
pub struct ConfigPreset {
    pub name: String,
    pub auth_token: String,
    pub base_url: String,
    pub max_output_tokens: String,
    pub disable_nonessential_traffic: String,
}

/// The mathematical model of a preset: the views of its five fields.
pub struct PresetModel {
    pub name: Seq<char>,
    pub auth_token: Seq<char>,
    pub base_url: Seq<char>,
    pub max_output_tokens: Seq<char>,
    pub disable_nonessential_traffic: Seq<char>,
}

impl View for ConfigPreset {
    type V = PresetModel;

    open spec fn view(&self) -> PresetModel {
        PresetModel {
            name: self.name@,
            auth_token: self.auth_token@,
            base_url: self.base_url@,
            max_output_tokens: self.max_output_tokens@,
            disable_nonessential_traffic: self.disable_nonessential_traffic@,
        }
    }
}

/// The derived configuration-health summary. Never persisted; recomputed on
/// every query. Well-formed when `is_configured` is the conjunction of the
/// two field flags.
#[derive(Debug, Clone)]
pub struct ConfigStatus {
    pub is_configured: bool,
    pub has_token: bool,
    pub has_base_url: bool,
    pub status_message: String,
}

impl ConfigStatus {
    /// The documented invariant of a status record.
    pub open spec fn wf(&self) -> bool {
        self.is_configured == (self.has_token && self.has_base_url)
    }
}

/// Key `k` occurs in the environment list.
pub open spec fn env_has_key(env: Seq<(String, String)>, k: Seq<char>) -> bool {
    exists|i: int| 0 <= i < env.len() && env[i].0@ == k
}

/// Index `i` holds the first occurrence of key `k`.
pub open spec fn is_first_key(env: Seq<(String, String)>, k: Seq<char>, i: int) -> bool {
    &&& 0 <= i < env.len()
    &&& env[i].0@ == k
    &&& forall|j: int| 0 <= j < i ==> env[j].0@ != k
}

/// The index of the first occurrence of key `k`.
pub open spec fn env_first_idx(env: Seq<(String, String)>, k: Seq<char>) -> int {
    choose|i: int| is_first_key(env, k, i)
}

/// The value bound to key `k`: the value of its first occurrence.
pub open spec fn env_value(env: Seq<(String, String)>, k: Seq<char>) -> Seq<char> {
    env[env_first_idx(env, k)].1@
}

/// The environment list as a map from key views to value views.
pub open spec fn env_map(env: Seq<(String, String)>) -> Map<Seq<char>, Seq<char>> {
    Map::new(|k: Seq<char>| env_has_key(env, k), |k: Seq<char>| env_value(env, k))
}

/// Every key that occurs at all occurs a first time.
pub proof fn lemma_first_key_exists(env: Seq<(String, String)>, k: Seq<char>)
    requires
        env_has_key(env, k),
    ensures
        is_first_key(env, k, env_first_idx(env, k)),
{
    let j = choose|j: int| 0 <= j < env.len() && env[j].0@ == k;
    lemma_first_key_from_witness(env, k, j);
    let i = choose|i: int| is_first_key(env, k, i);
    assert(is_first_key(env, k, env_first_idx(env, k)));
}

proof fn lemma_first_key_from_witness(env: Seq<(String, String)>, k: Seq<char>, j: int)
    requires
        0 <= j < env.len(),
        env[j].0@ == k,
    ensures
        exists|i: int| is_first_key(env, k, i),
    decreases j,
{
    if forall|m: int| 0 <= m < j ==> env[m].0@ != k {
        assert(is_first_key(env, k, j));
    } else {
        let m = choose|m: int| 0 <= m < j && env[m].0@ == k;
        lemma_first_key_from_witness(env, k, m);
    }
}

/// The first occurrence is unique.
pub proof fn lemma_first_key_unique(env: Seq<(String, String)>, k: Seq<char>, i1: int, i2: int)
    requires
        is_first_key(env, k, i1),
        is_first_key(env, k, i2),
    ensures
        i1 == i2,
{
    if i1 < i2 {
        assert(env[i1].0@ != k);
    }
    if i2 < i1 {
        assert(env[i2].0@ != k);
    }
}

/// Looks a key up in the environment list; the first occurrence wins.
pub fn env_get<'a>(env: &'a Vec<(String, String)>, key: &str) -> (r: Option<&'a String>)
    ensures
        match r {
            Some(v) => env_has_key(env@, key@) && v@ == env_map(env@)[key@],
            None => !env_has_key(env@, key@),
        },
{
    let n = env.len();
    let mut i: usize = 0;
    while i < n
        invariant
            i <= n,
            n == env@.len(),
            forall|j: int| 0 <= j < i ==> env@[j].0@ != key@,
        decreases n - i,
    {
        if crate::strutil::str_eq(env[i].0.as_str(), key) {
            proof {
                assert(is_first_key(env@, key@, i as int));
                lemma_first_key_exists(env@, key@);
                lemma_first_key_unique(env@, key@, i as int, env_first_idx(env@, key@));
            }
            return Some(&env[i].1);
        }
        i += 1;
    }
    None
}

proof fn lemma_env_replace(
    env0: Seq<(String, String)>,
    env1: Seq<(String, String)>,
    i: int,
    k: Seq<char>,
    v: Seq<char>,
)
    requires
        is_first_key(env0, k, i),
        env1.len() == env0.len(),
        forall|j: int| 0 <= j < env0.len() ==> env1[j].0@ == env0[j].0@,
        forall|j: int| 0 <= j < env0.len() && j != i ==> env1[j].1@ == env0[j].1@,
        env1[i].1@ == v,
    ensures
        env_map(env1) == env_map(env0).insert(k, v),
{
    assert forall|k2: Seq<char>| env_has_key(env0, k2) <==> env_has_key(env1, k2) by {
        if env_has_key(env0, k2) {
            let j = choose|j: int| 0 <= j < env0.len() && env0[j].0@ == k2;
            assert(env1[j].0@ == k2);
        }
        if env_has_key(env1, k2) {
            let j = choose|j: int| 0 <= j < env1.len() && env1[j].0@ == k2;
            assert(env0[j].0@ == k2);
        }
    }
    assert forall|k2: Seq<char>| env_has_key(env1, k2) implies env_value(env1, k2) == (
    if k2 == k {
        v
    } else {
        env_value(env0, k2)
    }) by {
        lemma_first_key_exists(env1, k2);
        lemma_first_key_exists(env0, k2);
        let j1 = env_first_idx(env1, k2);
        let j0 = env_first_idx(env0, k2);
        assert(is_first_key(env0, k2, j1));
        lemma_first_key_unique(env0, k2, j0, j1);
        if k2 == k {
            lemma_first_key_unique(env0, k, j0, i);
        } else {
            assert(env0[i].0@ == k);
        }
    }
    assert(env_map(env1) =~= env_map(env0).insert(k, v));
}

proof fn lemma_env_append(
    env0: Seq<(String, String)>,
    env1: Seq<(String, String)>,
    k: Seq<char>,
    v: Seq<char>,
)
    requires
        !env_has_key(env0, k),
        env1.len() == env0.len() + 1,
        forall|j: int| 0 <= j < env0.len() ==> env1[j] == env0[j],
        env1[env0.len() as int].0@ == k,
        env1[env0.len() as int].1@ == v,
    ensures
        env_map(env1) == env_map(env0).insert(k, v),
{
    let n = env0.len() as int;
    assert forall|k2: Seq<char>| env_has_key(env1, k2) <==> (env_has_key(env0, k2) || k2
        == k) by {
        if env_has_key(env1, k2) {
            let j = choose|j: int| 0 <= j < env1.len() && env1[j].0@ == k2;
            if j < n {
                assert(env0[j].0@ == k2);
            }
        }
        if env_has_key(env0, k2) {
            let j = choose|j: int| 0 <= j < env0.len() && env0[j].0@ == k2;
            assert(env1[j].0@ == k2);
        }
        assert(env1[n].0@ == k);
    }
    assert forall|k2: Seq<char>| env_has_key(env1, k2) implies env_value(env1, k2) == (
    if k2 == k {
        v
    } else {
        env_value(env0, k2)
    }) by {
        lemma_first_key_exists(env1, k2);
        let j1 = env_first_idx(env1, k2);
        if k2 == k {
            assert(is_first_key(env1, k, n)) by {
                assert forall|j: int| 0 <= j < n implies env1[j].0@ != k by {
                    assert(env1[j] == env0[j]);
                }
            }
            lemma_first_key_unique(env1, k, j1, n);
        } else {
            assert(env_has_key(env0, k2));
            lemma_first_key_exists(env0, k2);
            let j0 = env_first_idx(env0, k2);
            assert(env1[j0] == env0[j0]);
            assert(is_first_key(env1, k2, j0)) by {
                assert forall|j: int| 0 <= j < j0 implies env1[j].0@ != k2 by {
                    assert(env1[j] == env0[j]);
                }
            }
            lemma_first_key_unique(env1, k2, j1, j0);
        }
    }
    assert(env_map(env1) =~= env_map(env0).insert(k, v));
}

/// Binds `key` to `value` in the environment list: overwrites the value of
/// the first occurrence of the key, or appends a fresh pair when the key is
/// absent. On the map model this is exactly an insert.
pub fn env_set(env: &mut Vec<(String, String)>, key: &str, value: String)
    ensures
        env_map(final(env)@) == env_map(old(env)@).insert(key@, value@),
{
    let n = env.len();
    let mut i: usize = 0;
    while i < n
        invariant
            i <= n,
            n == env@.len(),
            env@ == old(env)@,
            forall|j: int| 0 <= j < i ==> env@[j].0@ != key@,
        decreases n - i,
    {
        if crate::strutil::str_eq(env[i].0.as_str(), key) {
            let k_owned = env[i].0.clone();
            proof {
                assert(is_first_key(env@, key@, i as int));
            }
            env.set(i, (k_owned, value));
            proof {
                lemma_env_replace(old(env)@, env@, i as int, key@, value@);
            }
            return ;
        }
        i += 1;
    }
    let key_owned = String::from_str(key);
    env.push((key_owned, value));
    proof {
        lemma_env_append(old(env)@, env@, key@, value@);
    }
}

} // verus!
