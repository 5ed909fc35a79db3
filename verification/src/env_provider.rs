//! The environment-override provider: a variable `db_url` is overridden by the
//! environment entry named `SPIN_VARIABLE_DB_URL`.

use crate::text::{ascii_upper_seq, to_ascii_uppercase};
use vstd::prelude::*;
use vstd::string::*;

verus! {

/// The name of the environment entry that overrides the variable `key`: the
/// namespace prefix followed by the key in ASCII upper case.
pub open spec fn env_var_name_spec(key: Seq<char>) -> Seq<char> {
    "SPIN_VARIABLE_"@ + ascii_upper_seq(key)
}

/// The value of the first entry of `env`, at or after position `from`, whose
/// name is `name`.
pub open spec fn env_lookup_from(
    env: Seq<(Seq<char>, Seq<char>)>,
    name: Seq<char>,
    from: int,
) -> Option<Seq<char>>
    decreases env.len() - from,
{
    if from < 0 || from >= env.len() {
        None
    } else if env[from].0 == name {
        Some(env[from].1)
    } else {
        env_lookup_from(env, name, from + 1)
    }
}

/// The value that a snapshot of the environment holds under `name`, if any.
pub open spec fn env_lookup(env: Seq<(Seq<char>, Seq<char>)>, name: Seq<char>) -> Option<
    Seq<char>,
> {
    env_lookup_from(env, name, 0)
}

/// The override that a snapshot of the environment holds for the variable `key`.
pub open spec fn env_override(env: Seq<(Seq<char>, Seq<char>)>, key: Seq<char>) -> Option<
    Seq<char>,
> {
    env_lookup(env, env_var_name_spec(key))
}

/// The name of the environment entry that overrides the variable `key`.
pub fn env_var_name(key: &str) -> (r: String)
    ensures
        r@ == env_var_name_spec(key@),
{
    let upper = to_ascii_uppercase(key);
    let mut r: String = "SPIN_VARIABLE_".to_owned();
    r.append(upper.as_str());
    r
}

/// Supplies variable values from a snapshot of the process environment, given
/// as `(name, value)` entries.
#[derive(Debug, Clone, Copy, PartialEq, Eq, Structural)]
pub struct EnvProvider;

impl EnvProvider {
    /// The override for `key` in `env`: the value of the first entry named
    /// after the key, or `None` when there is no such entry.
    pub fn get(&self, key: &str, env: &Vec<(String, String)>) -> (r: Option<String>)
        ensures
            r.deep_view() == env_override(env.deep_view(), key@),
    {
        let name = env_var_name(key);
        let ghost model = env.deep_view();
        let mut i: usize = 0;
        while i < env.len()
            invariant
                i <= env@.len(),
                model == env.deep_view(),
                name@ == env_var_name_spec(key@),
                env_lookup(model, name@) == env_lookup_from(model, name@, i as int),
            decreases env@.len() - i,
        {
            if env[i].0 == name {
                return Some(env[i].1.clone());
            }
            i += 1;
        }
        None
    }
}

} // verus!
