use vstd::prelude::*;

use crate::error::Error;
use crate::text::concat3;
use crate::text::contains_char;
use crate::text::lemma_split_first_concat;
use crate::text::split_first;
use crate::text::split_first_spec;

verus! {

/// One environment variable of the container's process.
#[derive(Clone, Debug)]
pub struct EnvVariable {
    pub key: String,
    pub value: String,
}

/// `k=v` split at the first '='; the value may itself hold '='.
pub open spec fn parse_env_spec(s: Seq<char>) -> Option<(Seq<char>, Seq<char>)> {
    split_first_spec(s, '=')
}

impl EnvVariable {
    /// Parse `key=value`; the first '=' splits, so the value may hold '='.
    pub fn from_str(s: &str) -> (r: Result<EnvVariable, Error>)
        ensures
            match r {
                Ok(v) => parse_env_spec(s@) == Some((v.key@, v.value@)),
                Err(e) => e == Error::ParseError,
            },
            r is Ok <==> contains_char(s@, '='),
    {
        match split_first(s, '=') {
            Some(p) => Ok(
                (EnvVariable { key: p.0, value: p.1 }),
            ),
            None => Err(Error::ParseError),
        }
    }

    /// The `key=value` form handed to the target process.
    pub fn to_env_string(&self) -> (r: String)
        ensures
            r@ == self.key@ + "="@ + self.value@,
    {
        concat3(self.key.as_str(), "=", self.value.as_str())
    }
}

/// Parsing `key + "=" + value` recovers key and value, provided the key
/// itself holds no '='; the value may.
pub proof fn lemma_env_round_trip(key: Seq<char>, value: Seq<char>)
    requires
        !contains_char(key, '='),
    ensures
        parse_env_spec(key + seq!['='] + value) == Some((key, value)),
{
    lemma_split_first_concat(key, '=', value);
}

/// Whether every entry of `entries` parses as `key=value`.
pub open spec fn all_env_parse(entries: Seq<String>) -> bool {
    forall|i: int| 0 <= i < entries.len() ==> parse_env_spec(entries[i]@) is Some
}

/// Append the image config's environment declarations, each parsed as
/// `key=value`, after the caller's own list; the caller's entries come
/// first. The first entry that does not parse fails the whole merge.
pub fn merge_env(cli: Vec<EnvVariable>, config_env: &Vec<String>) -> (r: Result<
    Vec<EnvVariable>,
    Error,
>)
    ensures
        match r {
            Ok(v) => {
                &&& all_env_parse(config_env@)
                &&& v@.len() == cli@.len() + config_env@.len()
                &&& forall|i: int| 0 <= i < cli@.len() ==> v@[i] == cli@[i]
                &&& forall|i: int|
                    0 <= i < config_env@.len() ==> parse_env_spec(config_env@[i]@) == Some(
                        (#[trigger] v@[cli@.len() + i].key@, v@[cli@.len() + i].value@),
                    )
            },
            Err(e) => e == Error::ParseError && !all_env_parse(config_env@),
        },
{
    let ghost cli0 = cli@;
    let mut out = cli;
    let n = config_env.len();
    let mut i: usize = 0;
    while i < n
        invariant
            i <= n,
            n == config_env@.len(),
            out@.len() == cli0.len() + i,
            forall|j: int| 0 <= j < cli0.len() ==> out@[j] == cli0[j],
            forall|j: int|
                0 <= j < i ==> parse_env_spec(config_env@[j]@) == Some(
                    (#[trigger] out@[cli0.len() + j].key@, out@[cli0.len() + j].value@),
                ),
        decreases n - i,
    {
        match EnvVariable::from_str(config_env[i].as_str()) {
            Ok(v) => {
                out.push(v);
            },
            Err(_) => {
                proof {
                    crate::text::lemma_split_first_exists(config_env@[i as int]@, '=');
                }
                return Err(Error::ParseError);
            },
        }
        i += 1;
    }
    proof {
        assert forall|j: int| 0 <= j < config_env@.len() implies parse_env_spec(
            config_env@[j]@,
        ) is Some by {
            assert(parse_env_spec(config_env@[j]@) == Some(
                (out@[cli0.len() + j].key@, out@[cli0.len() + j].value@),
            ));
        }
    }
    Ok(out)
}

/// The `key=value` strings of `vars`, in order, as handed to the target
/// process at exec time.
pub fn env_strings(vars: &Vec<EnvVariable>) -> (r: Vec<String>)
    ensures
        r@.len() == vars@.len(),
        forall|i: int|
            0 <= i < vars@.len() ==> #[trigger] r@[i]@ == vars@[i].key@ + "="@ + vars@[i].value@,
{
    let n = vars.len();
    let mut r: Vec<String> = Vec::new();
    let mut i: usize = 0;
    while i < n
        invariant
            i <= n,
            n == vars@.len(),
            r@.len() == i,
            forall|j: int|
                0 <= j < i ==> #[trigger] r@[j]@ == vars@[j].key@ + "="@ + vars@[j].value@,
        decreases n - i,
    {
        r.push(vars[i].to_env_string());
        i += 1;
    }
    r
}

} // verus!
