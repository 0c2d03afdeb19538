use vstd::prelude::*;

use crate::error::Error;
use crate::text::contains_char;
use crate::text::lemma_split_first_concat;
use crate::text::split_first;
use crate::text::split_first_spec;

verus! {

/// A bind mount: a host path and the container path it appears at.
#[derive(Clone, Debug)]
pub struct Volume {
    pub source: String,
    pub destination: String,
}

/// `src:dst` split at the first ':'; `None` when there is no ':'.
pub open spec fn parse_volume_spec(s: Seq<char>) -> Option<(Seq<char>, Seq<char>)> {
    split_first_spec(s, ':')
}

impl Volume {
    /// Parse `source:destination`; everything before the first ':' is the
    /// source, everything after it the destination.
    pub fn from_str(s: &str) -> (r: Result<Volume, Error>)
        ensures
            match r {
                Ok(v) => parse_volume_spec(s@) == Some((v.source@, v.destination@)),
                Err(e) => e == Error::ParseError,
            },
            r is Ok <==> contains_char(s@, ':'),
    {
        match split_first(s, ':') {
            Some(p) => Ok(
                (Volume { source: p.0, destination: p.1 }),
            ),
            None => Err(Error::ParseError),
        }
    }
}

/// Parsing `source + ":" + destination` recovers the two parts, provided the
/// source itself holds no ':'.
pub proof fn lemma_volume_round_trip(source: Seq<char>, destination: Seq<char>)
    requires
        !contains_char(source, ':'),
    ensures
        parse_volume_spec(source + seq![':'] + destination) == Some((source, destination)),
{
    lemma_split_first_concat(source, ':', destination);
}

/// Whether every entry of `entries` parses as a volume.
pub open spec fn all_volumes_parse(entries: Seq<String>) -> bool {
    forall|i: int| 0 <= i < entries.len() ==> parse_volume_spec(entries[i]@) is Some
}

/// Append the image config's volume declarations, each parsed as
/// `source:destination`, after the caller's own list; the caller's entries
/// come first. The first entry that does not parse fails the whole merge.
pub fn merge_volumes(cli: Vec<Volume>, config_volumes: &Vec<String>) -> (r: Result<
    Vec<Volume>,
    Error,
>)
    ensures
        match r {
            Ok(v) => {
                &&& all_volumes_parse(config_volumes@)
                &&& v@.len() == cli@.len() + config_volumes@.len()
                &&& forall|i: int| 0 <= i < cli@.len() ==> v@[i] == cli@[i]
                &&& forall|i: int|
                    0 <= i < config_volumes@.len() ==> parse_volume_spec(config_volumes@[i]@)
                        == Some(
                        (
                            #[trigger] v@[cli@.len() + i].source@,
                            v@[cli@.len() + i].destination@,
                        ),
                    )
            },
            Err(e) => e == Error::ParseError && !all_volumes_parse(config_volumes@),
        },
{
    let ghost cli0 = cli@;
    let mut out = cli;
    let n = config_volumes.len();
    let mut i: usize = 0;
    while i < n
        invariant
            i <= n,
            n == config_volumes@.len(),
            out@.len() == cli0.len() + i,
            forall|j: int| 0 <= j < cli0.len() ==> out@[j] == cli0[j],
            forall|j: int|
                0 <= j < i ==> parse_volume_spec(config_volumes@[j]@) == Some(
                    (#[trigger] out@[cli0.len() + j].source@, out@[cli0.len() + j].destination@),
                ),
        decreases n - i,
    {
        match Volume::from_str(config_volumes[i].as_str()) {
            Ok(v) => {
                out.push(v);
            },
            Err(_) => {
                proof {
                    crate::text::lemma_split_first_exists(config_volumes@[i as int]@, ':');
                }
                return Err(Error::ParseError);
            },
        }
        i += 1;
    }
    proof {
        assert forall|j: int| 0 <= j < config_volumes@.len() implies parse_volume_spec(
            config_volumes@[j]@,
        ) is Some by {
            assert(parse_volume_spec(config_volumes@[j]@) == Some(
                (out@[cli0.len() + j].source@, out@[cli0.len() + j].destination@),
            ));
        }
    }
    Ok(out)
}

} // verus!
