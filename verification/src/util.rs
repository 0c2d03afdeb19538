use vstd::prelude::*;

use crate::error::Error;
use crate::text::contains_char;
use crate::text::split_first;
use crate::text::split_first_spec;

verus! {

/// A digest string is well formed when it holds a ':' separating the
/// algorithm from the hex part.
pub open spec fn digest_wf(d: Seq<char>) -> bool {
    contains_char(d, ':')
}

/// The two halves of `alg:hex`, split at the first ':'.
pub open spec fn split_digest_spec(d: Seq<char>) -> Option<(Seq<char>, Seq<char>)> {
    split_first_spec(d, ':')
}

/// Split a digest of the form `alg:hex` on its first ':'.
pub fn split_digest(digest: &str) -> (r: Result<(String, String), Error>)
    ensures
        match r {
            Ok(p) => split_digest_spec(digest@) == Some((p.0@, p.1@)),
            Err(e) => e == Error::MalformedDigest,
        },
        r is Ok <==> digest_wf(digest@),
{
    match split_first(digest, ':') {
        Some(p) => Ok(p),
        None => Err(Error::MalformedDigest),
    }
}

/// On-disk location of the blob named by `alg:hex`: `<base>/blobs/<alg>/<hex>`.
pub open spec fn blob_path_spec(base: Seq<char>, d: Seq<char>) -> Seq<char>
    recommends
        digest_wf(d),
{
    let p = split_digest_spec(d).unwrap();
    base + "/blobs/"@ + p.0 + "/"@ + p.1
}

/// Resolve a digest to its blob path under `base_path`.
pub fn blob_path(base_path: &str, digest: &str) -> (r: Result<String, Error>)
    ensures
        match r {
            Ok(p) => p@ == blob_path_spec(base_path@, digest@),
            Err(e) => e == Error::MalformedDigest,
        },
        r is Ok <==> digest_wf(digest@),
{
    let (alg, hex) = split_digest(digest)?;
    let mut r = base_path.to_owned();
    r.append("/blobs/");
    r.append(alg.as_str());
    r.append("/");
    r.append(hex.as_str());
    Ok(r)
}

} // verus!
