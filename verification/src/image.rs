use vstd::prelude::*;

use crate::env::all_env_parse;
use crate::env::merge_env;
use crate::env::parse_env_spec;
use crate::env::EnvVariable;
use crate::error::Error;
use crate::text::concat2;
use crate::text::contains_char;
use crate::text::has_char;
use crate::text::lemma_split_first_concat;
use crate::text::split_first;
use crate::text::split_first_spec;
use crate::util::blob_path;
use crate::util::blob_path_spec;
use crate::util::digest_wf;
use crate::volume::all_volumes_parse;
use crate::volume::merge_volumes;
use crate::volume::parse_volume_spec;
use crate::volume::Volume;

verus! {

/// A reference to an image in a registry: a repository name and a tag.
#[derive(Clone, Debug)]
pub struct ImageId {
    pub name: String,
    pub tag: String,
}

/// A bare name without '/' refers to the default `library/` repository.
pub open spec fn normalize_name_spec(n: Seq<char>) -> Seq<char> {
    if contains_char(n, '/') {
        n
    } else {
        "library/"@ + n
    }
}

/// Prefix `library/` to a repository name that has no '/'.
pub fn normalize_image_name(name: &str) -> (r: String)
    ensures
        r@ == normalize_name_spec(name@),
{
    if has_char(name, '/') {
        name.to_owned()
    } else {
        concat2("library/", name)
    }
}

/// `name[:tag]`: the part after the first ':' is the tag, `latest` when
/// missing; the name is normalized.
pub open spec fn parse_image_id_spec(s: Seq<char>) -> (Seq<char>, Seq<char>) {
    match split_first_spec(s, ':') {
        Some(p) => (normalize_name_spec(p.0), p.1),
        None => (normalize_name_spec(s), "latest"@),
    }
}

/// Parse an image reference of the form `name[:tag]`.
pub fn parse_image_id(s: &str) -> (r: ImageId)
    ensures
        (r.name@, r.tag@) == parse_image_id_spec(s@),
{
    match split_first(s, ':') {
        Some(p) => ImageId { name: normalize_image_name(p.0.as_str()), tag: p.1 },
        None => ImageId { name: normalize_image_name(s), tag: "latest".to_owned() },
    }
}

/// Parsing `name + ":" + tag` recovers the normalized name and the tag,
/// provided the name itself holds no ':'.
pub proof fn lemma_parse_image_id_round_trip(name: Seq<char>, tag: Seq<char>)
    requires
        !contains_char(name, ':'),
    ensures
        parse_image_id_spec(name + seq![':'] + tag) == (normalize_name_spec(name), tag),
{
    lemma_split_first_concat(name, ':', tag);
}

/// What the runtime reads from an image index: the manifest digests, in
/// index order.
#[derive(Clone, Debug)]
pub struct IndexDoc {
    pub manifest_digests: Vec<String>,
}

/// What the runtime reads from an image manifest: the config digest and the
/// layer digests, bottom layer first.
#[derive(Clone, Debug)]
pub struct ManifestDoc {
    pub config_digest: String,
    pub layer_digests: Vec<String>,
}

/// What the runtime reads from an image configuration: the declared
/// environment and volumes, if any.
#[derive(Clone, Debug)]
pub struct ConfigDoc {
    pub env: Option<Vec<String>>,
    pub volumes: Option<Vec<String>>,
}

/// Whether every digest of `ds` holds a ':'.
pub open spec fn all_digests_wf(ds: Seq<String>) -> bool {
    forall|i: int| 0 <= i < ds.len() ==> digest_wf(ds[i]@)
}

/// An image as loaded from disk: its identity, its root directory, and the
/// three documents that describe it.
#[derive(Clone, Debug)]
pub struct Image {
    pub name: String,
    pub tag: String,
    pub base_path: String,
    pub index: IndexDoc,
    pub manifest: ManifestDoc,
    pub configuration: ConfigDoc,
}

impl Image {
    /// A valid image names at least one manifest, and each layer digest
    /// resolves to a blob path.
    pub open spec fn wf(self) -> bool {
        &&& self.index.manifest_digests@.len() > 0
        &&& all_digests_wf(self.manifest.layer_digests@)
    }

    /// The blob paths of the layers, in manifest order (bottom layer first).
    pub open spec fn layer_paths_spec(self) -> Seq<Seq<char>> {
        Seq::new(
            self.manifest.layer_digests@.len(),
            |i: int| blob_path_spec(self.base_path@, self.manifest.layer_digests@[i]@),
        )
    }

    /// Assemble an image from its parsed documents. Rejects an index without
    /// a manifest entry, and any layer digest lacking ':'.
    pub fn from_docs(
        name: String,
        tag: String,
        base_path: String,
        index: IndexDoc,
        manifest: ManifestDoc,
        configuration: ConfigDoc,
    ) -> (r: Result<Image, Error>)
        ensures
            match r {
                Ok(img) => {
                    &&& img == (Image { name, tag, base_path, index, manifest, configuration })
                    &&& img.wf()
                },
                Err(e) => {
                    &&& e == Error::ImageCorrupt <==> index.manifest_digests@.len() == 0
                    &&& e == Error::MalformedDigest <==> index.manifest_digests@.len() > 0
                        && !all_digests_wf(manifest.layer_digests@)
                },
            },
            r is Ok <==> index.manifest_digests@.len() > 0 && all_digests_wf(
                manifest.layer_digests@,
            ),
    {
        if index.manifest_digests.len() == 0 {
            return Err(Error::ImageCorrupt);
        }
        let n = manifest.layer_digests.len();
        let mut i: usize = 0;
        while i < n
            invariant
                i <= n,
                n == manifest.layer_digests@.len(),
                index.manifest_digests@.len() > 0,
                forall|j: int| 0 <= j < i ==> digest_wf(#[trigger] manifest.layer_digests@[j]@),
            decreases n - i,
        {
            if !has_char(manifest.layer_digests[i].as_str(), ':') {
                proof {
                    assert(!digest_wf(manifest.layer_digests@[i as int]@));
                }
                return Err(Error::MalformedDigest);
            }
            i += 1;
        }
        Ok(Image { name, tag, base_path, index, manifest, configuration })
    }

    /// Resolve each layer digest to its blob path, in manifest order.
    pub fn layer_paths(&self) -> (r: Result<Vec<String>, Error>)
        ensures
            match r {
                Ok(ps) => {
                    &&& all_digests_wf(self.manifest.layer_digests@)
                    &&& ps@.len() == self.manifest.layer_digests@.len()
                    &&& forall|i: int|
                        0 <= i < ps@.len() ==> #[trigger] ps@[i]@ == self.layer_paths_spec()[i]
                },
                Err(e) => e == Error::MalformedDigest,
            },
            r is Ok <==> all_digests_wf(self.manifest.layer_digests@),
    {
        let n = self.manifest.layer_digests.len();
        let mut ps: Vec<String> = Vec::new();
        let mut i: usize = 0;
        while i < n
            invariant
                i <= n,
                n == self.manifest.layer_digests@.len(),
                ps@.len() == i,
                forall|j: int| 0 <= j < i ==> digest_wf(#[trigger] self.manifest.layer_digests@[j]@),
                forall|j: int| 0 <= j < i ==> #[trigger] ps@[j]@ == self.layer_paths_spec()[j],
            decreases n - i,
        {
            match blob_path(self.base_path.as_str(), self.manifest.layer_digests[i].as_str()) {
                Ok(p) => {
                    ps.push(p);
                },
                Err(_) => {
                    return Err(Error::MalformedDigest);
                },
            }
            i += 1;
        }
        Ok(ps)
    }
}

/// What `oci_spec::image::ImageIndex::from_reader` yields on these bytes:
/// the digests of the manifest descriptors, in index order, or nothing when
/// the bytes are not a valid index document.
pub uninterp spec fn index_of_bytes(bytes: Seq<u8>) -> Option<Seq<Seq<char>>>;

/// What `oci_spec::image::ImageManifest::from_reader` yields on these
/// bytes: the config digest and the layer digests in manifest order, or
/// nothing when the bytes are not a valid manifest document.
pub uninterp spec fn manifest_of_bytes(bytes: Seq<u8>) -> Option<(Seq<char>, Seq<Seq<char>>)>;

/// What `oci_spec::image::ImageConfiguration::from_reader` yields on these
/// bytes: the declared environment entries in document order, and the set
/// of declared volume paths, or nothing when the bytes are not a valid
/// configuration document. The volumes come out of a hash map, so only
/// their set is a function of the bytes; the order they are listed in is
/// not.
pub uninterp spec fn config_of_bytes(bytes: Seq<u8>) -> Option<
    (Option<Seq<Seq<char>>>, Option<Set<Seq<char>>>),
>;

/// Relies on oci_spec::image::ImageIndex::from_reader: parse an OCI image
/// index from JSON bytes; the result is a function of the bytes alone.
#[verifier::external_body]
fn parse_index(bytes: &[u8]) -> (r: Result<IndexDoc, Error>)
    ensures
        match r {
            Ok(doc) => index_of_bytes(bytes@) == Some(doc.manifest_digests.deep_view()),
            Err(e) => index_of_bytes(bytes@) is None && e == Error::ImageCorrupt,
        },
{
    match oci_spec::image::ImageIndex::from_reader(bytes) {
        Ok(idx) => Ok(
            IndexDoc {
                manifest_digests: idx.manifests().iter().map(|d| d.digest().to_string()).collect(),
            },
        ),
        Err(_) => Err(Error::ImageCorrupt),
    }
}

/// Relies on oci_spec::image::ImageManifest::from_reader: parse an OCI
/// image manifest from JSON bytes; the result is a function of the bytes
/// alone.
#[verifier::external_body]
fn parse_manifest(bytes: &[u8]) -> (r: Result<ManifestDoc, Error>)
    ensures
        match r {
            Ok(doc) => manifest_of_bytes(bytes@) == Some(
                (doc.config_digest@, doc.layer_digests.deep_view()),
            ),
            Err(e) => manifest_of_bytes(bytes@) is None && e == Error::ImageCorrupt,
        },
{
    match oci_spec::image::ImageManifest::from_reader(bytes) {
        Ok(m) => Ok(
            ManifestDoc {
                config_digest: m.config().digest().to_string(),
                layer_digests: m.layers().iter().map(|d| d.digest().to_string()).collect(),
            },
        ),
        Err(_) => Err(Error::ImageCorrupt),
    }
}

/// Relies on oci_spec::image::ImageConfiguration::from_reader: parse an OCI
/// image configuration from JSON bytes; the result is a function of the
/// bytes alone.
#[verifier::external_body]
fn parse_config(bytes: &[u8]) -> (r: Result<ConfigDoc, Error>)
    ensures
        match r {
            Ok(doc) => {
                &&& config_of_bytes(bytes@) matches Some(p)
                &&& p.0 == doc.env.deep_view()
                &&& (match doc.volumes {
                    Some(v) => p.1 matches Some(vs) && vs == v.deep_view().to_set()
                        && v.deep_view().no_duplicates(),
                    None => p.1 is None,
                })
            },
            Err(e) => config_of_bytes(bytes@) is None && e == Error::ImageCorrupt,
        },
{
    match oci_spec::image::ImageConfiguration::from_reader(bytes) {
        Ok(c) => {
            let env = c.config().as_ref().and_then(|cc| cc.env().clone());
            let volumes = c.config().as_ref().and_then(|cc| cc.volumes().clone());
            Ok(ConfigDoc { env, volumes })
        },
        Err(_) => Err(Error::ImageCorrupt),
    }
}

/// The digest of the manifest this runtime uses: entry 0 of the index.
/// Corrupt bytes and an empty index are both `ImageCorrupt`.
pub fn index_manifest_digest(index_bytes: &[u8]) -> (r: Result<String, Error>)
    ensures
        match r {
            Ok(d) => index_of_bytes(index_bytes@) matches Some(ds) && ds.len() > 0 && d@ == ds[0],
            Err(e) => e == Error::ImageCorrupt,
        },
        r is Ok <==> (index_of_bytes(index_bytes@) matches Some(ds) && ds.len() > 0),
{
    let doc = parse_index(index_bytes)?;
    if doc.manifest_digests.len() == 0 {
        return Err(Error::ImageCorrupt);
    }
    let d = doc.manifest_digests[0].clone();
    proof {
        assert(doc.manifest_digests.deep_view()[0] == doc.manifest_digests@[0]@);
    }
    Ok(d)
}

/// The digest of the configuration a manifest refers to.
pub fn manifest_config_digest(manifest_bytes: &[u8]) -> (r: Result<String, Error>)
    ensures
        match r {
            Ok(d) => manifest_of_bytes(manifest_bytes@) matches Some(p) && d@ == p.0,
            Err(e) => e == Error::ImageCorrupt && manifest_of_bytes(manifest_bytes@) is None,
        },
        r is Ok <==> manifest_of_bytes(manifest_bytes@) is Some,
{
    let doc = parse_manifest(manifest_bytes)?;
    Ok(doc.config_digest)
}

/// Whether every digest of `ds` holds a ':'.
pub open spec fn all_digest_views_wf(ds: Seq<Seq<char>>) -> bool {
    forall|i: int| 0 <= i < ds.len() ==> digest_wf(ds[i])
}

impl Image {
    /// Load an image from its identity, its root directory, and the raw
    /// bytes of its index, manifest and configuration documents. A document
    /// that does not parse, or an index without a manifest entry, is
    /// `ImageCorrupt`; a layer digest lacking ':' is `MalformedDigest`.
    pub fn new(
        name: String,
        tag: String,
        base_path: String,
        index_bytes: &[u8],
        manifest_bytes: &[u8],
        config_bytes: &[u8],
    ) -> (r: Result<Image, Error>)
        ensures
            match r {
                Ok(img) => {
                    &&& img.name == name
                    &&& img.tag == tag
                    &&& img.base_path == base_path
                    &&& index_of_bytes(index_bytes@) == Some(img.index.manifest_digests.deep_view())
                    &&& manifest_of_bytes(manifest_bytes@) == Some(
                        (img.manifest.config_digest@, img.manifest.layer_digests.deep_view()),
                    )
                    &&& config_of_bytes(config_bytes@) matches Some(p)
                    &&& p.0 == img.configuration.env.deep_view()
                    &&& (match img.configuration.volumes {
                        Some(v) => p.1 matches Some(vs) && vs == v.deep_view().to_set(),
                        None => p.1 is None,
                    })
                    &&& img.wf()
                },
                Err(e) => e == Error::ImageCorrupt || e == Error::MalformedDigest,
            },
            r is Ok <==> (index_of_bytes(index_bytes@) matches Some(ds) && ds.len() > 0
                && (manifest_of_bytes(manifest_bytes@) matches Some(p) && all_digest_views_wf(p.1))
                && config_of_bytes(config_bytes@) is Some),
            (r matches Err(e) && e == Error::ImageCorrupt) <==> (index_of_bytes(index_bytes@)
                is None || (index_of_bytes(index_bytes@) matches Some(ds) && ds.len() == 0)
                || manifest_of_bytes(manifest_bytes@) is None || config_of_bytes(config_bytes@)
                is None),
            (r matches Err(e) && e == Error::MalformedDigest) ==> (manifest_of_bytes(
                manifest_bytes@,
            ) matches Some(p) && !all_digest_views_wf(p.1)),
    {
        let index = parse_index(index_bytes)?;
        if index.manifest_digests.len() == 0 {
            return Err(Error::ImageCorrupt);
        }
        let manifest = parse_manifest(manifest_bytes)?;
        let configuration = parse_config(config_bytes)?;
        proof {
            let ds = manifest.layer_digests@;
            let dv = manifest.layer_digests.deep_view();
            assert(dv.len() == ds.len());
            if all_digests_wf(ds) {
                assert forall|i: int| 0 <= i < dv.len() implies digest_wf(#[trigger] dv[i]) by {
                    assert(dv[i] == ds[i]@);
                    assert(digest_wf(ds[i]@));
                }
            }
            if all_digest_views_wf(dv) {
                assert forall|i: int| 0 <= i < ds.len() implies digest_wf(#[trigger] ds[i]@) by {
                    assert(dv[i] == ds[i]@);
                    assert(digest_wf(dv[i]));
                }
            }
            assert(all_digests_wf(ds) <==> all_digest_views_wf(dv));
        }
        Image::from_docs(name, tag, base_path, index, manifest, configuration)
    }
}

/// A well-formed image resolves exactly one blob path per manifest layer,
/// in manifest order.
pub proof fn lemma_image_layer_round_trip(img: Image)
    requires
        img.wf(),
    ensures
        img.layer_paths_spec().len() == img.manifest.layer_digests@.len(),
        forall|i: int|
            0 <= i < img.manifest.layer_digests@.len() ==> #[trigger] img.layer_paths_spec()[i]
                == blob_path_spec(img.base_path@, img.manifest.layer_digests@[i]@),
{
}

/// Extend the caller's volume and environment lists with what the image
/// configuration declares; the caller's entries come first. A declaration
/// that does not parse fails the merge, and `None` adds nothing.
pub fn merge_config(
    cli_volumes: Vec<Volume>,
    cli_env: Vec<EnvVariable>,
    configuration: &ConfigDoc,
) -> (r: Result<(Vec<Volume>, Vec<EnvVariable>), Error>)
    ensures
        match r {
            Ok(p) => {
                &&& (match configuration.volumes {
                    Some(cv) => {
                        &&& all_volumes_parse(cv@)
                        &&& p.0@.len() == cli_volumes@.len() + cv@.len()
                        &&& forall|i: int| 0 <= i < cli_volumes@.len() ==> p.0@[i] == cli_volumes@[i]
                        &&& forall|i: int|
                            0 <= i < cv@.len() ==> parse_volume_spec(cv@[i]@) == Some(
                                (
                                    #[trigger] p.0@[cli_volumes@.len() + i].source@,
                                    p.0@[cli_volumes@.len() + i].destination@,
                                ),
                            )
                    },
                    None => p.0@ == cli_volumes@,
                })
                &&& (match configuration.env {
                    Some(ce) => {
                        &&& all_env_parse(ce@)
                        &&& p.1@.len() == cli_env@.len() + ce@.len()
                        &&& forall|i: int| 0 <= i < cli_env@.len() ==> p.1@[i] == cli_env@[i]
                        &&& forall|i: int|
                            0 <= i < ce@.len() ==> parse_env_spec(ce@[i]@) == Some(
                                (
                                    #[trigger] p.1@[cli_env@.len() + i].key@,
                                    p.1@[cli_env@.len() + i].value@,
                                ),
                            )
                    },
                    None => p.1@ == cli_env@,
                })
            },
            Err(e) => e == Error::ParseError,
        },
        r is Err <==> ((configuration.volumes matches Some(cv) && !all_volumes_parse(cv@)) || (
        configuration.env matches Some(ce) && !all_env_parse(ce@))),
{
    let volumes = match &configuration.volumes {
        Some(cv) => merge_volumes(cli_volumes, cv)?,
        None => cli_volumes,
    };
    let env = match &configuration.env {
        Some(ce) => merge_env(cli_env, ce)?,
        None => cli_env,
    };
    Ok((volumes, env))
}

} // verus!
