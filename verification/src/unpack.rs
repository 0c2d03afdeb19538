use vstd::prelude::*;

use crate::text::concat2;

verus! {

/// One step of unpacking a compressed layer archive into a directory.
#[derive(Clone, Debug)]
pub enum UnpackStep {
    /// Create the scratch directory (and any missing parents).
    MakeDirAll { path: String },
    /// Inflate and untar the archive into `dest`.
    Extract { archive: String, dest: String },
    /// Remove the original archive file.
    RemoveFile { path: String },
    /// Atomically move the finished tree into place.
    Rename { from: String, to: String },
}

/// The scratch directory a layer is unpacked into before the rename:
/// the layer's own path with `-unpacked` appended.
pub open spec fn unpack_scratch_spec(layer_path: Seq<char>) -> Seq<char> {
    layer_path + "-unpacked"@
}

/// The steps that turn a layer archive at `layer_path` into a directory at
/// the same path: unpack into a scratch sibling, drop the archive, then
/// rename the scratch tree onto the layer path in one step.
pub fn unpack_steps(layer_path: &str) -> (r: Vec<UnpackStep>)
    ensures
        r@.len() == 4,
        (r@[0] matches UnpackStep::MakeDirAll { path } && path@ == unpack_scratch_spec(
            layer_path@,
        )),
        (r@[1] matches UnpackStep::Extract { archive, dest } && archive@ == layer_path@ && dest@
            == unpack_scratch_spec(layer_path@)),
        (r@[2] matches UnpackStep::RemoveFile { path } && path@ == layer_path@),
        (r@[3] matches UnpackStep::Rename { from, to } && from@ == unpack_scratch_spec(layer_path@)
            && to@ == layer_path@),
{
    let scratch = concat2(layer_path, "-unpacked");
    let mut r: Vec<UnpackStep> = Vec::new();
    r.push(UnpackStep::MakeDirAll { path: scratch.clone() });
    r.push(UnpackStep::Extract { archive: layer_path.to_owned(), dest: scratch.clone() });
    r.push(UnpackStep::RemoveFile { path: layer_path.to_owned() });
    r.push(UnpackStep::Rename { from: scratch, to: layer_path.to_owned() });
    r
}

/// Unpacking never writes through the final layer path: the scratch
/// directory every partial state lives in is a different path, so the tree
/// appears at the layer path only by the final rename.
pub proof fn lemma_unpack_atomic(layer_path: Seq<char>)
    ensures
        unpack_scratch_spec(layer_path) != layer_path,
{
    reveal_strlit("-unpacked");
    assert(unpack_scratch_spec(layer_path).len() == layer_path.len() + 9);
}

} // verus!
