use vstd::prelude::*;

use crate::error::Error;
use crate::image::all_digests_wf;
use crate::image::Image;
use crate::text::concat2;
use crate::text::drop_first_char;
use crate::text::first_is;
use crate::text::join_spec;
use crate::text::join_strings;
use crate::volume::Volume;

verus! {

/// Mount flags, named after the kernel flags they stand for.
#[derive(Clone, Copy, Debug, PartialEq, Eq, Structural)]
pub struct MountFlags {
    pub rec: bool,
    pub private: bool,
    pub bind: bool,
    pub nosuid: bool,
    pub nodev: bool,
    pub noexec: bool,
    pub noatime: bool,
}

pub open spec fn flags_none() -> MountFlags {
    MountFlags {
        rec: false,
        private: false,
        bind: false,
        nosuid: false,
        nodev: false,
        noexec: false,
        noatime: false,
    }
}

pub open spec fn flags_rec_private() -> MountFlags {
    MountFlags { rec: true, private: true, ..flags_none() }
}

pub open spec fn flags_rec_bind() -> MountFlags {
    MountFlags { rec: true, bind: true, ..flags_none() }
}

pub open spec fn flags_bind() -> MountFlags {
    MountFlags { bind: true, ..flags_none() }
}

pub open spec fn flags_nosuid() -> MountFlags {
    MountFlags { nosuid: true, ..flags_none() }
}

pub open spec fn flags_tmpfs() -> MountFlags {
    MountFlags { nosuid: true, nodev: true, noexec: true, noatime: true, ..flags_none() }
}

/// One mount invocation: source, target, filesystem type, option data and
/// flags, exactly as handed to the kernel.
#[derive(Clone, Debug)]
pub struct MountCall {
    pub source: Option<String>,
    pub target: String,
    pub fstype: Option<String>,
    pub data: Option<String>,
    pub flags: MountFlags,
}

/// One step of a filesystem plan; an interpreter performs them in order.
#[derive(Clone, Debug)]
pub enum FsStep {
    /// Create a directory; when `skip_if_present`, an existing one is fine.
    MakeDir { path: String, skip_if_present: bool },
    /// Perform a mount.
    Mount(MountCall),
    /// Unmount a path; `detach` stands for a lazy detach.
    Unmount { path: String, detach: bool },
    /// Remove an empty directory.
    RemoveDir { path: String },
    /// Remove a directory tree.
    RemoveDirAll { path: String },
    /// Swap the root: the new root and where the old one is parked.
    PivotRoot { new_root: String, put_old: String },
    /// Change the working directory.
    Chdir { path: String },
}

/// Name of the per-run scratch directory for an image: `<image name>-container`.
pub fn container_dir_name(image_name: &str) -> (r: String)
    ensures
        r@ == image_name@ + "-container"@,
{
    concat2(image_name, "-container")
}

/// `<bundle dir>/rootfs`, the overlay mount point and container root.
pub open spec fn root_path_spec(dir: Seq<char>) -> Seq<char> {
    dir + "/rootfs"@
}

/// `<bundle dir>/workdir`, the overlay's scratch directory.
pub open spec fn workdir_path_spec(dir: Seq<char>) -> Seq<char> {
    dir + "/workdir"@
}

/// `<bundle dir>/upperdir`, the overlay's writable layer.
pub open spec fn upperdir_path_spec(dir: Seq<char>) -> Seq<char> {
    dir + "/upperdir"@
}

/// The overlay mount point under a bundle directory.
pub fn root_path(dir: &str) -> (r: String)
    ensures
        r@ == root_path_spec(dir@),
{
    concat2(dir, "/rootfs")
}

/// The overlay scratch directory under a bundle directory.
pub fn workdir_path(dir: &str) -> (r: String)
    ensures
        r@ == workdir_path_spec(dir@),
{
    concat2(dir, "/workdir")
}

/// The overlay writable layer under a bundle directory.
pub fn upperdir_path(dir: &str) -> (r: String)
    ensures
        r@ == upperdir_path_spec(dir@),
{
    concat2(dir, "/upperdir")
}

/// Where a container path lives on the host, under the bundle's root: a
/// leading '/' is stripped and the rest joined to the root.
pub open spec fn host_path_spec(root: Seq<char>, inner: Seq<char>) -> Seq<char> {
    if inner.len() > 0 && inner[0] == '/' {
        root + inner
    } else {
        root + "/"@ + inner
    }
}

/// The overlay mount option string: the read-only layers, bottom first,
/// then the writable upper and the scratch work directory.
pub open spec fn overlay_options_spec(
    layers: Seq<Seq<char>>,
    upper: Seq<char>,
    work: Seq<char>,
) -> Seq<char> {
    "lowerdir="@ + join_spec(layers, ":"@) + ",upperdir="@ + upper + ",workdir="@ + work
}

/// Build the option string of an overlay mount from the layer paths
/// (bottom layer first) and the upper and work directories.
pub fn overlay_options(layer_paths: &Vec<String>, upper: &str, work: &str) -> (r: String)
    ensures
        r@ == overlay_options_spec(layer_paths.deep_view(), upper@, work@),
{
    let mut r = "lowerdir=".to_owned();
    let joined = join_strings(layer_paths, ":");
    r.append(joined.as_str());
    r.append(",upperdir=");
    r.append(upper);
    r.append(",workdir=");
    r.append(work);
    r
}

/// The per-run directory tree that hosts a container's root: the image it
/// is built from and the directory everything lives under.
#[derive(Debug)]
pub struct Bundle {
    pub dir: String,
    pub image: Image,
}

impl Bundle {
    /// A bundle for `image` under `dir`; the directories themselves are
    /// created by performing `create_dirs_plan`.
    pub fn new(image: Image, dir: String) -> (r: Bundle)
        ensures
            r.image == image,
            r.dir == dir,
    {
        Bundle { image, dir }
    }

    /// The container root under this bundle.
    pub fn root_path(&self) -> (r: String)
        ensures
            r@ == root_path_spec(self.dir@),
    {
        root_path(self.dir.as_str())
    }

    /// The overlay scratch directory under this bundle.
    pub fn workdir_path(&self) -> (r: String)
        ensures
            r@ == workdir_path_spec(self.dir@),
    {
        workdir_path(self.dir.as_str())
    }

    /// The overlay writable layer under this bundle.
    pub fn upperdir_path(&self) -> (r: String)
        ensures
            r@ == upperdir_path_spec(self.dir@),
    {
        upperdir_path(self.dir.as_str())
    }

    /// Where a container path lives on the host, under this bundle's root.
    pub fn host_path_from_container_path(&self, inner_path: &str) -> (r: String)
        ensures
            r@ == host_path_spec(root_path_spec(self.dir@), inner_path@),
    {
        let root = self.root_path();
        if first_is(inner_path, '/') {
            let stripped = drop_first_char(inner_path);
            let r = concat2(root.as_str(), "/").concat(stripped.as_str());
            proof {
                reveal_strlit("/");
                assert(root_path_spec(self.dir@) + "/"@ + inner_path@.drop_first()
                    =~= root_path_spec(self.dir@) + inner_path@);
            }
            r
        } else {
            concat2(root.as_str(), "/").concat(inner_path)
        }
    }

    /// The three empty directories a fresh bundle is made of.
    pub fn create_dirs_plan(&self) -> (r: Vec<FsStep>)
        ensures
            r@.len() == 3,
            (r@[0] matches FsStep::MakeDir { path, skip_if_present } && path@ == root_path_spec(
                self.dir@,
            ) && !skip_if_present),
            (r@[1] matches FsStep::MakeDir { path, skip_if_present } && path@ == workdir_path_spec(
                self.dir@,
            ) && !skip_if_present),
            (r@[2] matches FsStep::MakeDir { path, skip_if_present } && path@ == upperdir_path_spec(
                self.dir@,
            ) && !skip_if_present),
    {
        let mut r: Vec<FsStep> = Vec::new();
        r.push(FsStep::MakeDir { path: self.root_path(), skip_if_present: false });
        r.push(FsStep::MakeDir { path: self.workdir_path(), skip_if_present: false });
        r.push(FsStep::MakeDir { path: self.upperdir_path(), skip_if_present: false });
        r
    }

    /// The overlay mount that fuses the image's layers (bottom first) with
    /// this bundle's upper and work directories at its root. Fails only on a
    /// malformed layer digest.
    pub fn overlay_mount(&self) -> (r: Result<MountCall, Error>)
        ensures
            match r {
                Ok(m) => {
                    &&& all_digests_wf(self.image.manifest.layer_digests@)
                    &&& m.source is None
                    &&& m.target@ == root_path_spec(self.dir@)
                    &&& m.fstype matches Some(t) && t@ == "overlay"@
                    &&& m.data matches Some(d) && d@ == overlay_options_spec(
                        self.image.layer_paths_spec(),
                        upperdir_path_spec(self.dir@),
                        workdir_path_spec(self.dir@),
                    )
                    &&& m.flags == flags_none()
                },
                Err(e) => e == Error::MalformedDigest,
            },
            r is Ok <==> all_digests_wf(self.image.manifest.layer_digests@),
    {
        let layers = self.image.layer_paths()?;
        proof {
            assert(layers.deep_view() =~= self.image.layer_paths_spec());
        }
        let upper = self.upperdir_path();
        let work = self.workdir_path();
        let data = overlay_options(&layers, upper.as_str(), work.as_str());
        Ok(
            (MountCall {
                source: None,
                target: self.root_path(),
                fstype: Some("overlay".to_owned()),
                data: Some(data),
                flags: MountFlags {
                    rec: false,
                    private: false,
                    bind: false,
                    nosuid: false,
                    nodev: false,
                    noexec: false,
                    noatime: false,
                },
            }),
        )
    }

    /// Tearing the overlay down: unmount the root, then remove the whole
    /// bundle directory.
    pub fn overlay_unmount_plan(&self) -> (r: Vec<FsStep>)
        ensures
            r@.len() == 2,
            (r@[0] matches FsStep::Unmount { path, detach } && path@ == root_path_spec(self.dir@)
                && !detach),
            (r@[1] matches FsStep::RemoveDirAll { path } && path@ == self.dir@),
    {
        let mut r: Vec<FsStep> = Vec::new();
        r.push(FsStep::Unmount { path: self.root_path(), detach: false });
        r.push(FsStep::RemoveDirAll { path: self.dir.clone() });
        r
    }

    /// The root pivot: park the old root inside the new one, make mount
    /// propagation private, swap roots, then drop the parked old root.
    pub fn change_root_plan(&self) -> (r: Vec<FsStep>)
        ensures
            r@.len() == 6,
            (r@[0] matches FsStep::MakeDir { path, skip_if_present } && path@ == root_path_spec(
                self.dir@,
            ) + "/old_root"@ && !skip_if_present),
            (r@[1] matches FsStep::Mount(m) && m.source is None && m.target@ == "/"@
                && m.fstype is None && m.data is None && m.flags == flags_rec_private()),
            (r@[2] matches FsStep::PivotRoot { new_root, put_old } && new_root@ == root_path_spec(
                self.dir@,
            ) && put_old@ == root_path_spec(self.dir@) + "/old_root"@),
            (r@[3] matches FsStep::Chdir { path } && path@ == "/"@),
            (r@[4] matches FsStep::Unmount { path, detach } && path@ == "/old_root"@ && detach),
            (r@[5] matches FsStep::RemoveDir { path } && path@ == "/old_root"@),
    {
        let root = self.root_path();
        let old_root = concat2(root.as_str(), "/old_root");
        let mut r: Vec<FsStep> = Vec::new();
        r.push(FsStep::MakeDir { path: old_root.clone(), skip_if_present: false });
        r.push(
            FsStep::Mount(
                MountCall {
                    source: None,
                    target: "/".to_owned(),
                    fstype: None,
                    data: None,
                    flags: MountFlags {
                        rec: true,
                        private: true,
                        bind: false,
                        nosuid: false,
                        nodev: false,
                        noexec: false,
                        noatime: false,
                    },
                },
            ),
        );
        r.push(FsStep::PivotRoot { new_root: root, put_old: old_root });
        r.push(FsStep::Chdir { path: "/".to_owned() });
        r.push(FsStep::Unmount { path: "/old_root".to_owned(), detach: true });
        r.push(FsStep::RemoveDir { path: "/old_root".to_owned() });
        r
    }

    /// The special filesystems: bind the host's /proc aside at `.oldproc`,
    /// mount a fresh proc and a tmpfs, drop the parked `.oldproc`, and bind
    /// the host's /sys.
    pub fn special_mount_plan(&self) -> (r: Vec<FsStep>)
        ensures
            r@.len() == 9,
            (r@[0] matches FsStep::MakeDir { path, skip_if_present } && path@ == root_path_spec(
                self.dir@,
            ) + "/.oldproc"@ && !skip_if_present),
            (r@[1] matches FsStep::Mount(m) && m.source matches Some(s) && s@ == "/proc"@
                && m.target@ == root_path_spec(self.dir@) + "/.oldproc"@ && m.fstype is None
                && m.data is None && m.flags == flags_rec_bind()),
            (r@[2] matches FsStep::MakeDir { path, skip_if_present } && path@ == root_path_spec(
                self.dir@,
            ) + "/proc"@ && skip_if_present),
            (r@[3] matches FsStep::Mount(m) && m.source matches Some(s) && s@ == "proc"@
                && m.target@ == root_path_spec(self.dir@) + "/proc"@ && (m.fstype matches Some(t)
                && t@ == "proc"@) && m.data is None && m.flags == flags_nosuid()),
            (r@[4] matches FsStep::Unmount { path, detach } && path@ == root_path_spec(self.dir@)
                + "/.oldproc"@ && detach),
            (r@[5] matches FsStep::RemoveDir { path } && path@ == root_path_spec(self.dir@)
                + "/.oldproc"@),
            (r@[6] matches FsStep::MakeDir { path, skip_if_present } && path@ == root_path_spec(
                self.dir@,
            ) + "/tmp"@ && skip_if_present),
            (r@[7] matches FsStep::Mount(m) && m.source matches Some(s) && s@ == "tmp"@
                && m.target@ == root_path_spec(self.dir@) + "/tmp"@ && (m.fstype matches Some(t)
                && t@ == "tmpfs"@) && m.data is None && m.flags == flags_tmpfs()),
            (r@[8] matches FsStep::Mount(m) && m.source matches Some(s) && s@ == "/sys"@
                && m.target@ == root_path_spec(self.dir@) + "/sys"@ && m.fstype is None
                && m.data is None && m.flags == flags_rec_bind()),
    {
        let root = self.root_path();
        let oldproc = concat2(root.as_str(), "/.oldproc");
        let proc_path = concat2(root.as_str(), "/proc");
        let tmp_path = concat2(root.as_str(), "/tmp");
        let sys_path = concat2(root.as_str(), "/sys");
        let mut r: Vec<FsStep> = Vec::new();
        r.push(FsStep::MakeDir { path: oldproc.clone(), skip_if_present: false });
        r.push(
            FsStep::Mount(
                MountCall {
                    source: Some("/proc".to_owned()),
                    target: oldproc.clone(),
                    fstype: None,
                    data: None,
                    flags: MountFlags {
                        rec: true,
                        private: false,
                        bind: true,
                        nosuid: false,
                        nodev: false,
                        noexec: false,
                        noatime: false,
                    },
                },
            ),
        );
        r.push(FsStep::MakeDir { path: proc_path.clone(), skip_if_present: true });
        r.push(
            FsStep::Mount(
                MountCall {
                    source: Some("proc".to_owned()),
                    target: proc_path,
                    fstype: Some("proc".to_owned()),
                    data: None,
                    flags: MountFlags {
                        rec: false,
                        private: false,
                        bind: false,
                        nosuid: true,
                        nodev: false,
                        noexec: false,
                        noatime: false,
                    },
                },
            ),
        );
        r.push(FsStep::Unmount { path: oldproc.clone(), detach: true });
        r.push(FsStep::RemoveDir { path: oldproc });
        r.push(FsStep::MakeDir { path: tmp_path.clone(), skip_if_present: true });
        r.push(
            FsStep::Mount(
                MountCall {
                    source: Some("tmp".to_owned()),
                    target: tmp_path,
                    fstype: Some("tmpfs".to_owned()),
                    data: None,
                    flags: MountFlags {
                        rec: false,
                        private: false,
                        bind: false,
                        nosuid: true,
                        nodev: true,
                        noexec: true,
                        noatime: true,
                    },
                },
            ),
        );
        r.push(
            FsStep::Mount(
                MountCall {
                    source: Some("/sys".to_owned()),
                    target: sys_path,
                    fstype: None,
                    data: None,
                    flags: MountFlags {
                        rec: true,
                        private: false,
                        bind: true,
                        nosuid: false,
                        nodev: false,
                        noexec: false,
                        noatime: false,
                    },
                },
            ),
        );
        r
    }

    /// Undo the special filesystems: proc and tmp plainly, sys detached.
    pub fn special_unmount_plan(&self) -> (r: Vec<FsStep>)
        ensures
            r@.len() == 3,
            (r@[0] matches FsStep::Unmount { path, detach } && path@ == root_path_spec(self.dir@)
                + "/proc"@ && !detach),
            (r@[1] matches FsStep::Unmount { path, detach } && path@ == root_path_spec(self.dir@)
                + "/tmp"@ && !detach),
            (r@[2] matches FsStep::Unmount { path, detach } && path@ == root_path_spec(self.dir@)
                + "/sys"@ && detach),
    {
        let root = self.root_path();
        let mut r: Vec<FsStep> = Vec::new();
        r.push(FsStep::Unmount { path: concat2(root.as_str(), "/proc"), detach: false });
        r.push(FsStep::Unmount { path: concat2(root.as_str(), "/tmp"), detach: false });
        r.push(FsStep::Unmount { path: concat2(root.as_str(), "/sys"), detach: true });
        r
    }

    /// Bind each volume's host source onto its container destination under
    /// this bundle's root, creating the destination if missing.
    pub fn volume_mount_plan(&self, volumes: &Vec<Volume>) -> (r: Vec<FsStep>)
        ensures
            r@.len() == 2 * volumes@.len(),
            forall|i: int|
                0 <= i < volumes@.len() ==> (#[trigger] r@[2 * i] matches FsStep::MakeDir {
                    path,
                    skip_if_present,
                } && path@ == host_path_spec(
                    root_path_spec(self.dir@),
                    volumes@[i].destination@,
                ) && skip_if_present),
            forall|i: int|
                0 <= i < volumes@.len() ==> (#[trigger] r@[2 * i + 1] matches FsStep::Mount(m)
                    && (m.source matches Some(s) && s@ == volumes@[i].source@) && m.target@
                    == host_path_spec(root_path_spec(self.dir@), volumes@[i].destination@)
                    && m.fstype is None && m.data is None && m.flags == flags_bind()),
    {
        let n = volumes.len();
        let mut r: Vec<FsStep> = Vec::new();
        let mut i: usize = 0;
        while i < n
            invariant
                i <= n,
                n == volumes@.len(),
                r@.len() == 2 * i,
                forall|j: int|
                    0 <= j < i ==> (#[trigger] r@[2 * j] matches FsStep::MakeDir {
                        path,
                        skip_if_present,
                    } && path@ == host_path_spec(
                        root_path_spec(self.dir@),
                        volumes@[j].destination@,
                    ) && skip_if_present),
                forall|j: int|
                    0 <= j < i ==> (#[trigger] r@[2 * j + 1] matches FsStep::Mount(m)
                        && (m.source matches Some(s) && s@ == volumes@[j].source@) && m.target@
                        == host_path_spec(root_path_spec(self.dir@), volumes@[j].destination@)
                        && m.fstype is None && m.data is None && m.flags == flags_bind()),
            decreases n - i,
        {
            let dest = self.host_path_from_container_path(volumes[i].destination.as_str());
            r.push(FsStep::MakeDir { path: dest.clone(), skip_if_present: true });
            r.push(
                FsStep::Mount(
                    MountCall {
                        source: Some(volumes[i].source.clone()),
                        target: dest,
                        fstype: None,
                        data: None,
                        flags: MountFlags {
                            rec: false,
                            private: false,
                            bind: true,
                            nosuid: false,
                            nodev: false,
                            noexec: false,
                            noatime: false,
                        },
                    },
                ),
            );
            i += 1;
        }
        r
    }

    /// Unmount each volume at the same resolved host path it was bound at.
    pub fn volume_unmount_plan(&self, volumes: &Vec<Volume>) -> (r: Vec<FsStep>)
        ensures
            r@.len() == volumes@.len(),
            forall|i: int|
                0 <= i < volumes@.len() ==> (#[trigger] r@[i] matches FsStep::Unmount {
                    path,
                    detach,
                } && path@ == host_path_spec(
                    root_path_spec(self.dir@),
                    volumes@[i].destination@,
                ) && !detach),
    {
        let n = volumes.len();
        let mut r: Vec<FsStep> = Vec::new();
        let mut i: usize = 0;
        while i < n
            invariant
                i <= n,
                n == volumes@.len(),
                r@.len() == i,
                forall|j: int|
                    0 <= j < i ==> (#[trigger] r@[j] matches FsStep::Unmount { path, detach }
                        && path@ == host_path_spec(
                        root_path_spec(self.dir@),
                        volumes@[j].destination@,
                    ) && !detach),
            decreases n - i,
        {
            let dest = self.host_path_from_container_path(volumes[i].destination.as_str());
            r.push(FsStep::Unmount { path: dest, detach: false });
            i += 1;
        }
        r
    }
}

} // verus!
