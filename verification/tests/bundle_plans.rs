use con::bundle::Bundle;
use con::bundle::FsStep;
use con::bundle::container_dir_name;
use con::bundle::overlay_options;
use con::bundle::root_path;
use con::bundle::upperdir_path;
use con::bundle::workdir_path;
use con::image::ConfigDoc;
use con::image::Image;
use con::image::IndexDoc;
use con::image::ManifestDoc;
use con::unpack::UnpackStep;
use con::unpack::unpack_steps;
use con::volume::Volume;

fn fixture_image() -> Image {
    Image::from_docs(
        "library/alpine".to_string(),
        "latest".to_string(),
        "/images/library/alpine".to_string(),
        IndexDoc { manifest_digests: vec!["sha256:dd".to_string()] },
        ManifestDoc {
            config_digest: "sha256:cc".to_string(),
            layer_digests: vec!["sha256:aa".to_string(), "sha256:bb".to_string()],
        },
        ConfigDoc { env: None, volumes: None },
    )
    .unwrap()
}

fn fixture_bundle() -> Bundle {
    Bundle::new(fixture_image(), "/run/library/alpine-container".to_string())
}

#[test]
fn bundle_paths_are_siblings_under_dir() {
    assert_eq!(root_path("/d"), "/d/rootfs");
    assert_eq!(workdir_path("/d"), "/d/workdir");
    assert_eq!(upperdir_path("/d"), "/d/upperdir");
    let b = fixture_bundle();
    assert_eq!(b.root_path(), "/run/library/alpine-container/rootfs");
    assert_eq!(b.workdir_path(), "/run/library/alpine-container/workdir");
    assert_eq!(b.upperdir_path(), "/run/library/alpine-container/upperdir");
}

#[test]
fn container_dir_name_appends_suffix() {
    assert_eq!(container_dir_name("library/alpine"), "library/alpine-container");
}

#[test]
fn host_path_strips_leading_slash() {
    let b = fixture_bundle();
    assert_eq!(
        b.host_path_from_container_path("/data"),
        "/run/library/alpine-container/rootfs/data"
    );
    assert_eq!(
        b.host_path_from_container_path("data"),
        "/run/library/alpine-container/rootfs/data"
    );
}

#[test]
fn overlay_options_joins_layers_bottom_first() {
    let layers = vec!["/l/a".to_string(), "/l/b".to_string()];
    let s = overlay_options(&layers, "/d/upperdir", "/d/workdir");
    assert_eq!(s, "lowerdir=/l/a:/l/b,upperdir=/d/upperdir,workdir=/d/workdir");
}

#[test]
fn overlay_options_of_no_layers_is_an_empty_lowerdir() {
    let layers: Vec<String> = Vec::new();
    let s = overlay_options(&layers, "/u", "/w");
    assert_eq!(s, "lowerdir=,upperdir=/u,workdir=/w");
}

#[test]
fn overlay_mount_call_holds_both_layers_in_order() {
    let b = fixture_bundle();
    let m = b.overlay_mount().unwrap();
    assert_eq!(m.source, None);
    assert_eq!(m.target, "/run/library/alpine-container/rootfs");
    assert_eq!(m.fstype, Some("overlay".to_string()));
    let data = m.data.unwrap();
    assert_eq!(
        data,
        "lowerdir=/images/library/alpine/blobs/sha256/aa:/images/library/alpine/blobs/sha256/bb,upperdir=/run/library/alpine-container/upperdir,workdir=/run/library/alpine-container/workdir"
    );
    assert!(!m.flags.rec && !m.flags.bind && !m.flags.nosuid);
}

#[test]
fn create_dirs_plan_makes_the_three_directories() {
    let b = fixture_bundle();
    let plan = b.create_dirs_plan();
    assert_eq!(plan.len(), 3);
    match &plan[0] {
        FsStep::MakeDir { path, skip_if_present } => {
            assert_eq!(path, "/run/library/alpine-container/rootfs");
            assert!(!skip_if_present);
        }
        other => panic!("unexpected step: {:?}", other),
    }
}

#[test]
fn change_root_plan_pivots_then_drops_old_root() {
    let b = fixture_bundle();
    let plan = b.change_root_plan();
    assert_eq!(plan.len(), 6);
    match &plan[0] {
        FsStep::MakeDir { path, .. } => {
            assert_eq!(path, "/run/library/alpine-container/rootfs/old_root")
        }
        other => panic!("unexpected step: {:?}", other),
    }
    match &plan[1] {
        FsStep::Mount(m) => {
            assert_eq!(m.target, "/");
            assert!(m.flags.rec && m.flags.private);
        }
        other => panic!("unexpected step: {:?}", other),
    }
    match &plan[2] {
        FsStep::PivotRoot { new_root, put_old } => {
            assert_eq!(new_root, "/run/library/alpine-container/rootfs");
            assert_eq!(put_old, "/run/library/alpine-container/rootfs/old_root");
        }
        other => panic!("unexpected step: {:?}", other),
    }
    match &plan[4] {
        FsStep::Unmount { path, detach } => {
            assert_eq!(path, "/old_root");
            assert!(*detach);
        }
        other => panic!("unexpected step: {:?}", other),
    }
    match &plan[5] {
        FsStep::RemoveDir { path } => assert_eq!(path, "/old_root"),
        other => panic!("unexpected step: {:?}", other),
    }
}

#[test]
fn special_mount_plan_parks_oldproc_and_mounts_fresh_proc_tmp_sys() {
    let b = fixture_bundle();
    let root = "/run/library/alpine-container/rootfs";
    let plan = b.special_mount_plan();
    assert_eq!(plan.len(), 9);
    match &plan[1] {
        FsStep::Mount(m) => {
            assert_eq!(m.source, Some("/proc".to_string()));
            assert_eq!(m.target, format!("{}/.oldproc", root));
            assert!(m.flags.rec && m.flags.bind);
        }
        other => panic!("unexpected step: {:?}", other),
    }
    match &plan[3] {
        FsStep::Mount(m) => {
            assert_eq!(m.source, Some("proc".to_string()));
            assert_eq!(m.target, format!("{}/proc", root));
            assert_eq!(m.fstype, Some("proc".to_string()));
            assert!(m.flags.nosuid && !m.flags.nodev);
        }
        other => panic!("unexpected step: {:?}", other),
    }
    match &plan[4] {
        FsStep::Unmount { path, detach } => {
            assert_eq!(path, &format!("{}/.oldproc", root));
            assert!(*detach);
        }
        other => panic!("unexpected step: {:?}", other),
    }
    match &plan[7] {
        FsStep::Mount(m) => {
            assert_eq!(m.fstype, Some("tmpfs".to_string()));
            assert_eq!(m.target, format!("{}/tmp", root));
            assert!(m.flags.nosuid && m.flags.nodev && m.flags.noexec && m.flags.noatime);
        }
        other => panic!("unexpected step: {:?}", other),
    }
    match &plan[8] {
        FsStep::Mount(m) => {
            assert_eq!(m.source, Some("/sys".to_string()));
            assert_eq!(m.target, format!("{}/sys", root));
            assert!(m.flags.rec && m.flags.bind);
        }
        other => panic!("unexpected step: {:?}", other),
    }
}

#[test]
fn special_unmount_plan_reverses_proc_tmp_sys() {
    let b = fixture_bundle();
    let root = "/run/library/alpine-container/rootfs";
    let plan = b.special_unmount_plan();
    assert_eq!(plan.len(), 3);
    match &plan[0] {
        FsStep::Unmount { path, detach } => {
            assert_eq!(path, &format!("{}/proc", root));
            assert!(!detach);
        }
        other => panic!("unexpected step: {:?}", other),
    }
    match &plan[2] {
        FsStep::Unmount { path, detach } => {
            assert_eq!(path, &format!("{}/sys", root));
            assert!(*detach);
        }
        other => panic!("unexpected step: {:?}", other),
    }
}

#[test]
fn volume_plans_bind_and_unbind_at_resolved_paths() {
    let b = fixture_bundle();
    let volumes = vec![Volume { source: "/tmp/host".to_string(), destination: "/data".to_string() }];
    let plan = b.volume_mount_plan(&volumes);
    assert_eq!(plan.len(), 2);
    match &plan[0] {
        FsStep::MakeDir { path, skip_if_present } => {
            assert_eq!(path, "/run/library/alpine-container/rootfs/data");
            assert!(*skip_if_present);
        }
        other => panic!("unexpected step: {:?}", other),
    }
    match &plan[1] {
        FsStep::Mount(m) => {
            assert_eq!(m.source, Some("/tmp/host".to_string()));
            assert_eq!(m.target, "/run/library/alpine-container/rootfs/data");
            assert!(m.flags.bind && !m.flags.rec);
        }
        other => panic!("unexpected step: {:?}", other),
    }
    let unplan = b.volume_unmount_plan(&volumes);
    assert_eq!(unplan.len(), 1);
    match &unplan[0] {
        FsStep::Unmount { path, detach } => {
            assert_eq!(path, "/run/library/alpine-container/rootfs/data");
            assert!(!detach);
        }
        other => panic!("unexpected step: {:?}", other),
    }
}

#[test]
fn overlay_unmount_plan_unmounts_then_removes_bundle() {
    let b = fixture_bundle();
    let plan = b.overlay_unmount_plan();
    assert_eq!(plan.len(), 2);
    match &plan[0] {
        FsStep::Unmount { path, detach } => {
            assert_eq!(path, "/run/library/alpine-container/rootfs");
            assert!(!detach);
        }
        other => panic!("unexpected step: {:?}", other),
    }
    match &plan[1] {
        FsStep::RemoveDirAll { path } => assert_eq!(path, "/run/library/alpine-container"),
        other => panic!("unexpected step: {:?}", other),
    }
}

#[test]
fn unpack_goes_through_scratch_and_renames_into_place() {
    let layer = "/images/x/blobs/sha256/aa";
    let steps = unpack_steps(layer);
    assert_eq!(steps.len(), 4);
    match &steps[0] {
        UnpackStep::MakeDirAll { path } => assert_eq!(path, "/images/x/blobs/sha256/aa-unpacked"),
        other => panic!("unexpected step: {:?}", other),
    }
    match &steps[1] {
        UnpackStep::Extract { archive, dest } => {
            assert_eq!(archive, layer);
            assert_eq!(dest, "/images/x/blobs/sha256/aa-unpacked");
            assert_ne!(dest, archive);
        }
        other => panic!("unexpected step: {:?}", other),
    }
    match &steps[2] {
        UnpackStep::RemoveFile { path } => assert_eq!(path, layer),
        other => panic!("unexpected step: {:?}", other),
    }
    match &steps[3] {
        UnpackStep::Rename { from, to } => {
            assert_eq!(from, "/images/x/blobs/sha256/aa-unpacked");
            assert_eq!(to, layer);
        }
        other => panic!("unexpected step: {:?}", other),
    }
}
