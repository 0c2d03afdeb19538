use con::capabilities::Cap;
use con::capabilities::CapSetKind;
use con::capabilities::caps_to_drop;
use con::capabilities::drop_plan;
use con::cgroups::CgroupController;
use con::cgroups::Config;
use con::cgroups::DEFAULT_CPU_SHARES;
use con::cgroups::DEFAULT_MEMORY_BYTES;
use con::cgroups::DEFAULT_PIDS_LIMIT;
use con::cgroups::PidsMax;
use con::cgroups::attach_order;
use con::cgroups::cgroup_name;
use con::error::Error;
use con::namespaces::NsKind;
use con::namespaces::handshake_ok_message;
use con::namespaces::handshake_ready;
use con::namespaces::idmap_args;
use con::namespaces::inner_clone_namespaces;
use con::namespaces::outer_clone_namespaces;
use con::pipeline::Action;
use con::pipeline::Event;
use con::pipeline::Phase;
use con::pipeline::Pipeline;
use con::pipeline::Resource;

/// Drive the pipeline until `fail_at` asks to run, reporting success for
/// everything before; then report `failure` there and succeed every
/// release. Collects every action that was asked for.
fn drive(fail_at: Option<Action>, failure: Error) -> (Pipeline, Vec<Action>) {
    let mut p = Pipeline::new();
    let mut actions = Vec::new();
    let mut guard = 0;
    while !p.done() {
        let a = p.next_action();
        actions.push(a);
        if Some(a) == fail_at {
            p.step(Event::Failed(failure));
        } else {
            p.step(Event::Succeeded);
        }
        guard += 1;
        assert!(guard < 100, "pipeline did not terminate");
    }
    (p, actions)
}

#[test]
fn successful_run_releases_everything_in_reverse_order() {
    let (p, actions) = drive(None, Error::ExecFailed);
    assert_eq!(p.result_error(), None);
    assert!(!p.had_cleanup_trouble());
    let releases: Vec<Action> = actions
        .iter()
        .filter(|a| matches!(a, Action::Release(_)))
        .cloned()
        .collect();
    assert_eq!(
        releases,
        vec![
            Action::Release(Resource::CgroupDir),
            Action::Release(Resource::SpecialMounts),
            Action::Release(Resource::VolumeMounts),
            Action::Release(Resource::OverlayMount),
            Action::Release(Resource::BundleDir),
        ]
    );
}

#[test]
fn forward_actions_come_in_pipeline_order() {
    let (_, actions) = drive(None, Error::ExecFailed);
    let forward: Vec<Action> = actions
        .iter()
        .filter(|a| !matches!(a, Action::Release(_)))
        .cloned()
        .collect();
    assert_eq!(
        forward,
        vec![
            Action::CheckImagePresent,
            Action::DoLoadImage,
            Action::DoMergeConfig,
            Action::DoCreateBundle,
            Action::DoEnterNamespaces,
            Action::DoMountOverlay,
            Action::DoMountVolumes,
            Action::DoBindOldProcSys,
            Action::DoMountSpecial,
            Action::DoSetHostname,
            Action::DoDropCaps,
            Action::DoCreateCgroup,
            Action::DoInnerClone,
            Action::DoJoinCgroup,
            Action::DoPivotRoot,
            Action::DoExecve,
            Action::DoWaitChild,
        ]
    );
}

#[test]
fn killed_child_still_tears_everything_down() {
    let (p, actions) = drive(Some(Action::DoWaitChild), Error::ExecFailed);
    assert_eq!(p.result_error(), Some(Error::ExecFailed));
    let releases: Vec<Action> = actions
        .iter()
        .filter(|a| matches!(a, Action::Release(_)))
        .cloned()
        .collect();
    assert_eq!(releases.len(), 5);
    assert_eq!(releases[0], Action::Release(Resource::CgroupDir));
    assert_eq!(releases[4], Action::Release(Resource::BundleDir));
}

#[test]
fn failure_before_bundle_creates_nothing_to_release() {
    let (p, actions) = drive(Some(Action::DoLoadImage), Error::ImageCorrupt);
    assert_eq!(p.result_error(), Some(Error::ImageCorrupt));
    assert!(actions.iter().all(|a| !matches!(a, Action::Release(_))));
}

#[test]
fn absent_image_goes_through_pull_and_back() {
    let mut p = Pipeline::new();
    assert_eq!(p.next_action(), Action::CheckImagePresent);
    p.step(Event::Absent);
    assert_eq!(p.next_action(), Action::DoPull);
    p.step(Event::Succeeded);
    assert_eq!(p.next_action(), Action::CheckImagePresent);
}

#[test]
fn registry_failure_during_pull_ends_run_without_bundle() {
    let mut p = Pipeline::new();
    p.step(Event::Absent);
    assert_eq!(p.next_action(), Action::DoPull);
    p.step(Event::Failed(Error::RegistryUnavailable));
    assert!(p.done());
    assert_eq!(p.result_error(), Some(Error::RegistryUnavailable));
}

#[test]
fn cleanup_failure_never_replaces_the_original_error() {
    let mut p = Pipeline::new();
    let mut guard = 0;
    while p.next_action() != Action::DoWaitChild {
        p.step(Event::Succeeded);
        guard += 1;
        assert!(guard < 100);
    }
    p.step(Event::Failed(Error::ExecFailed));
    // first release fails too
    assert!(matches!(p.next_action(), Action::Release(_)));
    p.step(Event::Failed(Error::CgroupSetupFailed));
    while !p.done() {
        p.step(Event::Succeeded);
        guard += 1;
        assert!(guard < 100);
    }
    assert_eq!(p.result_error(), Some(Error::ExecFailed));
    assert!(p.had_cleanup_trouble());
}

#[test]
fn mid_mount_failure_releases_only_what_was_acquired() {
    let (p, actions) = drive(Some(Action::DoMountVolumes), Error::SyscallFailed(
        con::error::SyscallOp::Mount,
        1,
    ));
    assert!(p.done());
    let releases: Vec<Action> = actions
        .iter()
        .filter(|a| matches!(a, Action::Release(_)))
        .cloned()
        .collect();
    assert_eq!(
        releases,
        vec![
            Action::Release(Resource::OverlayMount),
            Action::Release(Resource::BundleDir),
        ]
    );
}

#[test]
fn pipeline_starts_at_the_presence_probe() {
    let p = Pipeline::new();
    assert!(!p.done());
    assert_eq!(p.next_action(), Action::CheckImagePresent);
    assert_eq!(p.phase, Phase::Start);
}

#[test]
fn cgroup_name_prefixes_con() {
    assert_eq!(cgroup_name("myhost"), "con/myhost");
}

#[test]
fn cgroup_defaults_match_documented_values() {
    let c = Config::default();
    assert_eq!(c.cpu_shares, DEFAULT_CPU_SHARES);
    assert_eq!(c.cpu_shares, 256);
    assert_eq!(c.memory, DEFAULT_MEMORY_BYTES);
    assert_eq!(c.memory, 1073741824);
    assert_eq!(c.pids_limit, DEFAULT_PIDS_LIMIT);
    assert_eq!(c.pids_limit, 0);
}

#[test]
fn pids_limit_zero_means_unlimited() {
    let c = Config { cpu_shares: 256, memory: 1024, pids_limit: 0 };
    assert_eq!(c.pids_max(), PidsMax::Unlimited);
}

#[test]
fn pids_limit_five_is_the_childs_limit() {
    let c = Config { cpu_shares: 256, memory: 1024, pids_limit: 5 };
    assert_eq!(c.pids_max(), PidsMax::Limited(5));
    assert_eq!(c.memory_hard_limit(), 1024);
}

#[test]
fn largest_pids_limit_is_passed_through() {
    let c = Config { cpu_shares: 256, memory: 1024, pids_limit: u32::MAX };
    assert_eq!(c.pids_max(), PidsMax::Limited(4294967295));
}

#[test]
fn large_memory_limit_is_passed_through() {
    let c = Config { cpu_shares: 256, memory: 1 << 62, pids_limit: 0 };
    assert_eq!(c.memory_hard_limit(), 1_i64 << 62);
}

#[test]
fn processes_attach_to_cpu_memory_pids() {
    assert_eq!(
        attach_order(),
        vec![CgroupController::Cpu, CgroupController::Memory, CgroupController::Pids]
    );
}

#[test]
fn capability_denylist_is_complete_and_ordered() {
    let caps = caps_to_drop();
    assert_eq!(caps.len(), 20);
    assert_eq!(caps[0], Cap::AuditControl);
    assert_eq!(caps[12], Cap::SysAdmin);
    assert_eq!(caps[19], Cap::WakeAlarm);
}

#[test]
fn each_capability_is_dropped_from_bounding_then_inheritable() {
    let plan = drop_plan();
    assert_eq!(plan.len(), 40);
    assert_eq!(plan[0], (Cap::AuditControl, CapSetKind::Bounding));
    assert_eq!(plan[1], (Cap::AuditControl, CapSetKind::Inheritable));
    assert_eq!(plan[38], (Cap::WakeAlarm, CapSetKind::Bounding));
    assert_eq!(plan[39], (Cap::WakeAlarm, CapSetKind::Inheritable));
}

#[test]
fn outer_clone_enters_all_namespaces_inner_only_mount() {
    let outer = outer_clone_namespaces();
    assert_eq!(
        outer,
        vec![
            NsKind::Mount,
            NsKind::Cgroup,
            NsKind::Pid,
            NsKind::Ipc,
            NsKind::Net,
            NsKind::Uts,
            NsKind::User,
        ]
    );
    assert_eq!(inner_clone_namespaces(), vec![NsKind::Mount]);
}

#[test]
fn handshake_message_decodes_as_ready() {
    let msg = handshake_ok_message();
    assert_eq!(msg, [0u8; 4]);
    assert!(handshake_ready(&msg));
    assert!(!handshake_ready(&[1, 0, 0, 0]));
    assert!(!handshake_ready(&[0, 0, 0, 7]));
}

#[test]
fn idmap_args_map_root_to_host_id() {
    let args = idmap_args("4242", "1000");
    assert_eq!(args, vec!["4242", "0", "1000", "1"]);
}
