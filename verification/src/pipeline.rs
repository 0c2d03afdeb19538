use vstd::prelude::*;

use crate::error::Error;

verus! {

/// The stations of a run, from probing for the image to the final cleanup.
#[derive(Clone, Copy, Debug, PartialEq, Eq, Structural)]
pub enum Phase {
    /// Probe whether the image is already on disk.
    Start,
    /// Fetch the image from the registry.
    Pull,
    /// Read index, manifest and configuration.
    LoadImage,
    /// Fold the image configuration into the run's volumes and environment.
    MergeConfig,
    /// Create the bundle directories.
    CreateBundle,
    /// Outer clone into fresh namespaces plus the id-map handshake.
    EnterNamespaces,
    /// Mount the overlay at the bundle root.
    MountOverlay,
    /// Bind the requested volumes.
    MountVolumes,
    /// Park the host's /proc at `.oldproc` and bind the host's /sys.
    BindOldProcSys,
    /// Fresh proc and tmpfs; drop the parked `.oldproc`.
    MountSpecial,
    /// Set the container's hostname.
    SetHostname,
    /// Drop the capability denylist.
    DropCaps,
    /// Create the cgroup with its limits.
    CreateCgroup,
    /// Inner clone that will run the target.
    InnerClone,
    /// The child joins the cgroup.
    JoinCgroup,
    /// The child pivots its root.
    PivotRoot,
    /// The child execs the target command.
    Execve,
    /// The parent waits for the child.
    WaitChild,
    /// Release the acquired resources, one per step, most recent first.
    Teardown,
    /// Nothing left to do.
    Done,
}

/// Everything a run acquires that must be released again.
#[derive(Clone, Copy, Debug, PartialEq, Eq, Structural)]
pub enum Resource {
    BundleDir,
    OverlayMount,
    VolumeMounts,
    SpecialMounts,
    CgroupDir,
}

/// What the driver reports back about the action it performed. `Absent`
/// answers only the image-presence probe.
#[derive(Clone, Copy, Debug, PartialEq, Eq, Structural)]
pub enum Event {
    Succeeded,
    Absent,
    Failed(Error),
}

/// What the driver is asked to do next.
#[derive(Clone, Copy, Debug, PartialEq, Eq, Structural)]
pub enum Action {
    CheckImagePresent,
    DoPull,
    DoLoadImage,
    DoMergeConfig,
    DoCreateBundle,
    DoEnterNamespaces,
    DoMountOverlay,
    DoMountVolumes,
    DoBindOldProcSys,
    DoMountSpecial,
    DoSetHostname,
    DoDropCaps,
    DoCreateCgroup,
    DoInnerClone,
    DoJoinCgroup,
    DoPivotRoot,
    DoExecve,
    DoWaitChild,
    Release(Resource),
    Finished,
}

/// The run pipeline: the current phase, the stack of acquired resources,
/// the first error, and whether any cleanup step also failed.
#[derive(Debug)]
pub struct Pipeline {
    pub phase: Phase,
    pub acquired: Vec<Resource>,
    pub failure: Option<Error>,
    pub cleanup_trouble: bool,
}

/// The pipeline's mathematical state.
pub ghost struct PipelineModel {
    pub phase: Phase,
    pub stack: Seq<Resource>,
    pub failure: Option<Error>,
    pub cleanup_trouble: bool,
}

impl View for Pipeline {
    type V = PipelineModel;

    open spec fn view(&self) -> PipelineModel {
        PipelineModel {
            phase: self.phase,
            stack: self.acquired@,
            failure: self.failure,
            cleanup_trouble: self.cleanup_trouble,
        }
    }
}

/// The order resources are acquired in; they are released in reverse.
pub open spec fn acquisition_order() -> Seq<Resource> {
    seq![
        Resource::BundleDir,
        Resource::OverlayMount,
        Resource::VolumeMounts,
        Resource::SpecialMounts,
        Resource::CgroupDir,
    ]
}

/// How many resources are held while the given forward phase is current.
pub open spec fn held_at(p: Phase) -> int {
    match p {
        Phase::Start => 0,
        Phase::Pull => 0,
        Phase::LoadImage => 0,
        Phase::MergeConfig => 0,
        Phase::CreateBundle => 0,
        Phase::EnterNamespaces => 1,
        Phase::MountOverlay => 1,
        Phase::MountVolumes => 2,
        Phase::BindOldProcSys => 3,
        Phase::MountSpecial => 4,
        Phase::SetHostname => 4,
        Phase::DropCaps => 4,
        Phase::CreateCgroup => 4,
        Phase::InnerClone => 5,
        Phase::JoinCgroup => 5,
        Phase::PivotRoot => 5,
        Phase::Execve => 5,
        Phase::WaitChild => 5,
        Phase::Teardown => 0,
        Phase::Done => 0,
    }
}

/// The resource a phase acquires when its step succeeds.
pub open spec fn acquires(p: Phase) -> Option<Resource> {
    match p {
        Phase::CreateBundle => Some(Resource::BundleDir),
        Phase::MountOverlay => Some(Resource::OverlayMount),
        Phase::MountVolumes => Some(Resource::VolumeMounts),
        Phase::BindOldProcSys => Some(Resource::SpecialMounts),
        Phase::CreateCgroup => Some(Resource::CgroupDir),
        _ => None,
    }
}

/// The phase a successful step moves to.
pub open spec fn forward_next(p: Phase) -> Phase {
    match p {
        Phase::Start => Phase::LoadImage,
        Phase::Pull => Phase::Start,
        Phase::LoadImage => Phase::MergeConfig,
        Phase::MergeConfig => Phase::CreateBundle,
        Phase::CreateBundle => Phase::EnterNamespaces,
        Phase::EnterNamespaces => Phase::MountOverlay,
        Phase::MountOverlay => Phase::MountVolumes,
        Phase::MountVolumes => Phase::BindOldProcSys,
        Phase::BindOldProcSys => Phase::MountSpecial,
        Phase::MountSpecial => Phase::SetHostname,
        Phase::SetHostname => Phase::DropCaps,
        Phase::DropCaps => Phase::CreateCgroup,
        Phase::CreateCgroup => Phase::InnerClone,
        Phase::InnerClone => Phase::JoinCgroup,
        Phase::JoinCgroup => Phase::PivotRoot,
        Phase::PivotRoot => Phase::Execve,
        Phase::Execve => Phase::WaitChild,
        Phase::WaitChild => Phase::Teardown,
        Phase::Teardown => Phase::Teardown,
        Phase::Done => Phase::Done,
    }
}

/// A well-formed pipeline holds a prefix of the acquisition order, as many
/// resources as its phase implies, tears down only while something is held,
/// and is done only with nothing held.
pub open spec fn model_wf(m: PipelineModel) -> bool {
    &&& m.stack == acquisition_order().take(m.stack.len() as int)
    &&& m.stack.len() <= 5
    &&& match m.phase {
        Phase::Teardown => m.stack.len() > 0,
        Phase::Done => m.stack.len() == 0,
        _ => m.stack.len() == held_at(m.phase),
    }
}

/// What the driver is asked to do in the given state.
pub open spec fn action_spec(m: PipelineModel) -> Action {
    match m.phase {
        Phase::Start => Action::CheckImagePresent,
        Phase::Pull => Action::DoPull,
        Phase::LoadImage => Action::DoLoadImage,
        Phase::MergeConfig => Action::DoMergeConfig,
        Phase::CreateBundle => Action::DoCreateBundle,
        Phase::EnterNamespaces => Action::DoEnterNamespaces,
        Phase::MountOverlay => Action::DoMountOverlay,
        Phase::MountVolumes => Action::DoMountVolumes,
        Phase::BindOldProcSys => Action::DoBindOldProcSys,
        Phase::MountSpecial => Action::DoMountSpecial,
        Phase::SetHostname => Action::DoSetHostname,
        Phase::DropCaps => Action::DoDropCaps,
        Phase::CreateCgroup => Action::DoCreateCgroup,
        Phase::InnerClone => Action::DoInnerClone,
        Phase::JoinCgroup => Action::DoJoinCgroup,
        Phase::PivotRoot => Action::DoPivotRoot,
        Phase::Execve => Action::DoExecve,
        Phase::WaitChild => Action::DoWaitChild,
        Phase::Teardown => if m.stack.len() > 0 {
            Action::Release(m.stack.last())
        } else {
            Action::Finished
        },
        Phase::Done => Action::Finished,
    }
}

/// One transition: what the state becomes once the driver reports the
/// outcome of the current action. In teardown the stack always shrinks —
/// a failed release is recorded but never changes course — and the first
/// error is never replaced by a later one.
pub open spec fn step_model(m: PipelineModel, ev: Event) -> PipelineModel {
    match m.phase {
        Phase::Done => m,
        Phase::Teardown => {
            let stack = if m.stack.len() > 0 {
                m.stack.drop_last()
            } else {
                m.stack
            };
            PipelineModel {
                phase: if stack.len() == 0 {
                    Phase::Done
                } else {
                    Phase::Teardown
                },
                stack,
                failure: m.failure,
                cleanup_trouble: m.cleanup_trouble || (ev matches Event::Failed(_)),
            }
        },
        _ => match ev {
            Event::Succeeded => {
                let stack = match acquires(m.phase) {
                    Some(r) => m.stack.push(r),
                    None => m.stack,
                };
                let next = forward_next(m.phase);
                PipelineModel {
                    phase: if next == Phase::Teardown && stack.len() == 0 {
                        Phase::Done
                    } else {
                        next
                    },
                    stack,
                    failure: m.failure,
                    cleanup_trouble: m.cleanup_trouble,
                }
            },
            Event::Absent => PipelineModel {
                phase: if m.phase == Phase::Start {
                    Phase::Pull
                } else {
                    m.phase
                },
                stack: m.stack,
                failure: m.failure,
                cleanup_trouble: m.cleanup_trouble,
            },
            Event::Failed(e) => PipelineModel {
                phase: if m.stack.len() == 0 {
                    Phase::Done
                } else {
                    Phase::Teardown
                },
                stack: m.stack,
                failure: if m.failure is Some {
                    m.failure
                } else {
                    Some(e)
                },
                cleanup_trouble: m.cleanup_trouble,
            },
        },
    }
}

/// A step from a well-formed state reaches a well-formed state.
pub proof fn lemma_step_preserves_wf(m: PipelineModel, ev: Event)
    requires
        model_wf(m),
    ensures
        model_wf(step_model(m, ev)),
{
    let k = m.stack.len() as int;
    if m.phase == Phase::Teardown {
        assert(acquisition_order().take(k).drop_last() =~= acquisition_order().take(k - 1));
    } else if m.phase != Phase::Done && ev == Event::Succeeded {
        match acquires(m.phase) {
            Some(r) => {
                assert(acquisition_order().take(k).push(acquisition_order()[k])
                    =~= acquisition_order().take(k + 1));
            },
            None => {},
        }
    }
}

/// The releases owed for a held stack: one per resource, most recently
/// acquired first.
pub open spec fn teardown_actions(stack: Seq<Resource>) -> Seq<Action>
    decreases stack.len(),
{
    if stack.len() == 0 {
        seq![]
    } else {
        seq![Action::Release(stack.last())] + teardown_actions(stack.drop_last())
    }
}

pub proof fn lemma_teardown_actions_len(stack: Seq<Resource>)
    ensures
        teardown_actions(stack).len() == stack.len(),
    decreases stack.len(),
{
    if stack.len() > 0 {
        lemma_teardown_actions_len(stack.drop_last());
    }
}

/// The releases owed come in exact reverse order of acquisition.
pub proof fn lemma_teardown_actions_index(stack: Seq<Resource>, j: int)
    requires
        0 <= j < stack.len(),
    ensures
        teardown_actions(stack)[j] == Action::Release(stack[stack.len() - 1 - j]),
    decreases stack.len(),
{
    lemma_teardown_actions_len(stack.drop_last());
    if j > 0 {
        lemma_teardown_actions_index(stack.drop_last(), j - 1);
    }
}

/// The actions a tearing-down pipeline emits until it is done, given the
/// events the driver reports.
pub open spec fn teardown_trace(m: PipelineModel, evs: Seq<Event>) -> Seq<Action>
    decreases m.stack.len(),
{
    if m.phase != Phase::Teardown || m.stack.len() == 0 || evs.len() == 0 {
        seq![]
    } else {
        seq![action_spec(m)] + teardown_trace(step_model(m, evs[0]), evs.drop_first())
    }
}

/// The state a tearing-down pipeline ends in, given the driver's events.
pub open spec fn run_teardown(m: PipelineModel, evs: Seq<Event>) -> PipelineModel
    decreases m.stack.len(),
{
    if m.phase != Phase::Teardown || m.stack.len() == 0 || evs.len() == 0 {
        m
    } else {
        run_teardown(step_model(m, evs[0]), evs.drop_first())
    }
}

/// Whatever each release reports, a tearing-down pipeline asks for exactly
/// one release per held resource, in reverse order of acquisition.
pub proof fn lemma_teardown_reverse(m: PipelineModel, evs: Seq<Event>)
    requires
        model_wf(m),
        m.phase == Phase::Teardown,
        evs.len() >= m.stack.len(),
    ensures
        teardown_trace(m, evs) == teardown_actions(m.stack),
    decreases m.stack.len(),
{
    let m2 = step_model(m, evs[0]);
    lemma_step_preserves_wf(m, evs[0]);
    assert(m2.stack == m.stack.drop_last());
    assert(teardown_trace(m, evs) == seq![action_spec(m)] + teardown_trace(m2, evs.drop_first()));
    if m2.phase == Phase::Teardown {
        lemma_teardown_reverse(m2, evs.drop_first());
    } else {
        assert(m2.stack.len() == 0);
        assert(teardown_trace(m2, evs.drop_first()) == Seq::<Action>::empty());
        assert(teardown_actions(m2.stack) == Seq::<Action>::empty());
    }
    assert(teardown_trace(m2, evs.drop_first()) == teardown_actions(m.stack.drop_last()));
    assert(action_spec(m) == Action::Release(m.stack.last()));
    assert(teardown_actions(m.stack) == seq![Action::Release(m.stack.last())] + teardown_actions(
        m.stack.drop_last(),
    ));
    assert(teardown_trace(m, evs) =~= teardown_actions(m.stack));
}

/// Whatever each release reports, teardown ends with nothing held, the run
/// done, and the original error neither lost nor replaced.
pub proof fn lemma_teardown_completes(m: PipelineModel, evs: Seq<Event>)
    requires
        model_wf(m),
        m.phase == Phase::Teardown,
        evs.len() >= m.stack.len(),
    ensures
        run_teardown(m, evs).phase == Phase::Done,
        run_teardown(m, evs).stack.len() == 0,
        run_teardown(m, evs).failure == m.failure,
    decreases m.stack.len(),
{
    let m2 = step_model(m, evs[0]);
    lemma_step_preserves_wf(m, evs[0]);
    assert(run_teardown(m, evs) == run_teardown(m2, evs.drop_first()));
    if m2.phase == Phase::Teardown {
        lemma_teardown_completes(m2, evs.drop_first());
    } else {
        assert(m2.stack.len() == 0);
        assert(m2.phase == Phase::Done);
        assert(run_teardown(m2, evs.drop_first()) == m2);
    }
}

/// A failure in any forward phase leads, after the owed releases, to a
/// finished run with nothing held that reports exactly that failure: once
/// past bundle creation, neither the bundle nor the cgroup outlives the run.
pub proof fn lemma_failure_reaches_done(m: PipelineModel, e: Error, evs: Seq<Event>)
    requires
        model_wf(m),
        m.phase != Phase::Teardown,
        m.phase != Phase::Done,
        m.failure is None,
        evs.len() >= m.stack.len(),
    ensures
        run_teardown(step_model(m, Event::Failed(e)), evs).phase == Phase::Done,
        run_teardown(step_model(m, Event::Failed(e)), evs).stack.len() == 0,
        run_teardown(step_model(m, Event::Failed(e)), evs).failure == Some(e),
{
    let m2 = step_model(m, Event::Failed(e));
    lemma_step_preserves_wf(m, Event::Failed(e));
    if m2.phase == Phase::Teardown {
        lemma_teardown_completes(m2, evs);
    }
}

impl Pipeline {
    /// A run that has not started: nothing acquired, nothing failed.
    pub fn new() -> (r: Pipeline)
        ensures
            r@.phase == Phase::Start,
            r@.stack =~= Seq::<Resource>::empty(),
            r@.failure is None,
            !r@.cleanup_trouble,
            model_wf(r@),
    {
        let r = Pipeline {
            phase: Phase::Start,
            acquired: Vec::new(),
            failure: None,
            cleanup_trouble: false,
        };
        proof {
            assert(r@.stack =~= acquisition_order().take(0));
        }
        r
    }

    /// Whether the run is over.
    pub fn done(&self) -> (r: bool)
        ensures
            r == (self@.phase == Phase::Done),
    {
        self.phase == Phase::Done
    }

    /// The first error of the run, if any.
    pub fn result_error(&self) -> (r: Option<Error>)
        ensures
            r == self@.failure,
    {
        self.failure
    }

    /// Whether some release failed during teardown; such failures are
    /// reported alongside the original error, never in its place.
    pub fn had_cleanup_trouble(&self) -> (r: bool)
        ensures
            r == self@.cleanup_trouble,
    {
        self.cleanup_trouble
    }

    /// What the driver should do next.
    pub fn next_action(&self) -> (r: Action)
        ensures
            r == action_spec(self@),
    {
        match self.phase {
            Phase::Start => Action::CheckImagePresent,
            Phase::Pull => Action::DoPull,
            Phase::LoadImage => Action::DoLoadImage,
            Phase::MergeConfig => Action::DoMergeConfig,
            Phase::CreateBundle => Action::DoCreateBundle,
            Phase::EnterNamespaces => Action::DoEnterNamespaces,
            Phase::MountOverlay => Action::DoMountOverlay,
            Phase::MountVolumes => Action::DoMountVolumes,
            Phase::BindOldProcSys => Action::DoBindOldProcSys,
            Phase::MountSpecial => Action::DoMountSpecial,
            Phase::SetHostname => Action::DoSetHostname,
            Phase::DropCaps => Action::DoDropCaps,
            Phase::CreateCgroup => Action::DoCreateCgroup,
            Phase::InnerClone => Action::DoInnerClone,
            Phase::JoinCgroup => Action::DoJoinCgroup,
            Phase::PivotRoot => Action::DoPivotRoot,
            Phase::Execve => Action::DoExecve,
            Phase::WaitChild => Action::DoWaitChild,
            Phase::Teardown => {
                if self.acquired.len() > 0 {
                    Action::Release(self.acquired[self.acquired.len() - 1])
                } else {
                    Action::Finished
                }
            },
            Phase::Done => Action::Finished,
        }
    }

    /// Advance by one step on the driver's report. `Absent` may only answer
    /// the image-presence probe.
    pub fn step(&mut self, ev: Event)
        requires
            ev == Event::Absent ==> old(self)@.phase == Phase::Start,
        ensures
            final(self)@ == step_model(old(self)@, ev),
            model_wf(old(self)@) ==> model_wf(final(self)@),
    {
        proof {
            if model_wf(old(self)@) {
                lemma_step_preserves_wf(old(self)@, ev);
            }
        }
        let phase = self.phase;
        match phase {
            Phase::Done => {},
            Phase::Teardown => {
                if self.acquired.len() > 0 {
                    let _ = self.acquired.pop();
                }
                if let Event::Failed(_) = ev {
                    self.cleanup_trouble = true;
                }
                if self.acquired.len() == 0 {
                    self.phase = Phase::Done;
                }
            },
            _ => {
                match ev {
                    Event::Succeeded => {
                        match phase {
                            Phase::CreateBundle => self.acquired.push(Resource::BundleDir),
                            Phase::MountOverlay => self.acquired.push(Resource::OverlayMount),
                            Phase::MountVolumes => self.acquired.push(Resource::VolumeMounts),
                            Phase::BindOldProcSys => self.acquired.push(Resource::SpecialMounts),
                            Phase::CreateCgroup => self.acquired.push(Resource::CgroupDir),
                            _ => {},
                        }
                        self.phase = match phase {
                            Phase::Start => Phase::LoadImage,
                            Phase::Pull => Phase::Start,
                            Phase::LoadImage => Phase::MergeConfig,
                            Phase::MergeConfig => Phase::CreateBundle,
                            Phase::CreateBundle => Phase::EnterNamespaces,
                            Phase::EnterNamespaces => Phase::MountOverlay,
                            Phase::MountOverlay => Phase::MountVolumes,
                            Phase::MountVolumes => Phase::BindOldProcSys,
                            Phase::BindOldProcSys => Phase::MountSpecial,
                            Phase::MountSpecial => Phase::SetHostname,
                            Phase::SetHostname => Phase::DropCaps,
                            Phase::DropCaps => Phase::CreateCgroup,
                            Phase::CreateCgroup => Phase::InnerClone,
                            Phase::InnerClone => Phase::JoinCgroup,
                            Phase::JoinCgroup => Phase::PivotRoot,
                            Phase::PivotRoot => Phase::Execve,
                            Phase::Execve => Phase::WaitChild,
                            Phase::WaitChild => {
                                if self.acquired.len() == 0 {
                                    Phase::Done
                                } else {
                                    Phase::Teardown
                                }
                            },
                            Phase::Teardown => Phase::Teardown,
                            Phase::Done => Phase::Done,
                        };
                    },
                    Event::Absent => {
                        self.phase = Phase::Pull;
                    },
                    Event::Failed(e) => {
                        if self.failure.is_none() {
                            self.failure = Some(e);
                        }
                        self.phase = if self.acquired.len() == 0 {
                            Phase::Done
                        } else {
                            Phase::Teardown
                        };
                    },
                }
            },
        }
    }
}

} // verus!
