use vstd::prelude::*;

use crate::text::concat2;

verus! {

/// Default relative cpu weight of a container.
pub const DEFAULT_CPU_SHARES: u64 = 256;

/// Default memory hard limit in bytes (1 GiB).
pub const DEFAULT_MEMORY_BYTES: u64 = 1073741824;

/// Default pids limit; 0 means unlimited.
pub const DEFAULT_PIDS_LIMIT: u32 = 0;

/// Resource limits applied to the container's cgroup.
#[derive(Clone, Copy, Debug, PartialEq, Eq, Structural)]
pub struct Config {
    /// CPU shares (relative weight).
    pub cpu_shares: u64,
    /// Memory hard limit in bytes.
    pub memory: u64,
    /// Max number of pids; 0 means unlimited.
    pub pids_limit: u32,
}

impl Default for Config {
    /// The limits used when the caller sets none.
    fn default() -> (r: Config)
        ensures
            r.cpu_shares == DEFAULT_CPU_SHARES,
            r.memory == DEFAULT_MEMORY_BYTES,
            r.pids_limit == DEFAULT_PIDS_LIMIT,
    {
        Config { cpu_shares: DEFAULT_CPU_SHARES, memory: DEFAULT_MEMORY_BYTES, pids_limit: DEFAULT_PIDS_LIMIT }
    }
}

/// The pids limit as handed to the kernel: either unlimited or a count.
#[derive(Clone, Copy, Debug, PartialEq, Eq, Structural)]
pub enum PidsMax {
    Unlimited,
    Limited(i64),
}

impl Config {
    /// A `pids_limit` of 0 means unlimited; any other value is the limit.
    pub fn pids_max(&self) -> (r: PidsMax)
        ensures
            r == if self.pids_limit == 0 {
                PidsMax::Unlimited
            } else {
                PidsMax::Limited(self.pids_limit as i64)
            },
    {
        if self.pids_limit == 0 {
            PidsMax::Unlimited
        } else {
            PidsMax::Limited(self.pids_limit as i64)
        }
    }

    /// The memory hard limit as the signed value the cgroup interface takes.
    pub fn memory_hard_limit(&self) -> (r: i64)
        ensures
            self.memory <= 0x7fff_ffff_ffff_ffff ==> r == self.memory as i64,
    {
        #[verifier::truncate]
        (self.memory as i64)
    }
}

/// The cgroup a container runs in: `con/<container name>`.
pub fn cgroup_name(container_name: &str) -> (r: String)
    ensures
        r@ == "con/"@ + container_name@,
{
    concat2("con/", container_name)
}

/// The controllers a process is attached to, in the order they are
/// configured and joined.
#[derive(Clone, Copy, Debug, PartialEq, Eq, Structural)]
pub enum CgroupController {
    Cpu,
    Memory,
    Pids,
}

/// The order in which the container's pid is attached to the controllers;
/// on each, `notify_on_release` is set before the task is added.
pub fn attach_order() -> (r: Vec<CgroupController>)
    ensures
        r@ =~= seq![CgroupController::Cpu, CgroupController::Memory, CgroupController::Pids],
{
    let mut r: Vec<CgroupController> = Vec::new();
    r.push(CgroupController::Cpu);
    r.push(CgroupController::Memory);
    r.push(CgroupController::Pids);
    r
}

} // verus!
