use vstd::prelude::*;

verus! {

/// The Linux capabilities this runtime removes from the container.
#[derive(Clone, Copy, Debug, PartialEq, Eq, Structural)]
pub enum Cap {
    AuditControl,
    AuditRead,
    AuditWrite,
    BlockSuspend,
    DacReadSearch,
    Fsetid,
    IpcLock,
    MacAdmin,
    MacOverride,
    Mknod,
    Setfcap,
    Syslog,
    SysAdmin,
    SysBoot,
    SysModule,
    SysNice,
    SysRawio,
    SysResource,
    SysTime,
    WakeAlarm,
}

/// The two capability sets the denylist is dropped from.
#[derive(Clone, Copy, Debug, PartialEq, Eq, Structural)]
pub enum CapSetKind {
    Bounding,
    Inheritable,
}

/// The fixed denylist, in the order the drops are performed.
pub open spec fn denylist() -> Seq<Cap> {
    seq![
        Cap::AuditControl,
        Cap::AuditRead,
        Cap::AuditWrite,
        Cap::BlockSuspend,
        Cap::DacReadSearch,
        Cap::Fsetid,
        Cap::IpcLock,
        Cap::MacAdmin,
        Cap::MacOverride,
        Cap::Mknod,
        Cap::Setfcap,
        Cap::Syslog,
        Cap::SysAdmin,
        Cap::SysBoot,
        Cap::SysModule,
        Cap::SysNice,
        Cap::SysRawio,
        Cap::SysResource,
        Cap::SysTime,
        Cap::WakeAlarm,
    ]
}

/// The capabilities to drop, in order.
pub fn caps_to_drop() -> (r: Vec<Cap>)
    ensures
        r@ =~= denylist(),
{
    let mut r: Vec<Cap> = Vec::new();
    r.push(Cap::AuditControl);
    r.push(Cap::AuditRead);
    r.push(Cap::AuditWrite);
    r.push(Cap::BlockSuspend);
    r.push(Cap::DacReadSearch);
    r.push(Cap::Fsetid);
    r.push(Cap::IpcLock);
    r.push(Cap::MacAdmin);
    r.push(Cap::MacOverride);
    r.push(Cap::Mknod);
    r.push(Cap::Setfcap);
    r.push(Cap::Syslog);
    r.push(Cap::SysAdmin);
    r.push(Cap::SysBoot);
    r.push(Cap::SysModule);
    r.push(Cap::SysNice);
    r.push(Cap::SysRawio);
    r.push(Cap::SysResource);
    r.push(Cap::SysTime);
    r.push(Cap::WakeAlarm);
    r
}

/// The individual drop operations, in order: for each capability of the
/// denylist, first the bounding set, then the inheritable set.
pub fn drop_plan() -> (r: Vec<(Cap, CapSetKind)>)
    ensures
        r@.len() == 2 * denylist().len(),
        forall|i: int|
            0 <= i < denylist().len() ==> #[trigger] r@[2 * i] == (
                denylist()[i],
                CapSetKind::Bounding,
            ) && r@[2 * i + 1] == (denylist()[i], CapSetKind::Inheritable),
{
    let caps = caps_to_drop();
    let n = caps.len();
    let mut r: Vec<(Cap, CapSetKind)> = Vec::new();
    let mut i: usize = 0;
    while i < n
        invariant
            i <= n,
            n == denylist().len(),
            caps@ =~= denylist(),
            r@.len() == 2 * i,
            forall|j: int|
                0 <= j < i ==> #[trigger] r@[2 * j] == (denylist()[j], CapSetKind::Bounding)
                    && r@[2 * j + 1] == (denylist()[j], CapSetKind::Inheritable),
        decreases n - i,
    {
        let c = caps[i];
        r.push((c, CapSetKind::Bounding));
        r.push((c, CapSetKind::Inheritable));
        i += 1;
    }
    r
}

} // verus!
