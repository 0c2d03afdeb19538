use vstd::prelude::*;

verus! {

/// Size of the stack handed to each cloned child.
pub const CLONE_STACK_SIZE: usize = 1024 * 1024;

/// The kinds of namespace a clone can enter.
#[derive(Clone, Copy, Debug, PartialEq, Eq, Structural)]
pub enum NsKind {
    Mount,
    Cgroup,
    Pid,
    Ipc,
    Net,
    Uts,
    User,
}

/// The namespaces the outer child is cloned into: everything, including a
/// fresh user namespace for rootless id mapping.
pub fn outer_clone_namespaces() -> (r: Vec<NsKind>)
    ensures
        r@ =~= seq![
            NsKind::Mount,
            NsKind::Cgroup,
            NsKind::Pid,
            NsKind::Ipc,
            NsKind::Net,
            NsKind::Uts,
            NsKind::User,
        ],
{
    let mut r: Vec<NsKind> = Vec::new();
    r.push(NsKind::Mount);
    r.push(NsKind::Cgroup);
    r.push(NsKind::Pid);
    r.push(NsKind::Ipc);
    r.push(NsKind::Net);
    r.push(NsKind::Uts);
    r.push(NsKind::User);
    r
}

/// The namespaces of the inner clone that runs the target process: only a
/// fresh mount namespace; pid, net and the rest are inherited.
pub fn inner_clone_namespaces() -> (r: Vec<NsKind>)
    ensures
        r@ =~= seq![NsKind::Mount],
{
    let mut r: Vec<NsKind> = Vec::new();
    r.push(NsKind::Mount);
    r
}

/// The little-endian value of a four-byte handshake message.
pub open spec fn le32(b: Seq<u8>) -> int
    recommends
        b.len() == 4,
{
    b[0] + b[1] * 0x100 + b[2] * 0x10000 + b[3] * 0x1000000
}

/// The message the parent sends once the uid/gid maps are written: the
/// little-endian encoding of 0.
pub fn handshake_ok_message() -> (r: [u8; 4])
    ensures
        r@.len() == 4,
        le32(r@) == 0,
{
    let r: [u8; 4] = [0, 0, 0, 0];
    r
}

/// Whether the four bytes read from the synchronization socket allow the
/// child to proceed: they must decode, little-endian, to 0.
pub fn handshake_ready(buf: &[u8; 4]) -> (r: bool)
    ensures
        r == (le32(buf@) == 0),
{
    buf[0] == 0 && buf[1] == 0 && buf[2] == 0 && buf[3] == 0
}

/// A child told to proceed has read exactly the message the parent sends.
pub proof fn lemma_handshake_round_trip(b: Seq<u8>)
    requires
        b.len() == 4,
        le32(b) == 0,
    ensures
        b =~= seq![0u8, 0u8, 0u8, 0u8],
{
    assert(b[0] == 0 && b[1] == 0 && b[2] == 0 && b[3] == 0);
}

/// Arguments handed to `newuidmap` / `newgidmap` for a child: map container
/// id 0 to the invoking user's host id, for a range of one id.
pub fn idmap_args(child_pid: &str, host_id: &str) -> (r: Vec<String>)
    ensures
        r@.len() == 4,
        r@[0]@ == child_pid@,
        r@[1]@ == "0"@,
        r@[2]@ == host_id@,
        r@[3]@ == "1"@,
{
    let mut r: Vec<String> = Vec::new();
    r.push(child_pid.to_owned());
    r.push("0".to_owned());
    r.push(host_id.to_owned());
    r.push("1".to_owned());
    r
}

} // verus!
