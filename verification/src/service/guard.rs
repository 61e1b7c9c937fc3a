//! What a request must pass before it is served: the root mount is up, this node leads, the mount
//! lets data through.

use crate::error::{ErrorKind, MetadataError};
use crate::ids::{GroupName, MountId};
use crate::raft::RaftView;
use crate::rpc;
use crate::rpc::{DetailModel, FailureKind, RecoveryModel, RefreshHint, RpcErrorDetail};
use crate::service::fs_types::DataIoOp;
use crate::text;
use vstd::prelude::*;
use vstd::string::*;

verus! {

/// Where the root mount stands.
pub const ROOT_MOUNT_PREFIX: &'static str = "/";

/// After how long a request that came too early can be tried again.
pub const UNAVAILABLE_RETRY_MS: u64 = 1000;

/// Whether a mount lets data through.
#[derive(Clone, Copy, Debug, PartialEq, Eq, Structural)]
pub enum DataIoPolicy {
    Allow,
    Forbid,
}

/// A mount as the guard sees it.
#[derive(Debug)]
pub struct MountEntry {
    pub mount_id: MountId,
    pub mount_prefix: String,
    pub data_io_policy: DataIoPolicy,
    pub namespace_owner_group_name: GroupName,
    pub mount_epoch: u64,
}

/// What looking up a mount gave.
#[derive(Debug)]
pub enum MountLookup {
    Failed(MetadataError),
    Absent,
    Found(MountEntry),
}

/// The name of a data operation.
pub open spec fn op_name(op: DataIoOp) -> Seq<char> {
    match op {
        DataIoOp::Read => "read"@,
        DataIoOp::Write => "write"@,
        DataIoOp::OpenWrite => "open_write"@,
        DataIoOp::CloseWrite => "close_write"@,
        DataIoOp::RenewLease => "renew_lease"@,
        DataIoOp::Fsync => "fsync"@,
        DataIoOp::Truncate => "truncate"@,
    }
}

impl DataIoOp {
    /// The name of the operation.
    pub fn as_str(&self) -> (name: &'static str)
        ensures
            name@ == op_name(*self),
    {
        match self {
            DataIoOp::Read => "read",
            DataIoOp::Write => "write",
            DataIoOp::OpenWrite => "open_write",
            DataIoOp::CloseWrite => "close_write",
            DataIoOp::RenewLease => "renew_lease",
            DataIoOp::Fsync => "fsync",
            DataIoOp::Truncate => "truncate",
        }
    }
}

/// The error that a guard stops a request with.
#[derive(Debug)]
pub enum GuardError {
    Detail(RpcErrorDetail),
    Error(MetadataError),
}

/// Why a request is stopped, and of which group and mount epoch that is told.
#[derive(Debug)]
pub struct GuardFailure {
    pub err: GuardError,
    pub group_name: Option<GroupName>,
    pub mount_epoch: Option<u64>,
}

pub ghost enum GuardErrorModel {
    Detail(DetailModel),
    Error(ErrorKind, Seq<char>),
}

pub ghost struct GuardFailureModel {
    pub err: GuardErrorModel,
    pub group_name: Option<Seq<char>>,
    pub mount_epoch: Option<u64>,
}

impl View for GuardFailure {
    type V = GuardFailureModel;

    open spec fn view(&self) -> GuardFailureModel {
        GuardFailureModel {
            err: match self.err {
                GuardError::Detail(detail) => GuardErrorModel::Detail(detail@),
                GuardError::Error(error) => GuardErrorModel::Error(error.spec_kind(), error.spec_text()),
            },
            group_name: rpc::named(self.group_name),
            mount_epoch: self.mount_epoch,
        }
    }
}

impl GuardFailureModel {
    pub open spec fn detail(detail: DetailModel) -> GuardFailureModel {
        GuardFailureModel { err: GuardErrorModel::Detail(detail), group_name: None, mount_epoch: None }
    }

    pub open spec fn error(kind: ErrorKind, text: Seq<char>) -> GuardFailureModel {
        GuardFailureModel { err: GuardErrorModel::Error(kind, text), group_name: None, mount_epoch: None }
    }
}

/// The request came too early.
pub open spec fn unavailable(text: Seq<char>) -> GuardFailureModel {
    GuardFailureModel::detail(DetailModel::retry(FailureKind::NodeUnavailable, Some(UNAVAILABLE_RETRY_MS), text))
}

impl GuardFailure {
    fn new(err: GuardError) -> (failure: Self)
        ensures
            failure.err == err,
            failure.group_name is None,
            failure.mount_epoch is None,
    {
        GuardFailure { err, group_name: None, mount_epoch: None }
    }

    fn unavailable(message: &str) -> (failure: Self)
        ensures
            failure@ == unavailable(message@),
    {
        GuardFailure::new(
            GuardError::Detail(
                RpcErrorDetail::retry(
                    FailureKind::NodeUnavailable,
                    Some(UNAVAILABLE_RETRY_MS),
                    text::literal(message),
                ),
            ),
        )
    }

    fn with_mount(self, group_name: Option<GroupName>, mount_epoch: Option<u64>) -> (failure: Self)
        ensures
            failure == (GuardFailure { err: self.err, group_name, mount_epoch }),
    {
        GuardFailure { err: self.err, group_name, mount_epoch }
    }
}

/// The guard said so: it passed, or it failed with this.
pub open spec fn guarded(result: Result<(), GuardFailure>, failure: Option<GuardFailureModel>) -> bool {
    match (result, failure) {
        (Ok(_), None) => true,
        (Err(f), Some(m)) => f@ == m,
        _ => false,
    }
}

/// The first of two failures.
pub open spec fn first_failure(one: Option<GuardFailureModel>, other: Option<GuardFailureModel>) -> Option<GuardFailureModel> {
    if one is Some {
        one
    } else {
        other
    }
}

/// Why the root mount stops a request: a gate is there and is not open yet.
pub open spec fn readiness_failure(gate: Option<bool>) -> Option<GuardFailureModel> {
    if gate == Some(false) {
        Some(unavailable("root mount not ready"@))
    } else {
        None
    }
}

/// Why leadership stops a request. The peer is told where the leader is, as far as it is known,
/// and its own group.
pub open spec fn leadership_failure(raft: Option<RaftView>, caller_group: Option<Seq<char>>) -> Option<GuardFailureModel> {
    match raft {
        None => Some(unavailable("raft node not available"@)),
        Some(view) => if view.is_leader {
            None
        } else {
            Some(
                GuardFailureModel::detail(
                    DetailModel::refresh(
                        FailureKind::NotLeader,
                        view.spec_leader_address(),
                        caller_group,
                        "not leader"@,
                    ),
                ),
            )
        },
    }
}

/// What a mount that lets no data through says.
pub open spec fn forbidden_text(op: DataIoOp, prefix: Seq<char>) -> Seq<char> {
    (if prefix == ROOT_MOUNT_PREFIX@ {
        "RootDataIoForbidden"@
    } else {
        "MountHasNoUfs"@
    }) + ": op="@ + op_name(op) + " mount_prefix="@ + prefix
}

/// Why the mount stops a data operation.
pub open spec fn data_io_failure(mount_id: MountId, mount: MountLookup, op: DataIoOp) -> Option<GuardFailureModel> {
    match mount {
        MountLookup::Failed(error) => Some(GuardFailureModel::error(error.spec_kind(), error.spec_text())),
        MountLookup::Absent => Some(
            GuardFailureModel::error(
                ErrorKind::NotFound,
                "Mount not found: MountId("@ + text::decimal(mount_id.raw as nat) + ")"@,
            ),
        ),
        MountLookup::Found(entry) => if entry.data_io_policy != DataIoPolicy::Forbid {
            None
        } else {
            Some(
                GuardFailureModel {
                    err: GuardErrorModel::Detail(
                        DetailModel::fail(FailureKind::NotSupported, forbidden_text(op, entry.mount_prefix@)),
                    ),
                    group_name: Some(entry.namespace_owner_group_name@),
                    mount_epoch: Some(entry.mount_epoch),
                },
            )
        },
    }
}

/// Rights that can be asked of a path.
#[derive(Clone, Copy, Debug, PartialEq, Eq, Structural)]
pub enum PermissionBits {
    Read,
    Write,
    Execute,
}

/// The guards of one node, with what they see at one time.
#[derive(Debug)]
pub struct GuardChain {
    /// Whether the root mount is ready, where that is watched.
    pub readiness_gate: Option<bool>,
    pub raft_node: Option<RaftView>,
}

impl GuardChain {
    /// No gate, and no raft node.
    pub fn new() -> (chain: Self)
        ensures
            chain.readiness_gate is None,
            chain.raft_node is None,
    {
        GuardChain { readiness_gate: None, raft_node: None }
    }

    pub fn with_readiness_gate(self, gate: Option<bool>) -> (chain: Self)
        ensures
            chain == (GuardChain { readiness_gate: gate, ..self }),
    {
        GuardChain { readiness_gate: gate, raft_node: self.raft_node }
    }

    pub fn with_raft_node(self, raft_node: Option<RaftView>) -> (chain: Self)
        ensures
            chain == (GuardChain { raft_node, ..self }),
    {
        GuardChain { readiness_gate: self.readiness_gate, raft_node }
    }

    fn check_readiness(&self) -> (result: Result<(), GuardFailure>)
        ensures
            guarded(result, readiness_failure(self.readiness_gate)),
    {
        match self.readiness_gate {
            Some(open) => if open {
                Ok(())
            } else {
                Err(GuardFailure::unavailable("root mount not ready"))
            },
            None => Ok(()),
        }
    }

    fn check_leadership(&self, caller_group: &Option<GroupName>) -> (result: Result<(), GuardFailure>)
        ensures
            guarded(result, leadership_failure(self.raft_node, rpc::named(*caller_group))),
    {
        match &self.raft_node {
            None => Err(GuardFailure::unavailable("raft node not available")),
            Some(view) => if view.is_leader {
                Ok(())
            } else {
                let hint = RefreshHint {
                    leader_endpoint: view.leader_address(),
                    group_name: rpc::copy_group(caller_group),
                };
                Err(
                    GuardFailure::new(
                        GuardError::Detail(
                            RpcErrorDetail::refresh_metadata(
                                FailureKind::NotLeader,
                                hint,
                                text::literal("not leader"),
                            ),
                        ),
                    ),
                )
            },
        }
    }

    fn check_data_io(mount_id: MountId, mount: MountLookup, op: DataIoOp) -> (result: Result<(), GuardFailure>)
        ensures
            guarded(result, data_io_failure(mount_id, mount, op)),
    {
        match mount {
            MountLookup::Failed(error) => Err(GuardFailure::new(GuardError::Error(error))),
            MountLookup::Absent => Err(
                GuardFailure::new(
                    GuardError::Error(
                        MetadataError::NotFound(
                            text::with_number("Mount not found: MountId(", mount_id.raw, ")"),
                        ),
                    ),
                ),
            ),
            MountLookup::Found(entry) => if entry.data_io_policy != DataIoPolicy::Forbid {
                Ok(())
            } else {
                let reason = if text::same(entry.mount_prefix.as_str(), ROOT_MOUNT_PREFIX) {
                    "RootDataIoForbidden"
                } else {
                    "MountHasNoUfs"
                };
                let mut message = text::join(reason, ": op=");
                message.append(op.as_str());
                message.append(" mount_prefix=");
                message.append(entry.mount_prefix.as_str());
                Err(
                    GuardFailure::new(
                        GuardError::Detail(RpcErrorDetail::fail(FailureKind::NotSupported, message)),
                    ).with_mount(Some(entry.namespace_owner_group_name), Some(entry.mount_epoch)),
                )
            },
        }
    }

    /// Reading metadata needs the root mount.
    pub fn check_meta_read(&self) -> (result: Result<(), GuardFailure>)
        ensures
            guarded(result, readiness_failure(self.readiness_gate)),
    {
        self.check_readiness()
    }

    /// Writing metadata needs the root mount and the leader.
    pub fn check_meta_write(&self, caller_group: &Option<GroupName>) -> (result: Result<(), GuardFailure>)
        ensures
            guarded(
                result,
                first_failure(
                    readiness_failure(self.readiness_gate),
                    leadership_failure(self.raft_node, rpc::named(*caller_group)),
                ),
            ),
    {
        match self.check_readiness() {
            Ok(_) => self.check_leadership(caller_group),
            Err(failure) => Err(failure),
        }
    }

    /// Reading data needs the root mount and the mount's leave.
    pub fn check_data_read(&self, mount_id: MountId, mount: MountLookup) -> (result: Result<(), GuardFailure>)
        ensures
            guarded(
                result,
                first_failure(
                    readiness_failure(self.readiness_gate),
                    data_io_failure(mount_id, mount, DataIoOp::Read),
                ),
            ),
    {
        match self.check_readiness() {
            Ok(_) => Self::check_data_io(mount_id, mount, DataIoOp::Read),
            Err(failure) => Err(failure),
        }
    }

    /// Writing data needs the root mount, the leader and the mount's leave, in this order.
    pub fn check_data_write(&self, caller_group: &Option<GroupName>, mount_id: MountId, mount: MountLookup) -> (result: Result<
        (),
        GuardFailure,
    >)
        ensures
            guarded(
                result,
                first_failure(
                    first_failure(
                        readiness_failure(self.readiness_gate),
                        leadership_failure(self.raft_node, rpc::named(*caller_group)),
                    ),
                    data_io_failure(mount_id, mount, DataIoOp::Write),
                ),
            ),
    {
        match self.check_meta_write(caller_group) {
            Ok(_) => Self::check_data_io(mount_id, mount, DataIoOp::Write),
            Err(failure) => Err(failure),
        }
    }

    /// Whether the caller has a right on a path. Every caller has every right.
    pub fn check_perm(&self, bits: PermissionBits, path: &str) -> (result: Result<(), GuardFailure>)
        ensures
            result is Ok,
    {
        Ok(())
    }

    /// Whether the caller has a right on the directory of a path. Every caller has every right.
    pub fn check_parent_perm(&self, bits: PermissionBits, path: &str) -> (result: Result<(), GuardFailure>)
        ensures
            result is Ok,
    {
        Ok(())
    }

    /// Whether the caller may administrate. Every caller may.
    pub fn check_super(&self) -> (result: Result<(), GuardFailure>)
        ensures
            result is Ok,
    {
        Ok(())
    }
}

/// What lets writes through lets reads through: a node that passes a metadata write passes a
/// metadata read, and one that passes a data write under a mount that lets data through passes a
/// data read.
pub proof fn law_writes_need_more_than_reads(
    gate: Option<bool>,
    raft: Option<RaftView>,
    caller_group: Option<Seq<char>>,
    mount_id: MountId,
    mount: MountLookup,
)
    ensures
        first_failure(readiness_failure(gate), leadership_failure(raft, caller_group)) is None ==> readiness_failure(gate)
            is None,
        first_failure(
            first_failure(readiness_failure(gate), leadership_failure(raft, caller_group)),
            data_io_failure(mount_id, mount, DataIoOp::Write),
        ) is None ==> first_failure(readiness_failure(gate), data_io_failure(mount_id, mount, DataIoOp::Read)) is None,
{
}

/// Writes pass on a leader only.
pub proof fn law_only_leaders_write(
    gate: Option<bool>,
    raft: Option<RaftView>,
    caller_group: Option<Seq<char>>,
)
    requires
        first_failure(readiness_failure(gate), leadership_failure(raft, caller_group)) is None,
    ensures
        gate != Some(false),
        raft is Some && raft->0.is_leader,
{
}

/// The failure has no mount to tell of, and says that the node cannot be used for now.
pub open spec fn is_for_now(failure: Option<GuardFailureModel>) -> bool {
    &&& failure matches Some(f)
    &&& f.group_name is None && f.mount_epoch is None
    &&& f.err matches GuardErrorModel::Detail(detail)
    &&& detail.kind == FailureKind::NodeUnavailable
    &&& detail.recovery == RecoveryModel::Retry(Some(1000))
}

/// The root mount refuses only where it is watched and not ready; the client can try again after
/// a second.
pub proof fn law_an_unready_root_refuses_for_now(gate: Option<bool>)
    ensures
        gate == Some(false) ==> is_for_now(readiness_failure(gate)),
        gate != Some(false) ==> readiness_failure(gate) is None,
{
}

/// Leadership refuses on every node that does not lead: for now where there is no raft node, and
/// otherwise with the address of the leader, as far as it is known, and with the group that the
/// caller named.
pub proof fn law_followers_point_to_the_leader(raft: Option<RaftView>, caller_group: Option<Seq<char>>)
    ensures
        raft is None ==> is_for_now(leadership_failure(raft, caller_group)),
        raft is Some && raft->0.is_leader ==> leadership_failure(raft, caller_group) is None,
        raft is Some && !raft->0.is_leader ==> (leadership_failure(raft, caller_group) matches Some(f)
            && f.group_name is None && f.mount_epoch is None && (f.err matches GuardErrorModel::Detail(detail)
            && detail.kind == FailureKind::NotLeader && (detail.recovery matches RecoveryModel::RefreshMetadata {
            leader_endpoint,
            group_name,
        } && leader_endpoint == raft->0.spec_leader_address() && group_name == caller_group))),
{
}

/// Data is refused on a mount that forbids it, for good and with the group and the epoch of the
/// mount, on one that is not there, and where looking failed. A mount that allows data does not
/// refuse, whatever the operation is.
pub proof fn law_mounts_decide_on_data(mount_id: MountId, mount: MountLookup, op: DataIoOp)
    ensures
        mount matches MountLookup::Found(entry) ==> {
            &&& entry.data_io_policy == DataIoPolicy::Allow ==> data_io_failure(mount_id, mount, op) is None
            &&& entry.data_io_policy == DataIoPolicy::Forbid ==> (data_io_failure(mount_id, mount, op) matches Some(f)
                && f.group_name == Some(entry.namespace_owner_group_name@) && f.mount_epoch == Some(entry.mount_epoch)
                && (f.err matches GuardErrorModel::Detail(detail) && detail.kind == FailureKind::NotSupported
                && detail.recovery == RecoveryModel::Fail))
        },
        mount is Absent ==> (data_io_failure(mount_id, mount, op) matches Some(f) && f.group_name is None
            && f.mount_epoch is None && (f.err matches GuardErrorModel::Error(kind, _) && kind
            == ErrorKind::NotFound)),
        mount matches MountLookup::Failed(error) ==> (data_io_failure(mount_id, mount, op) matches Some(f)
            && f.group_name is None && f.mount_epoch is None && (f.err matches GuardErrorModel::Error(kind, said) && kind
            == error.spec_kind() && said == error.spec_text())),
{
}

/// Of two failures the first is told, and neither where there is none.
pub proof fn law_the_first_failure_is_told(one: Option<GuardFailureModel>, other: Option<GuardFailureModel>)
    ensures
        first_failure(one, other) is None <==> one is None && other is None,
        one is Some ==> first_failure(one, other) == one,
        one is None ==> first_failure(one, other) == other,
{
}

/// A mount that forbids data says so with its prefix and the operation, and the root says that it
/// is the root.
pub proof fn law_mounts_say_who_forbids_what(op: DataIoOp, other: DataIoOp, prefix: Seq<char>)
    ensures
        ({
            let said = forbidden_text(op, prefix);
            &&& said.skip(said.len() - prefix.len()) == prefix
            &&& prefix == "/"@ ==> "RootDataIoForbidden"@.is_prefix_of(said)
            &&& prefix != "/"@ ==> "MountHasNoUfs"@.is_prefix_of(said)
            &&& op_name(op) == op_name(other) <==> op == other
        }),
{
    let said = forbidden_text(op, prefix);
    assert(said.skip(said.len() - prefix.len()) =~= prefix);
    let first = if prefix == "/"@ {
        "RootDataIoForbidden"@
    } else {
        "MountHasNoUfs"@
    };
    assert(said.subrange(0, first.len() as int) =~= first);
    reveal_strlit("read");
    reveal_strlit("write");
    reveal_strlit("open_write");
    reveal_strlit("close_write");
    reveal_strlit("renew_lease");
    reveal_strlit("fsync");
    reveal_strlit("truncate");
    assert("write"@[0] != "fsync"@[0] && "close_write"@[0] != "renew_lease"@[0]);
}

} // verus!
