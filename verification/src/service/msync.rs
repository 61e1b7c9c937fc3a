//! Synchronization of clients with the state of one metadata group.

use crate::ids::{GroupName, RaftLogId};
use crate::raft::RaftView;
use crate::rpc;
use crate::rpc::{DetailModel, FailureKind, RecoveryModel, RefreshHint, RpcErrorDetail};
use crate::text;
use vstd::prelude::*;
use vstd::string::*;

verus! {

/// After how long a client can ask again.
pub const SYNC_RETRY_MS: u64 = 10;

/// What reading a header gave: the group that it names, if it names one.
#[derive(Debug)]
pub enum SyncHeader {
    Missing,
    /// It could not be read, for this reason.
    Invalid(String),
    Read(Option<GroupName>),
}

/// The answer to a synchronization.
#[derive(Debug)]
#[allow(inconsistent_fields)]
pub enum MsyncAnswer {
    Error { group_name: Option<GroupName>, error: RpcErrorDetail },
    /// The group has applied its log up to this state.
    Synced { group_name: GroupName, state_id: RaftLogId },
}

pub ghost enum MsyncModel {
    Error(Option<Seq<char>>, DetailModel),
    Synced(Seq<char>, RaftLogId),
}

impl View for MsyncAnswer {
    type V = MsyncModel;

    open spec fn view(&self) -> MsyncModel {
        match self {
            MsyncAnswer::Error { group_name, error } => MsyncModel::Error(rpc::named(*group_name), error@),
            MsyncAnswer::Synced { group_name, state_id } => MsyncModel::Synced(group_name@, *state_id),
        }
    }
}

pub open spec fn bad_header(text: Seq<char>) -> MsyncModel {
    MsyncModel::Error(None, DetailModel::fail(FailureKind::InvalidHeader, text))
}

/// The answer to a synchronization by a node of this group.
pub open spec fn sync_answer(served: Seq<char>, raft: RaftView, header: SyncHeader) -> MsyncModel {
    match header {
        SyncHeader::Missing => bad_header("MsyncRequestProto requires RequestHeader"@),
        SyncHeader::Invalid(error) => bad_header("invalid Msync RequestHeader: "@ + error@),
        SyncHeader::Read(None) => bad_header("MsyncRequestProto requires header.group_name"@),
        SyncHeader::Read(Some(group)) => if group@ != served {
            MsyncModel::Error(
                Some(group@),
                DetailModel::refresh(
                    FailureKind::OwnerGroupMismatch,
                    None,
                    None,
                    "requested group "@ + group@ + " is not served by this metadata runtime"@,
                ),
            )
        } else if !raft.is_leader {
            MsyncModel::Error(
                Some(group@),
                DetailModel::refresh(FailureKind::NotLeader, None, None, "msync requires leader"@),
            )
        } else {
            match raft.last_applied {
                None => MsyncModel::Error(
                    Some(group@),
                    DetailModel::retry(
                        FailureKind::NodeUnavailable,
                        Some(SYNC_RETRY_MS),
                        "last_applied_log_id is not available for msync"@,
                    ),
                ),
                Some(applied) => MsyncModel::Synced(served, applied),
            }
        },
    }
}

/// Synchronizes clients with one group.
#[derive(Debug)]
pub struct MsyncHandler {
    pub group_name: GroupName,
}

impl MsyncHandler {
    pub fn new(group_name: GroupName) -> (handler: Self)
        ensures
            handler.group_name == group_name,
    {
        MsyncHandler { group_name }
    }

    /// Answers one synchronization.
    pub fn handle(&self, raft: &RaftView, header: &SyncHeader) -> (answer: MsyncAnswer)
        ensures
            answer@ == sync_answer(self.group_name@, *raft, *header),
    {
        let group = match header {
            SyncHeader::Missing => {
                return Self::invalid_header(text::literal("MsyncRequestProto requires RequestHeader"));
            },
            SyncHeader::Invalid(error) => {
                return Self::invalid_header(text::join("invalid Msync RequestHeader: ", error.as_str()));
            },
            SyncHeader::Read(None) => {
                return Self::invalid_header(text::literal("MsyncRequestProto requires header.group_name"));
            },
            SyncHeader::Read(Some(group)) => group,
        };
        if !group.same(&self.group_name) {
            let mut message = text::join("requested group ", group.name.as_str());
            message.append(" is not served by this metadata runtime");
            return MsyncAnswer::Error {
                group_name: Some(group.clone()),
                error: RpcErrorDetail::refresh_metadata(
                    FailureKind::OwnerGroupMismatch,
                    RefreshHint { leader_endpoint: None, group_name: None },
                    message,
                ),
            };
        }
        if !raft.is_leader {
            return MsyncAnswer::Error {
                group_name: Some(group.clone()),
                error: RpcErrorDetail::refresh_metadata(
                    FailureKind::NotLeader,
                    RefreshHint { leader_endpoint: None, group_name: None },
                    text::literal("msync requires leader"),
                ),
            };
        }
        match raft.last_applied {
            None => MsyncAnswer::Error {
                group_name: Some(group.clone()),
                error: RpcErrorDetail::retry(
                    FailureKind::NodeUnavailable,
                    Some(SYNC_RETRY_MS),
                    text::literal("last_applied_log_id is not available for msync"),
                ),
            },
            Some(applied) => MsyncAnswer::Synced { group_name: self.group_name.clone(), state_id: applied },
        }
    }

    /// The answer of a node without raft. The group that the header names is told back.
    pub fn unavailable(group_name: Option<GroupName>) -> (answer: MsyncAnswer)
        ensures
            answer@ == MsyncModel::Error(
                rpc::named(group_name),
                DetailModel::retry(
                    FailureKind::NodeUnavailable,
                    Some(SYNC_RETRY_MS),
                    "msync raft node is not configured"@,
                ),
            ),
    {
        MsyncAnswer::Error {
            group_name,
            error: RpcErrorDetail::retry(
                FailureKind::NodeUnavailable,
                Some(SYNC_RETRY_MS),
                text::literal("msync raft node is not configured"),
            ),
        }
    }

    fn invalid_header(message: String) -> (answer: MsyncAnswer)
        ensures
            answer@ == bad_header(message@),
    {
        MsyncAnswer::Error { group_name: None, error: RpcErrorDetail::fail(FailureKind::InvalidHeader, message) }
    }
}

/// A state is told only by a leader, only of its own group, and is the last one it has applied.
pub proof fn law_sync_is_authoritative(served: Seq<char>, raft: RaftView, header: SyncHeader)
    requires
        sync_answer(served, raft, header) is Synced,
    ensures
        raft.is_leader,
        header matches SyncHeader::Read(Some(group)) && group@ == served,
        raft.last_applied is Some,
        sync_answer(served, raft, header) == MsyncModel::Synced(served, raft.last_applied->0),
{
}

/// A node synchronizes a client that names its group, as soon as it leads and has applied
/// something. Otherwise it says what is in the way: a header that cannot be used, another group or
/// another leader, which the client has to look up, or a state that is not there yet, which the
/// client can wait for.
pub proof fn law_sync_says_what_is_in_the_way(served: Seq<char>, raft: RaftView, header: SyncHeader)
    ensures
        header is Missing || header is Invalid || header == SyncHeader::Read(None) ==> (sync_answer(served, raft, header)
            matches MsyncModel::Error(group, detail) && group is None && detail.kind == FailureKind::InvalidHeader
            && detail.recovery == RecoveryModel::Fail),
        header matches SyncHeader::Read(Some(named)) ==> {
            let answer = sync_answer(served, raft, header);
            &&& named@ != served ==> (answer matches MsyncModel::Error(group, detail) && group == Some(named@)
                && detail.kind == FailureKind::OwnerGroupMismatch && detail.recovery == (
            RecoveryModel::RefreshMetadata { leader_endpoint: None, group_name: None }))
            &&& named@ == served && !raft.is_leader ==> (answer matches MsyncModel::Error(group, detail) && group
                == Some(named@) && detail.kind == FailureKind::NotLeader && detail.recovery == (
            RecoveryModel::RefreshMetadata { leader_endpoint: None, group_name: None }))
            &&& named@ == served && raft.is_leader && raft.last_applied is None ==> (answer matches MsyncModel::Error(
                group,
                detail,
            ) && group == Some(named@) && detail.kind == FailureKind::NodeUnavailable && detail.recovery
                == RecoveryModel::Retry(Some(10)))
            &&& named@ == served && raft.is_leader && raft.last_applied is Some ==> answer == MsyncModel::Synced(
                served,
                raft.last_applied->0,
            )
        },
{
}

} // verus!
