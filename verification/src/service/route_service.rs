//! Routes and consistency: up to which state a client can read from this node.

use crate::ids::{RaftLogId, ShardGroupId};
use crate::raft::RaftView;
use crate::rpc::{CanonicalError, CanonicalModel, ErrorClass, RefreshReason, RpcErrorCode};
use crate::service::fs_types;
use crate::text;
use vstd::prelude::*;
use vstd::string::*;

verus! {

/// After how long a client can ask again for a state that is not reached yet.
pub const MSYNC_RETRY_MS: u64 = 10;

/// A state that a client has seen of a group.
#[derive(Clone, Copy, Debug, PartialEq, Eq, Structural)]
pub struct GroupStateWatermark {
    pub group_id: ShardGroupId,
    pub state_id: RaftLogId,
}

/// What a header says of group and states.
#[derive(Debug)]
pub struct MsyncHeader {
    pub group_id: Option<ShardGroupId>,
    pub state: Vec<GroupStateWatermark>,
}

/// What reading a header gave.
#[derive(Debug)]
pub enum HeaderRead {
    Missing,
    /// It could not be read, for this reason.
    Invalid(String),
    Read(MsyncHeader),
}

/// The answer to a synchronization.
#[derive(Debug)]
#[allow(inconsistent_fields)]
pub enum RouteMsyncAnswer {
    Error { group_id: Option<ShardGroupId>, error: CanonicalError },
    /// The group has reached this state.
    Synced { group_id: ShardGroupId, state_id: RaftLogId },
}

pub ghost enum RouteMsyncModel {
    Error(Option<ShardGroupId>, CanonicalModel),
    Synced(ShardGroupId, RaftLogId),
}

impl View for RouteMsyncAnswer {
    type V = RouteMsyncModel;

    open spec fn view(&self) -> RouteMsyncModel {
        match self {
            RouteMsyncAnswer::Error { group_id, error } => RouteMsyncModel::Error(*group_id, error@),
            RouteMsyncAnswer::Synced { group_id, state_id } => RouteMsyncModel::Synced(*group_id, *state_id),
        }
    }
}

/// Not all states are of one group.
pub open spec fn mixed(state: Seq<GroupStateWatermark>) -> bool {
    exists|i: int| 0 <= i < state.len() && (#[trigger] state[i]).group_id != state[0].group_id
}

/// The one group that a header speaks of, if it speaks of one, or why it cannot be told.
pub open spec fn group_of(header: MsyncHeader) -> Result<Option<ShardGroupId>, Seq<char>> {
    let state = header.state@;
    if mixed(state) {
        Err("Msync currently supports exactly one group watermark"@)
    } else if header.group_id is Some && state.len() > 0 && header.group_id->0 != state[0].group_id {
        Err(
            "Msync RequestHeader group_id "@ + text::decimal(header.group_id->0.raw as nat)
                + " does not match state watermark group_id "@ + text::decimal(state[0].group_id.raw as nat),
        )
    } else if header.group_id is Some {
        Ok(header.group_id)
    } else if state.len() > 0 {
        Ok(Some(state[0].group_id))
    } else {
        Ok(None)
    }
}

/// The first state of the group, from a place on.
pub open spec fn state_from(state: Seq<GroupStateWatermark>, group_id: ShardGroupId, from: int) -> Option<RaftLogId>
    decreases state.len() - from,
{
    if from >= state.len() {
        None
    } else if state[from].group_id == group_id {
        Some(state[from].state_id)
    } else {
        state_from(state, group_id, from + 1)
    }
}

pub open spec fn invalid_header(text: Seq<char>) -> RouteMsyncModel {
    RouteMsyncModel::Error(None, CanonicalModel::fatal(RpcErrorCode::InvalidHeader, None, text))
}

/// The answer to a synchronization by a node that serves this group.
pub open spec fn msync_answer(served: ShardGroupId, raft: RaftView, header: HeaderRead) -> RouteMsyncModel {
    match header {
        HeaderRead::Missing => invalid_header("MsyncRequestProto requires RequestHeader"@),
        HeaderRead::Invalid(error) => invalid_header("invalid Msync RequestHeader: "@ + error@),
        HeaderRead::Read(header) => match group_of(header) {
            Err(message) => invalid_header(message),
            Ok(None) => invalid_header("MsyncRequestProto requires header.group_id or one state watermark"@),
            Ok(Some(group_id)) => if group_id != served {
                RouteMsyncModel::Error(
                    Some(group_id),
                    CanonicalModel::need_refresh(
                        RpcErrorCode::RouteEpochMismatch,
                        RefreshReason::RouteEpochMismatch,
                        "requested group "@ + text::decimal(group_id.raw as nat)
                            + " is not served by this metadata runtime"@,
                    ),
                )
            } else if !raft.is_leader {
                RouteMsyncModel::Error(
                    Some(group_id),
                    CanonicalModel::need_refresh(
                        RpcErrorCode::NotLeader,
                        RefreshReason::NotLeader,
                        "msync requires leader"@,
                    ),
                )
            } else {
                match raft.last_applied {
                    None => RouteMsyncModel::Error(
                        Some(group_id),
                        CanonicalModel::retryable(
                            RpcErrorCode::NodeUnavailable,
                            Some(MSYNC_RETRY_MS),
                            "last_applied_log_id is not available for msync"@,
                        ),
                    ),
                    Some(applied) => match state_from(header.state@, group_id, 0) {
                        Some(required) if applied.precedes(required) => RouteMsyncModel::Error(
                            Some(group_id),
                            CanonicalModel::retryable(
                                RpcErrorCode::NodeUnavailable,
                                Some(MSYNC_RETRY_MS),
                                "msync state not reached: current="@ + fs_types::log_id_text(applied) + ", required="@
                                    + fs_types::log_id_text(required),
                            ),
                        ),
                        _ => RouteMsyncModel::Synced(group_id, applied),
                    },
                }
            },
        },
    }
}

/// Requests that are not offered.
#[derive(Clone, Copy, Debug, PartialEq, Eq, Structural)]
pub enum RouteRpc {
    GetFileMeta,
    RefreshRoute,
    GetRouteTable,
}

pub open spec fn unsupported_text(which: RouteRpc) -> Seq<char> {
    match which {
        RouteRpc::GetFileMeta => "MetadataRouteService.GetFileMeta is not implemented in production yet"@,
        RouteRpc::RefreshRoute => "MetadataRouteService.RefreshRoute is not implemented in production yet"@,
        RouteRpc::GetRouteTable => "MetadataRouteService.GetRouteTable is not implemented in production yet"@,
    }
}

/// The route service of a node that serves one group.
#[derive(Debug)]
pub struct MetadataRouteServiceImpl {
    pub shard_group_id: ShardGroupId,
}

impl MetadataRouteServiceImpl {
    pub fn new(shard_group_id: ShardGroupId) -> (service: Self)
        ensures
            service.shard_group_id == shard_group_id,
    {
        MetadataRouteServiceImpl { shard_group_id }
    }

    /// The one group that a header speaks of.
    pub fn requested_group(header: &MsyncHeader) -> (group: Result<Option<ShardGroupId>, String>)
        ensures
            match group {
                Ok(g) => group_of(*header) == Ok::<Option<ShardGroupId>, Seq<char>>(g),
                Err(m) => group_of(*header) == Err::<Option<ShardGroupId>, Seq<char>>(m@),
            },
    {
        let state = &header.state;
        let mut i: usize = 0;
        while i < state.len()
            invariant
                i <= state@.len(),
                *state == header.state,
                forall|j: int| 0 <= j < i ==> (#[trigger] state@[j]).group_id == state@[0].group_id,
            decreases state@.len() - i,
        {
            if state[i].group_id != state[0].group_id {
                return Err(text::literal("Msync currently supports exactly one group watermark"));
            }
            i += 1;
        }
        let state_group = if state.len() > 0 {
            Some(state[0].group_id)
        } else {
            None
        };
        match (header.group_id, state_group) {
            (Some(header_group), Some(state_group)) => if header_group != state_group {
                let mut message = text::with_number(
                    "Msync RequestHeader group_id ",
                    header_group.raw,
                    " does not match state watermark group_id ",
                );
                text::push_decimal(&mut message, state_group.raw);
                Err(message)
            } else {
                Ok(Some(header_group))
            },
            (Some(group_id), None) => Ok(Some(group_id)),
            (None, Some(group_id)) => Ok(Some(group_id)),
            (None, None) => Ok(None),
        }
    }

    /// The state of the group that the client has seen.
    pub fn requested_min_state(header: &MsyncHeader, group_id: ShardGroupId) -> (state_id: Option<RaftLogId>)
        ensures
            state_id == state_from(header.state@, group_id, 0),
    {
        let state = &header.state;
        let mut i: usize = 0;
        while i < state.len()
            invariant
                i <= state@.len(),
                *state == header.state,
                state_from(state@, group_id, 0) == state_from(state@, group_id, i as int),
            decreases state@.len() - i,
        {
            if state[i].group_id == group_id {
                return Some(state[i].state_id);
            }
            i += 1;
        }
        None
    }

    /// Up to which state the client can read here.
    pub fn msync(&self, raft: &RaftView, header: &HeaderRead) -> (answer: RouteMsyncAnswer)
        ensures
            answer@ == msync_answer(self.shard_group_id, *raft, *header),
    {
        let header = match header {
            HeaderRead::Missing => {
                return Self::invalid_header(text::literal("MsyncRequestProto requires RequestHeader"));
            },
            HeaderRead::Invalid(error) => {
                return Self::invalid_header(text::join("invalid Msync RequestHeader: ", error.as_str()));
            },
            HeaderRead::Read(header) => header,
        };
        let group_id = match Self::requested_group(header) {
            Ok(Some(group_id)) => group_id,
            Ok(None) => {
                return Self::invalid_header(
                    text::literal("MsyncRequestProto requires header.group_id or one state watermark"),
                );
            },
            Err(message) => {
                return Self::invalid_header(message);
            },
        };
        if group_id != self.shard_group_id {
            return RouteMsyncAnswer::Error {
                group_id: Some(group_id),
                error: CanonicalError::need_refresh(
                    RpcErrorCode::RouteEpochMismatch,
                    RefreshReason::RouteEpochMismatch,
                    text::with_number("requested group ", group_id.raw, " is not served by this metadata runtime"),
                ),
            };
        }
        if !raft.is_leader {
            return RouteMsyncAnswer::Error {
                group_id: Some(group_id),
                error: CanonicalError::need_refresh(
                    RpcErrorCode::NotLeader,
                    RefreshReason::NotLeader,
                    text::literal("msync requires leader"),
                ),
            };
        }
        let applied = match raft.last_applied {
            Some(applied) => applied,
            None => {
                return RouteMsyncAnswer::Error {
                    group_id: Some(group_id),
                    error: CanonicalError::retryable(
                        RpcErrorCode::NodeUnavailable,
                        Some(MSYNC_RETRY_MS),
                        text::literal("last_applied_log_id is not available for msync"),
                    ),
                };
            },
        };
        match Self::requested_min_state(header, group_id) {
            Some(required) => {
                if !applied.has_reached(&required) {
                    let mut message = text::join(
                        "msync state not reached: current=",
                        fs_types::log_id_string(applied).as_str(),
                    );
                    message.append(", required=");
                    message.append(fs_types::log_id_string(required).as_str());
                    return RouteMsyncAnswer::Error {
                        group_id: Some(group_id),
                        error: CanonicalError::retryable(RpcErrorCode::NodeUnavailable, Some(MSYNC_RETRY_MS), message),
                    };
                }
            },
            None => {},
        }
        RouteMsyncAnswer::Synced { group_id, state_id: applied }
    }

    fn invalid_header(message: String) -> (answer: RouteMsyncAnswer)
        ensures
            answer@ == invalid_header(message@),
    {
        RouteMsyncAnswer::Error {
            group_id: None,
            error: CanonicalError::fatal(RpcErrorCode::InvalidHeader, None, message),
        }
    }

    /// The answer to a request that is not offered.
    pub fn unsupported(which: RouteRpc) -> (error: CanonicalError)
        ensures
            error@ == CanonicalModel::fatal(RpcErrorCode::NoSuchMethod, None, unsupported_text(which)),
    {
        let message = match which {
            RouteRpc::GetFileMeta => "MetadataRouteService.GetFileMeta is not implemented in production yet",
            RouteRpc::RefreshRoute => "MetadataRouteService.RefreshRoute is not implemented in production yet",
            RouteRpc::GetRouteTable => "MetadataRouteService.GetRouteTable is not implemented in production yet",
        };
        CanonicalError::fatal(RpcErrorCode::NoSuchMethod, None, text::literal(message))
    }
}

/// A state is told only by a leader, only of the group that it serves, and only once it has
/// reached the first state that the client names.
pub proof fn law_msync_tells_reached_states(served: ShardGroupId, raft: RaftView, header: HeaderRead)
    requires
        msync_answer(served, raft, header) is Synced,
    ensures
        raft.is_leader,
        msync_answer(served, raft, header) == RouteMsyncModel::Synced(served, raft.last_applied->0),
        header is Read,
        header->Read_0.state@.len() > 0 ==> header->Read_0.state@[0].group_id == served
            && !raft.last_applied->0.precedes(header->Read_0.state@[0].state_id),
{
    reveal_with_fuel(state_from, 2);
}

/// The state comes before the other: in an earlier term, under an earlier leader of the same term,
/// or earlier in the same log.
pub open spec fn is_earlier(one: RaftLogId, other: RaftLogId) -> bool {
    one.term < other.term || (one.term == other.term && one.leader_node_id < other.leader_node_id) || (one.term
        == other.term && one.leader_node_id == other.leader_node_id && one.index < other.index)
}

/// A header names the one group of all its states, or that of its own field, or both where they
/// agree.
pub proof fn law_headers_name_one_group(header: MsyncHeader)
    ensures
        ({
            let state = header.state@;
            let one = forall|i: int| 0 <= i < state.len() ==> (#[trigger] state[i]).group_id == state[0].group_id;
            let agree = header.group_id is None || state.len() == 0 || header.group_id->0 == state[0].group_id;
            &&& group_of(header) is Ok <==> one && agree
            &&& one && agree && header.group_id is Some ==> group_of(header) == Ok::<
                Option<ShardGroupId>,
                Seq<char>,
            >(header.group_id)
            &&& one && agree && header.group_id is None && state.len() > 0 ==> group_of(header) == Ok::<
                Option<ShardGroupId>,
                Seq<char>,
            >(Some(state[0].group_id))
            &&& header.group_id is None && state.len() == 0 ==> group_of(header) == Ok::<
                Option<ShardGroupId>,
                Seq<char>,
            >(None)
        }),
{
    let state = header.state@;
    if mixed(state) {
        let i = choose|i: int| 0 <= i < state.len() && (#[trigger] state[i]).group_id != state[0].group_id;
        assert(state[i].group_id != state[0].group_id);
    }
}

/// A node synchronizes a client with its group as soon as it leads and has applied the state that
/// the client has seen of it, if it has seen one. Otherwise it says what is in the way: a header
/// that cannot be used, for good; another group or another leader, which the client has to look
/// up; or a state that is not there yet, which the client can wait for.
pub proof fn law_msync_says_what_is_in_the_way(served: ShardGroupId, raft: RaftView, header: HeaderRead)
    ensures
        header is Missing || header is Invalid ==> (msync_answer(served, raft, header) matches RouteMsyncModel::Error(
            group,
            error,
        ) && group is None && error.class == ErrorClass::Fatal && error.code == RpcErrorCode::InvalidHeader),
        header matches HeaderRead::Read(read) ==> {
            let answer = msync_answer(served, raft, header);
            let named = group_of(read);
            &&& named is Err || named->Ok_0 is None ==> (answer matches RouteMsyncModel::Error(group, error)
                && group is None && error.class == ErrorClass::Fatal && error.code == RpcErrorCode::InvalidHeader)
            &&& named is Ok && named->Ok_0 is Some ==> {
                let own = named->Ok_0->0 == served;
                let state = read.state@;
                let late = state.len() > 0 && raft.last_applied is Some && is_earlier(
                    raft.last_applied->0,
                    state[0].state_id,
                );
                &&& !own ==> (answer matches RouteMsyncModel::Error(group, error) && group == named->Ok_0
                    && error.class == ErrorClass::NeedRefresh && error.code == RpcErrorCode::RouteEpochMismatch
                    && error.reason == Some(RefreshReason::RouteEpochMismatch))
                &&& own && !raft.is_leader ==> (answer matches RouteMsyncModel::Error(group, error) && group == Some(
                    served,
                ) && error.class == ErrorClass::NeedRefresh && error.code == RpcErrorCode::NotLeader && error.reason
                    == Some(RefreshReason::NotLeader))
                &&& own && raft.is_leader && (raft.last_applied is None || late) ==> (
                answer matches RouteMsyncModel::Error(group, error) && group == Some(served) && error.class
                    == ErrorClass::Retryable && error.code == RpcErrorCode::NodeUnavailable && error.retry_after_ms
                    == Some(10u64))
                &&& own && raft.is_leader && raft.last_applied is Some && !late ==> answer == RouteMsyncModel::Synced(
                    served,
                    raft.last_applied->0,
                )
            }
        },
{
    reveal_with_fuel(state_from, 2);
    if header is Read {
        law_headers_name_one_group(header->Read_0);
    }
}

proof fn lemma_state_from(state: Seq<GroupStateWatermark>, group_id: ShardGroupId, from: int, at: int)
    requires
        0 <= from <= at <= state.len(),
        forall|i: int| from <= i < at ==> (#[trigger] state[i]).group_id != group_id,
        at < state.len() ==> state[at].group_id == group_id,
    ensures
        state_from(state, group_id, from) == (if at < state.len() {
            Some(state[at].state_id)
        } else {
            None
        }),
    decreases at - from,
{
    if from < at {
        lemma_state_from(state, group_id, from + 1, at);
    }
}

/// The state that a header asks for of a group is the first that it holds of that group, and none
/// where it holds none.
pub proof fn law_the_first_state_of_a_group_counts(state: Seq<GroupStateWatermark>, group_id: ShardGroupId, at: int)
    requires
        0 <= at <= state.len(),
        forall|i: int| 0 <= i < at ==> (#[trigger] state[i]).group_id != group_id,
        at < state.len() ==> state[at].group_id == group_id,
    ensures
        at < state.len() ==> state_from(state, group_id, 0) == Some(state[at].state_id),
        at == state.len() ==> state_from(state, group_id, 0) is None,
{
    lemma_state_from(state, group_id, 0, at);
}

} // verus!
